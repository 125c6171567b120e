//! The session-metadata registry: for each session id, the assistant mode,
//! the branch and worktree it works on, and a status label.

use dashmap::DashMap;
use vstd::prelude::*;

verus! {

/// The assistant a session runs, or none.
#[derive(Debug, Clone, Copy, PartialEq, Eq, Structural)]
pub enum AiMode {
    Claude,
    Gemini,
    Codex,
    Plain,
}

/// The status label of a session.
#[derive(Debug, Clone, Copy, PartialEq, Eq, Structural)]
pub enum SessionStatus {
    Starting,
    Idle,
    Working,
    NeedsInput,
    Done,
    Error,
}

/// The metadata of one session.
#[derive(Debug)]
pub struct SessionConfig {
    pub id: u32,
    pub mode: AiMode,
    pub branch: Option<String>,
    pub status: SessionStatus,
    pub worktree_path: Option<String>,
}

fn copy_text(s: &Option<String>) -> (r: Option<String>)
    ensures
        r == *s,
{
    match s {
        Some(t) => Some(t.clone()),
        None => None,
    }
}

impl SessionConfig {
    /// An equal copy of this record.
    pub fn duplicate(&self) -> (r: SessionConfig)
        ensures
            r == *self,
    {
        SessionConfig {
            id: self.id,
            mode: self.mode,
            branch: copy_text(&self.branch),
            status: self.status,
            worktree_path: copy_text(&self.worktree_path),
        }
    }
}

#[verifier::external_type_specification]
#[verifier::external_body]
#[verifier::reject_recursive_types(K)]
#[verifier::reject_recursive_types(V)]
#[verifier::reject_recursive_types(S)]
pub struct ExDashMap<K, V, S>(DashMap<K, V, S>);

/// A concurrent map of session metadata, keyed by session id.
pub type ConfigMap = DashMap<u32, SessionConfig>;

/// The records a concurrent map of session metadata holds, by id.
pub uninterp spec fn config_table(m: ConfigMap) -> Map<u32, SessionConfig>;

/// Relies on `DashMap::new`: a new map is empty.
#[verifier::external_body]
fn table_new() -> (r: ConfigMap)
    ensures
        config_table(r).is_empty(),
{
    DashMap::new()
}

/// Relies on `DashMap::insert`: the key is bound to the value, replacing any
/// earlier binding.
#[verifier::external_body]
fn table_insert(m: &mut ConfigMap, k: u32, v: SessionConfig)
    ensures
        config_table(*final(m)) == config_table(*old(m)).insert(k, v),
{
    m.insert(k, v);
}

/// Relies on `DashMap::get`: the entry of the key, if any, here copied out.
#[verifier::external_body]
fn table_get(m: &ConfigMap, k: u32) -> (r: Option<SessionConfig>)
    ensures
        r is Some <==> config_table(*m).contains_key(k),
        r matches Some(c) ==> c == config_table(*m)[k],
{
    m.get(&k).map(|e| e.value().duplicate())
}

/// Relies on `DashMap::remove`: the entry of the key, if any, is taken out
/// and returned.
#[verifier::external_body]
fn table_remove(m: &mut ConfigMap, k: u32) -> (r: Option<SessionConfig>)
    ensures
        config_table(*final(m)) == config_table(*old(m)).remove(k),
        r is Some <==> config_table(*old(m)).contains_key(k),
        r matches Some(c) ==> c == config_table(*old(m))[k],
{
    m.remove(&k).map(|(_, v)| v)
}

/// Relies on `DashMap::iter`: every entry once, in no particular order, here
/// copied out as key and record.
#[verifier::external_body]
fn table_entries(m: &ConfigMap) -> (r: Vec<(u32, SessionConfig)>)
    ensures
        r@.len() == config_table(*m).len(),
        forall|i: int|
            0 <= i < r@.len() ==> config_table(*m).contains_key(#[trigger] r@[i].0)
                && r@[i].1 == config_table(*m)[r@[i].0],
        forall|i: int, j: int| 0 <= i < j < r@.len() ==> #[trigger] r@[i].0 != #[trigger] r@[j].0,
{
    m.iter().map(|e| (*e.key(), e.value().duplicate())).collect()
}

/// The registry of session metadata.
pub struct SessionManager {
    sessions: ConfigMap,
}

/// The record of a session just created.
pub open spec fn fresh_config(id: u32, mode: AiMode) -> SessionConfig {
    SessionConfig { id, mode, branch: None, status: SessionStatus::Starting, worktree_path: None }
}

impl SessionManager {
    /// The records, by id.
    pub closed spec fn table(&self) -> Map<u32, SessionConfig> {
        config_table(self.sessions)
    }

    /// Finitely many records, each filed under its own id.
    pub closed spec fn wf(&self) -> bool {
        &&& self.table().dom().finite()
        &&& forall|k: u32| #[trigger] self.table().contains_key(k) ==> self.table()[k].id == k
    }

    /// An empty registry.
    pub fn new() -> (r: SessionManager)
        ensures
            r.wf(),
            r.table() == Map::<u32, SessionConfig>::empty(),
    {
        SessionManager { sessions: table_new() }
    }

    /// Registers session `id` in status `Starting`, with no branch and no
    /// worktree, and returns the record. An id already registered is refused:
    /// the existing record comes back as the error and nothing changes.
    pub fn create_session(&mut self, id: u32, mode: AiMode) -> (r: Result<SessionConfig, SessionConfig>)
        requires
            old(self).wf(),
        ensures
            final(self).wf(),
            r is Ok <==> !old(self).table().contains_key(id),
            r matches Ok(c) ==> c == fresh_config(id, mode) && final(self).table()
                == old(self).table().insert(id, c),
            r matches Err(c) ==> c == old(self).table()[id] && final(self).table()
                == old(self).table(),
    {
        if let Some(existing) = table_get(&self.sessions, id) {
            return Err(existing);
        }
        let config = SessionConfig {
            id,
            mode,
            branch: None,
            status: SessionStatus::Starting,
            worktree_path: None,
        };
        let copy = config.duplicate();
        table_insert(&mut self.sessions, id, config);
        Ok(copy)
    }

    /// The record of session `id`, if any.
    pub fn get_session(&self, id: u32) -> (r: Option<SessionConfig>)
        ensures
            r is Some <==> self.table().contains_key(id),
            r matches Some(c) ==> c == self.table()[id],
    {
        table_get(&self.sessions, id)
    }

    /// Sets the status of session `id`; false, and no change, if there is no
    /// such session.
    pub fn update_status(&mut self, id: u32, status: SessionStatus) -> (r: bool)
        requires
            old(self).wf(),
        ensures
            final(self).wf(),
            r == old(self).table().contains_key(id),
            r ==> final(self).table() == old(self).table().insert(
                id,
                SessionConfig { status, ..old(self).table()[id] },
            ),
            !r ==> final(self).table() == old(self).table(),
    {
        match table_get(&self.sessions, id) {
            Some(c) => {
                let updated = SessionConfig { status, ..c };
                table_insert(&mut self.sessions, id, updated);
                true
            },
            None => false,
        }
    }

    /// Links session `id` to `branch` and to `worktree_path` (replacing the
    /// earlier worktree, also by none) and returns the updated record; none,
    /// and no change, if there is no such session.
    pub fn assign_branch(&mut self, id: u32, branch: String, worktree_path: Option<String>) -> (r:
        Option<SessionConfig>)
        requires
            old(self).wf(),
        ensures
            final(self).wf(),
            r is Some <==> old(self).table().contains_key(id),
            r matches Some(c) ==> {
                &&& c == (SessionConfig {
                    branch: Some(branch),
                    worktree_path,
                    ..old(self).table()[id]
                })
                &&& final(self).table() == old(self).table().insert(id, c)
            },
            r is None ==> final(self).table() == old(self).table(),
    {
        match table_get(&self.sessions, id) {
            Some(c) => {
                let updated = SessionConfig { branch: Some(branch), worktree_path, ..c };
                let copy = updated.duplicate();
                table_insert(&mut self.sessions, id, updated);
                Some(copy)
            },
            None => None,
        }
    }

    /// Every record once, in no particular order.
    pub fn all_sessions(&self) -> (r: Vec<SessionConfig>)
        requires
            self.wf(),
        ensures
            r@.len() == self.table().len(),
            forall|i: int|
                0 <= i < r@.len() ==> self.table().contains_key(#[trigger] r@[i].id) && r@[i]
                    == self.table()[r@[i].id],
            forall|i: int, j: int| 0 <= i < j < r@.len() ==> #[trigger] r@[i].id != #[trigger] r@[j].id,
    {
        let entries = table_entries(&self.sessions);
        let mut out: Vec<SessionConfig> = Vec::new();
        let mut i: usize = 0;
        while i < entries.len()
            invariant
                i <= entries@.len(),
                out@.len() == i,
                entries@.len() == self.table().len(),
                forall|j: int|
                    0 <= j < entries@.len() ==> self.table().contains_key(#[trigger] entries@[j].0)
                        && entries@[j].1 == self.table()[entries@[j].0],
                forall|j: int, k: int|
                    0 <= j < k < entries@.len() ==> #[trigger] entries@[j].0 != #[trigger] entries@[k].0,
                forall|j: int| 0 <= j < i ==> #[trigger] out@[j] == entries@[j].1,
                self.wf(),
            decreases entries@.len() - i,
        {
            out.push(entries[i].1.duplicate());
            i = i + 1;
        }
        assert forall|j: int, k: int| 0 <= j < k < out@.len() implies #[trigger] out@[j].id
            != #[trigger] out@[k].id by {
            assert(out@[j] == entries@[j].1);
            assert(out@[k] == entries@[k].1);
            assert(self.table()[entries@[j].0].id == entries@[j].0);
            assert(self.table()[entries@[k].0].id == entries@[k].0);
        }
        assert forall|j: int| 0 <= j < out@.len() implies self.table().contains_key(
            #[trigger] out@[j].id,
        ) && out@[j] == self.table()[out@[j].id] by {
            assert(out@[j] == entries@[j].1);
            assert(self.table()[entries@[j].0].id == entries@[j].0);
        }
        out
    }

    /// Removes and returns the record of session `id`, if any.
    pub fn remove_session(&mut self, id: u32) -> (r: Option<SessionConfig>)
        requires
            old(self).wf(),
        ensures
            final(self).wf(),
            final(self).table() == old(self).table().remove(id),
            r is Some <==> old(self).table().contains_key(id),
            r matches Some(c) ==> c == old(self).table()[id],
    {
        table_remove(&mut self.sessions, id)
    }
}

} // verus!
