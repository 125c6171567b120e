//! The session registry: the single authority over which sessions exist, and
//! the allocator of their ids.
//!
//! The registry is generic over `H`, the bundle of operating-system handles of
//! one session (the terminal's input side and controller, the output worker);
//! the code that opens terminals supplies it, and the registry decides when a
//! session exists, which id it has, and when it is gone.

use std::collections::HashMap;
use vstd::prelude::*;
use vstd::string::StringExecFns;
use crate::error::{is_not_found, PtyError, PtyErrorCode};
use crate::geometry::{is_invalid_dimensions, valid_dimensions, validate_dimensions};
use crate::spawn::SpawnPlan;

verus! {

broadcast use vstd::std_specs::hash::group_hash_axioms;

/// One live session: the shell's process id, the process group that signals
/// are sent to, and the session's handles.
pub struct PtySession<H> {
    pub child_pid: i32,
    pub pgid: i32,
    pub io: H,
}

/// An id reserved for one spawn; spent when the spawn is finished.
pub struct SpawnTicket {
    id: u32,
}

impl SpawnTicket {
    /// The reserved id.
    pub closed spec fn spec_id(&self) -> u32 {
        self.id
    }

    /// The reserved id.
    pub fn id(&self) -> (r: u32)
        ensures
            r == self.spec_id(),
    {
        self.id
    }
}

/// The message of the failure when a ticket's id cannot be registered.
pub open spec fn stale_ticket_message() -> Seq<char> {
    "Session id already registered"@
}

/// The registry of live sessions and the id allocator.
pub struct ProcessManager<H> {
    sessions: HashMap<u32, PtySession<H>>,
    next_id: u32,
}

/// The message of the failure when every id has been issued.
pub open spec fn ids_exhausted_message() -> Seq<char> {
    "Session ids exhausted"@
}

impl<H> ProcessManager<H> {
    /// The live sessions, by id.
    pub closed spec fn sessions(&self) -> Map<u32, PtySession<H>> {
        self.sessions@
    }

    /// The id that the next successful spawn issues.
    pub closed spec fn next_id(&self) -> u32 {
        self.next_id
    }

    /// Ids start at 1, and every live session has an id issued earlier.
    pub closed spec fn wf(&self) -> bool {
        &&& self.next_id >= 1
        &&& forall|k: u32| #[trigger] self.sessions@.contains_key(k) ==> 1 <= k < self.next_id
    }

    /// `id` is the id a spawn issued when it took the registry from `before`
    /// to `after`.
    pub open spec fn issues(before: &Self, after: &Self, id: u32) -> bool {
        &&& id == before.next_id()
        &&& after.next_id() == before.next_id() + 1
    }

    /// An empty registry whose first id is 1.
    pub fn new() -> (r: Self)
        ensures
            r.wf(),
            r.sessions() == Map::<u32, PtySession<H>>::empty(),
            r.next_id() == 1,
    {
        ProcessManager { sessions: HashMap::new(), next_id: 1 }
    }

    /// Whether a session with this id is live.
    pub fn contains_session(&self, session_id: u32) -> (r: bool)
        ensures
            r == self.sessions().contains_key(session_id),
    {
        self.sessions.contains_key(&session_id)
    }

    /// The number of live sessions.
    pub fn session_count(&self) -> (r: usize)
        ensures
            r == self.sessions().len(),
    {
        self.sessions.len()
    }

    /// `id` was issued and names no live session, so a session may be
    /// registered under it.
    pub open spec fn can_register(&self, id: u32) -> bool {
        1 <= id < self.next_id() && !self.sessions().contains_key(id)
    }

    /// Reserves the next id for a spawn. Once every id has been issued,
    /// fails with `SpawnFailed` and leaves the registry as it was.
    pub fn begin_spawn(&mut self) -> (r: Result<SpawnTicket, PtyError>)
        requires
            old(self).wf(),
        ensures
            final(self).wf(),
            final(self).sessions() == old(self).sessions(),
            old(self).next_id() == u32::MAX ==> {
                &&& final(self).next_id() == old(self).next_id()
                &&& r matches Err(e) && e.code == PtyErrorCode::SpawnFailed
                    && e.message@ == ids_exhausted_message()
            },
            old(self).next_id() < u32::MAX ==> {
                &&& r matches Ok(t) && Self::issues(&*old(self), &*final(self), t.spec_id())
                    && final(self).can_register(t.spec_id())
            },
    {
        if self.next_id == u32::MAX {
            return Err(PtyError::spawn_failed(String::from_str("Session ids exhausted")));
        }
        let id = self.next_id;
        self.next_id = id + 1;
        Ok(SpawnTicket { id })
    }

    /// Completes a spawn begun with `begin_spawn`: registers the session that
    /// the launch built under the ticket's id, or reports the launch's
    /// failure as `SpawnFailed` with its message, registering nothing. A
    /// ticket whose id cannot be registered (already live) is `SpawnFailed`
    /// too, and changes nothing.
    pub fn finish_spawn(
        &mut self,
        ticket: SpawnTicket,
        outcome: Result<PtySession<H>, String>,
    ) -> (r: Result<u32, PtyError>)
        requires
            old(self).wf(),
        ensures
            final(self).wf(),
            final(self).next_id() == old(self).next_id(),
            r matches Err(e) ==> e.code == PtyErrorCode::SpawnFailed,
            r is Err ==> final(self).sessions() == old(self).sessions(),
            outcome matches Err(m) ==> (r matches Err(e) && e.message@ == m@),
            outcome matches Ok(s) ==> {
                if old(self).can_register(ticket.spec_id()) {
                    &&& r == Ok::<u32, PtyError>(ticket.spec_id())
                    &&& final(self).sessions() == old(self).sessions().insert(ticket.spec_id(), s)
                } else {
                    r matches Err(e) && e.message@ == stale_ticket_message()
                }
            },
    {
        let id = ticket.id;
        match outcome {
            Ok(session) => {
                if id == 0 || id >= self.next_id || self.sessions.contains_key(&id) {
                    Err(PtyError::spawn_failed(String::from_str("Session id already registered")))
                } else {
                    self.sessions.insert(id, session);
                    Ok(id)
                }
            },
            Err(m) => Err(PtyError::spawn_failed(m)),
        }
    }

    /// Spawns a session in one go: reserves the next id, hands it and `plan`
    /// to `launch`, which opens the terminal and starts the shell as the plan
    /// says, and registers what `launch` built. Every failure is
    /// `SpawnFailed`; the id is spent even when `launch` fails, and nothing is
    /// registered then. Callers that share the registry between threads use
    /// `begin_spawn` and `finish_spawn` instead, so as not to hold it while
    /// the terminal opens.
    pub fn spawn_shell<F>(&mut self, plan: &SpawnPlan, launch: F) -> (r: Result<u32, PtyError>)
        where
            F: FnOnce(u32, &SpawnPlan) -> Result<PtySession<H>, String>,
        requires
            old(self).wf(),
            forall|id: u32, p: &SpawnPlan| launch.requires((id, p)),
        ensures
            final(self).wf(),
            r matches Err(e) ==> e.code == PtyErrorCode::SpawnFailed,
            old(self).next_id() == u32::MAX ==> {
                &&& final(self).next_id() == old(self).next_id()
                &&& final(self).sessions() == old(self).sessions()
                &&& r matches Err(e) && e.message@ == ids_exhausted_message()
            },
            old(self).next_id() < u32::MAX ==> {
                &&& final(self).next_id() == old(self).next_id() + 1
                &&& match r {
                    Ok(id) => {
                        &&& Self::issues(&*old(self), &*final(self), id)
                        &&& final(self).sessions().contains_key(id)
                        &&& launch.ensures((id, plan), Ok(final(self).sessions()[id]))
                        &&& final(self).sessions() == old(self).sessions().insert(
                            id,
                            final(self).sessions()[id],
                        )
                    },
                    Err(e) => {
                        &&& final(self).sessions() == old(self).sessions()
                        &&& exists|m: String|
                            #[trigger] launch.ensures((old(self).next_id(), plan), Err(m))
                                && e.message@ == m@
                    },
                }
            },
    {
        let ticket = match self.begin_spawn() {
            Ok(t) => t,
            Err(e) => return Err(e),
        };
        let id = ticket.id();
        let outcome = launch(id, plan);
        let ghost g = outcome;
        let r = self.finish_spawn(ticket, outcome);
        proof {
            if let Err(m) = g {
                assert(launch.ensures((id, plan), Err(m)));
            }
        }
        r
    }

    /// The live session with this id, or `SessionNotFound`.
    pub fn session(&self, session_id: u32) -> (r: Result<&PtySession<H>, PtyError>)
        ensures
            r is Ok <==> self.sessions().contains_key(session_id),
            r matches Ok(s) ==> *s == self.sessions()[session_id],
            r matches Err(e) ==> is_not_found(e, session_id),
    {
        match self.sessions.get(&session_id) {
            Some(s) => Ok(s),
            None => Err(PtyError::session_not_found(session_id)),
        }
    }

    /// Writes `data` to a session's input through `write`, which holds the
    /// session's writer lock, writes everything and flushes. An unknown id is
    /// `SessionNotFound`; a failure of `write` is `WriteFailed` with its message.
    pub fn write_stdin<F>(&self, session_id: u32, data: &str, write: F) -> (r: Result<(), PtyError>)
        where
            F: FnOnce(&H, &str) -> Result<(), String>,
        requires
            forall|io: &H, d: &str| write.requires((io, d)),
        ensures
            !self.sessions().contains_key(session_id) ==> (r matches Err(e) && is_not_found(
                e,
                session_id,
            )),
            self.sessions().contains_key(session_id) ==> match r {
                Ok(u) => write.ensures((&self.sessions()[session_id].io, data), Ok(u)),
                Err(e) => e.code == PtyErrorCode::WriteFailed && exists|m: String|
                    #[trigger] write.ensures((&self.sessions()[session_id].io, data), Err(m))
                        && e.message@ == m@,
            },
    {
        let session = match self.session(session_id) {
            Ok(s) => s,
            Err(e) => return Err(e),
        };
        match write(&session.io, data) {
            Ok(u) => Ok(u),
            Err(m) => {
                let ghost gm = m;
                let e = PtyError::write_failed(m);
                assert(write.ensures((&self.sessions()[session_id].io, data), Err(gm)));
                Err(e)
            },
        }
    }

    /// Resizes a session's terminal through `apply`, which holds the session's
    /// controller lock. Dimensions outside `1 ..= 500` are `ResizeFailed`
    /// before any lookup; then an unknown id is `SessionNotFound`, and a
    /// failure of `apply` is `ResizeFailed` with its message.
    pub fn resize_pty<F>(&self, session_id: u32, rows: u16, cols: u16, apply: F) -> (r: Result<
        (),
        PtyError,
    >)
        where
            F: FnOnce(&H, u16, u16) -> Result<(), String>,
        requires
            forall|io: &H, rs: u16, cs: u16| apply.requires((io, rs, cs)),
        ensures
            !valid_dimensions(rows, cols) ==> (r matches Err(e) && is_invalid_dimensions(e)),
            valid_dimensions(rows, cols) && !self.sessions().contains_key(session_id) ==> (r matches Err(
                e,
            ) && is_not_found(e, session_id)),
            valid_dimensions(rows, cols) && self.sessions().contains_key(session_id) ==> match r {
                Ok(u) => apply.ensures((&self.sessions()[session_id].io, rows, cols), Ok(u)),
                Err(e) => e.code == PtyErrorCode::ResizeFailed && exists|m: String|
                    #[trigger] apply.ensures((&self.sessions()[session_id].io, rows, cols), Err(m))
                        && e.message@ == m@,
            },
    {
        if let Err(e) = validate_dimensions(rows, cols) {
            return Err(e);
        }
        let session = match self.session(session_id) {
            Ok(s) => s,
            Err(e) => return Err(e),
        };
        match apply(&session.io, rows, cols) {
            Ok(u) => Ok(u),
            Err(m) => {
                let ghost gm = m;
                let e = PtyError::resize_failed(m);
                assert(apply.ensures((&self.sessions()[session_id].io, rows, cols), Err(gm)));
                Err(e)
            },
        }
    }

    /// Begins the teardown of a session: removes it from the registry, so that
    /// no later write, resize or kill finds it, and hands back the detached
    /// session for the termination protocol. An unknown id is
    /// `SessionNotFound` and changes nothing.
    pub fn kill_session(&mut self, session_id: u32) -> (r: Result<PtySession<H>, PtyError>)
        requires
            old(self).wf(),
        ensures
            final(self).wf(),
            final(self).next_id() == old(self).next_id(),
            r is Ok <==> old(self).sessions().contains_key(session_id),
            r matches Ok(s) ==> s == old(self).sessions()[session_id],
            final(self).sessions() == old(self).sessions().remove(session_id),
            r matches Err(e) ==> is_not_found(e, session_id),
    {
        match self.sessions.remove(&session_id) {
            Some(s) => Ok(s),
            None => {
                assert(self.sessions@ == old(self).sessions@.remove(session_id));
                Err(PtyError::session_not_found(session_id))
            },
        }
    }
}

impl<H> Default for ProcessManager<H> {
    /// An empty registry whose first id is 1.
    fn default() -> (r: Self)
        ensures
            r.wf(),
            r.sessions() == Map::<u32, PtySession<H>>::empty(),
            r.next_id() == 1,
    {
        Self::new()
    }
}

/// Ids that spawns return strictly increase: a spawn that runs on a registry
/// whose next id is at least the one left by an earlier spawn returns a
/// larger id than that earlier spawn did.
pub proof fn lemma_ids_increase<H>(
    a_before: ProcessManager<H>,
    a_after: ProcessManager<H>,
    a_id: u32,
    b_before: ProcessManager<H>,
    b_after: ProcessManager<H>,
    b_id: u32,
)
    requires
        ProcessManager::issues(&a_before, &a_after, a_id),
        b_before.next_id() >= a_after.next_id(),
        ProcessManager::issues(&b_before, &b_after, b_id),
    ensures
        a_id < b_id,
{
}

/// An id that no spawn has issued yet (0, or one at or past the next id)
/// names no live session, so write, resize and kill answer `SessionNotFound`.
pub proof fn lemma_unissued_id_absent<H>(m: ProcessManager<H>, id: u32)
    requires
        m.wf(),
        id == 0 || id >= m.next_id(),
    ensures
        !m.sessions().contains_key(id),
{
}

/// After a kill of `id`, the id names no live session, and no later spawn
/// registers it again: write, resize and a second kill answer
/// `SessionNotFound`.
pub proof fn lemma_killed_id_stays_gone<H>(
    before: ProcessManager<H>,
    after: ProcessManager<H>,
    id: u32,
    later_before: ProcessManager<H>,
    later_after: ProcessManager<H>,
    later_id: u32,
)
    requires
        before.wf(),
        after.sessions() == before.sessions().remove(id),
        after.next_id() == before.next_id(),
        before.sessions().contains_key(id),
        later_before.next_id() >= after.next_id(),
        ProcessManager::issues(&later_before, &later_after, later_id),
    ensures
        !after.sessions().contains_key(id),
        later_id != id,
{
}

} // verus!
