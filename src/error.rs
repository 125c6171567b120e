//! Typed failures of the session operations.

use vstd::prelude::*;
use vstd::string::StringExecFns;
use crate::text::{decimal, push_decimal};

verus! {

/// The kind of a session-operation failure.
#[derive(Debug, Clone, Copy, PartialEq, Eq, Structural)]
pub enum PtyErrorCode {
    SpawnFailed,
    SessionNotFound,
    WriteFailed,
    ResizeFailed,
    KillFailed,
}

/// A failure of a session operation: its kind and a human-readable message.
#[derive(Debug, Clone)]
pub struct PtyError {
    pub code: PtyErrorCode,
    pub message: String,
}

/// The message of a `SessionNotFound` failure for `id`.
pub open spec fn not_found_message(id: u32) -> Seq<char> {
    "Session "@ + decimal(id as nat) + " not found"@
}

/// `e` is the `SessionNotFound` failure for `id`.
pub open spec fn is_not_found(e: PtyError, id: u32) -> bool {
    e.code == PtyErrorCode::SessionNotFound && e.message@ == not_found_message(id)
}

impl PtyError {
    /// A `SpawnFailed` failure carrying `msg`.
    pub fn spawn_failed(msg: String) -> (r: PtyError)
        ensures
            r.code == PtyErrorCode::SpawnFailed,
            r.message@ == msg@,
    {
        PtyError { code: PtyErrorCode::SpawnFailed, message: msg }
    }

    /// The `SessionNotFound` failure for `id`: "Session <id> not found".
    pub fn session_not_found(id: u32) -> (r: PtyError)
        ensures
            is_not_found(r, id),
    {
        let mut message = String::from_str("Session ");
        push_decimal(&mut message, id as u64);
        message.append(" not found");
        PtyError { code: PtyErrorCode::SessionNotFound, message }
    }

    /// A `WriteFailed` failure carrying `msg`.
    pub fn write_failed(msg: String) -> (r: PtyError)
        ensures
            r.code == PtyErrorCode::WriteFailed,
            r.message@ == msg@,
    {
        PtyError { code: PtyErrorCode::WriteFailed, message: msg }
    }

    /// A `ResizeFailed` failure carrying `msg`.
    pub fn resize_failed(msg: String) -> (r: PtyError)
        ensures
            r.code == PtyErrorCode::ResizeFailed,
            r.message@ == msg@,
    {
        PtyError { code: PtyErrorCode::ResizeFailed, message: msg }
    }

    /// A `KillFailed` failure carrying `msg`.
    pub fn kill_failed(msg: String) -> (r: PtyError)
        ensures
            r.code == PtyErrorCode::KillFailed,
            r.message@ == msg@,
    {
        PtyError { code: PtyErrorCode::KillFailed, message: msg }
    }

    /// The text form of the failure: "<Kind>: <message>".
    pub fn to_text(&self) -> (r: String)
        ensures
            r@ == code_name(self.code) + ": "@ + self.message@,
    {
        let mut s = String::from_str(self.code.name());
        s.append(": ");
        s.append(self.message.as_str());
        s
    }
}

/// The name of an error kind.
pub open spec fn code_name(c: PtyErrorCode) -> Seq<char> {
    match c {
        PtyErrorCode::SpawnFailed => "SpawnFailed"@,
        PtyErrorCode::SessionNotFound => "SessionNotFound"@,
        PtyErrorCode::WriteFailed => "WriteFailed"@,
        PtyErrorCode::ResizeFailed => "ResizeFailed"@,
        PtyErrorCode::KillFailed => "KillFailed"@,
    }
}

impl PtyErrorCode {
    /// The name of this kind, as written in the text form of a failure.
    pub fn name(&self) -> (r: &'static str)
        ensures
            r@ == code_name(*self),
    {
        match self {
            PtyErrorCode::SpawnFailed => "SpawnFailed",
            PtyErrorCode::SessionNotFound => "SessionNotFound",
            PtyErrorCode::WriteFailed => "WriteFailed",
            PtyErrorCode::ResizeFailed => "ResizeFailed",
            PtyErrorCode::KillFailed => "KillFailed",
        }
    }
}

} // verus!
