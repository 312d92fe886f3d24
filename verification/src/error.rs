//! Fatal-error taxonomy of the compute core. Query failures degrade to a
//! sentinel (see [`crate::device`]) and an empty enumeration degrades to an
//! absence value; everything here is unrecoverable and ends the session.

use vstd::prelude::*;

verus! {

/// An unrecoverable failure of the compute session, each variant carrying the
/// diagnostic text surfaced to the operator.
#[derive(Debug)]
pub enum SessionError {
    /// Enumeration found no compute-capable device: no compute path exists.
    NoDevice,
    /// The platform rejected the device/properties combination.
    ContextCreation(String),
    /// The kernel program failed to compile or link; carries the compiler
    /// diagnostic.
    Build(String),
    /// The named entry point was not found in a built program.
    Resolution(String),
    /// An enqueue of a kernel or buffer transfer failed.
    Dispatch(String),
}

/// The diagnostic text of an error: the carried platform diagnostic, or the
/// fixed no-device message.
pub open spec fn spec_message(e: SessionError) -> Seq<char> {
    match e {
        SessionError::NoDevice => "No opencl capable device"@,
        SessionError::ContextCreation(s) => s@,
        SessionError::Build(s) => s@,
        SessionError::Resolution(s) => s@,
        SessionError::Dispatch(s) => s@,
    }
}

/// The process exit code of a fatal category; every category gets its own.
pub open spec fn spec_exit_code(e: SessionError) -> i32 {
    match e {
        SessionError::NoDevice => 1,
        SessionError::ContextCreation(_) => 2,
        SessionError::Build(_) => 3,
        SessionError::Resolution(_) => 4,
        SessionError::Dispatch(_) => 5,
    }
}

impl SessionError {
    /// The diagnostic message surfaced to the operator.
    pub fn message(&self) -> (r: String)
        ensures
            r@ == spec_message(*self),
    {
        match self {
            SessionError::NoDevice => String::from_str("No opencl capable device"),
            SessionError::ContextCreation(s) => s.clone(),
            SessionError::Build(s) => s.clone(),
            SessionError::Resolution(s) => s.clone(),
            SessionError::Dispatch(s) => s.clone(),
        }
    }

    /// The distinct process exit code of this fatal category.
    pub fn exit_code(&self) -> (r: i32)
        ensures
            r == spec_exit_code(*self),
            1 <= r <= 5,
    {
        match self {
            SessionError::NoDevice => 1,
            SessionError::ContextCreation(_) => 2,
            SessionError::Build(_) => 3,
            SessionError::Resolution(_) => 4,
            SessionError::Dispatch(_) => 5,
        }
    }
}

/// Two errors of different categories never share an exit code.
pub proof fn lemma_exit_codes_distinct(a: SessionError, b: SessionError)
    requires
        spec_exit_code(a) == spec_exit_code(b),
    ensures
        match (a, b) {
            (SessionError::NoDevice, SessionError::NoDevice) => true,
            (SessionError::ContextCreation(_), SessionError::ContextCreation(_)) => true,
            (SessionError::Build(_), SessionError::Build(_)) => true,
            (SessionError::Resolution(_), SessionError::Resolution(_)) => true,
            (SessionError::Dispatch(_), SessionError::Dispatch(_)) => true,
            _ => false,
        },
{
}

/// The diagnostic for a kernel source file that cannot be read at the
/// configured path.
pub fn missing_file_message(path: &str) -> (r: String)
    ensures
        r@ == "No file found for "@ + path@,
{
    let mut s = String::from_str("No file found for ");
    s.append(path);
    s
}

} // verus!
