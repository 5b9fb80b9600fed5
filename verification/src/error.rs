use vstd::prelude::*;

verus! {

/// Failures surfaced by the library.
///
/// `InvalidData` reports a problem detected locally, before or after a
/// native call (for example, the operating system reporting zero
/// processors). `SysCall` wraps a non-success status from a named native
/// call together with the OS error code that accompanied it.
/// `UnknownAddressFamily` reports a client-address buffer whose family tag
/// lies outside the set of known address families; the condition is
/// surfaced as a recoverable error rather than a process abort.
#[derive(Debug, Clone, PartialEq, Eq)]
pub enum Error {
    InvalidData(&'static str),
    SysCall { call: &'static str, code: i32 },
    UnknownAddressFamily(u32),
}

impl Error {
    /// True when the error reports malformed or missing data rather than a
    /// failed native call.
    pub fn is_invalid_data(&self) -> (r: bool)
        ensures
            r == (self is InvalidData),
    {
        match self {
            Error::InvalidData(_) => true,
            _ => false,
        }
    }

    /// True when the error wraps a failed native call.
    pub fn is_sys_call(&self) -> (r: bool)
        ensures
            r == (self is SysCall),
    {
        match self {
            Error::SysCall { .. } => true,
            _ => false,
        }
    }
}

} // verus!
