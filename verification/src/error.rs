//! The failure taxonomy of the authorization core.
//!
//! `Deny` is not an error: it is a valid decision. Everything here is an
//! internal failure that must stop the check entirely — a check never
//! defaults to `Allow` or `Deny` when its inputs cannot be gathered.

use vstd::prelude::*;

verus! {

#[derive(Debug, Clone, Copy, PartialEq, Eq, Hash, Structural)]
pub enum Error {
    /// The policy store is not usable for this check: a named template is
    /// absent, or a derived policy id is already taken.
    Configuration,
    /// A domain value cannot be represented in the engine's fact model,
    /// e.g. two fact entities share one identifier.
    Encoding,
    /// The fact repository failed; required facts could not be gathered.
    Repository,
}

impl Error {
    /// A short diagnostic label for transport layers to log or surface.
    pub fn message(&self) -> (m: &'static str)
        ensures
            *self == Error::Configuration ==> m@ == "policy store configuration error"@,
            *self == Error::Encoding ==> m@ == "fact encoding error"@,
            *self == Error::Repository ==> m@ == "fact repository failure"@,
    {
        match self {
            Error::Configuration => "policy store configuration error",
            Error::Encoding => "fact encoding error",
            Error::Repository => "fact repository failure",
        }
    }
}

} // verus!
