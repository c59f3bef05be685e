use vstd::prelude::*;

verus! {

/// What can go wrong in a synchronisation run.
///
/// `TokenFetchFailed`, `DecodeError` and `MalformedTokenError` abort the whole
/// run; `DeleteFailed` and `CreateFailed` are recorded per namespace.
#[derive(Clone, Copy, Debug, PartialEq, Eq, Structural)]
pub enum ErrorKind {
    TokenFetchFailed,
    DecodeError,
    MalformedTokenError,
    DeleteFailed,
    CreateFailed,
}

impl ErrorKind {
    /// Whether this error aborts the whole run rather than one namespace.
    pub open spec fn spec_is_fatal(&self) -> bool {
        match self {
            ErrorKind::TokenFetchFailed => true,
            ErrorKind::DecodeError => true,
            ErrorKind::MalformedTokenError => true,
            _ => false,
        }
    }

    #[verifier::when_used_as_spec(spec_is_fatal)]
    pub fn is_fatal(&self) -> (r: bool)
        ensures
            r == self.spec_is_fatal(),
    {
        match self {
            ErrorKind::TokenFetchFailed => true,
            ErrorKind::DecodeError => true,
            ErrorKind::MalformedTokenError => true,
            _ => false,
        }
    }
}

} // verus!
