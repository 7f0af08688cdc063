use vstd::prelude::*;
use vstd::std_specs::convert::FromSpecImpl;

verus! {

/// What went wrong while a scene was set up or a frame was produced.
#[derive(Debug, Clone, PartialEq, Eq)]
pub enum Error {
    /// A failure described only by its message.
    UnknownError(String),
}

/// The result of an operation that may fail with an [`Error`].
pub type Issue<T> = Result<T, Error>;

impl From<String> for Error {
    fn from(s: String) -> (e: Error) {
        Error::UnknownError(s)
    }
}

impl FromSpecImpl<String> for Error {
    open spec fn obeys_from_spec() -> bool {
        true
    }

    open spec fn from_spec(s: String) -> Error {
        Error::UnknownError(s)
    }
}

} // verus!
