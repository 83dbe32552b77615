//! The errors that requests are answered with.
use vstd::prelude::*;

verus! {

/// The class of a failure, which decides the status a request is answered with.
#[derive(Clone, Copy, Debug, PartialEq, Eq, Structural)]
pub enum ErrorKind {
    BadRequest,
    NotFound,
    Forbidden,
    InvalidArgument,
    SerializeError,
    ServiceUnavailable,
}

/// A failure with the message the caller sees.
pub struct PicaError {
    pub kind: ErrorKind,
    pub message: String,
}

impl PicaError {
    pub fn new(kind: ErrorKind, message: &str) -> (r: PicaError)
        ensures
            r.kind == kind,
            r.message@ == message@,
    {
        PicaError { kind, message: String::from_str(message) }
    }
}

} // verus!

verus! {

/// Whether `r` failed with the given kind and message.
pub open spec fn fails_with<T>(r: Result<T, PicaError>, kind: ErrorKind, message: Seq<char>) -> bool {
    match r {
        Err(e) => e.kind == kind && e.message@ == message,
        Ok(_) => false,
    }
}

} // verus!

verus! {

/// What a lookup found, or a not-found error with `message`.
pub fn require<T>(found: Option<T>, message: String) -> (r: Result<T, PicaError>)
    ensures
        match found {
            Some(x) => r matches Ok(v) && v == x,
            None => fails_with(r, ErrorKind::NotFound, message@),
        },
{
    match found {
        Some(x) => Ok(x),
        None => Err(PicaError { kind: ErrorKind::NotFound, message }),
    }
}

} // verus!
