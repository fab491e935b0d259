use vstd::prelude::*;

verus! {

/// An error reported by this library: a human-readable message.
///
/// Read failures, missing credentials, transport failures and unexpected
/// response bodies all surface as a `GistError` carrying the text that the
/// embedding program prints.
#[derive(Debug)]
pub struct GistError {
    pub message: String,
}

impl GistError {
    pub fn new(message: String) -> (e: GistError)
        ensures
            e.message@ == message@,
    {
        GistError { message }
    }
}

} // verus!
