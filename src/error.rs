use vstd::prelude::*;

verus! {

/// Why an operation could not produce its result.
#[derive(Debug, Clone, PartialEq, Eq)]
pub enum Error {
    /// The transport failed, or the server answered with a failure status.
    HTTPError,
    /// The response text is not a JSON document.
    JSONError,
    /// The JSON response lacks a key the operation needs, or has it in
    /// another shape.
    JSONPathError,
    /// The named parameter is outside its documented range.
    InvalidParameter(String),
    /// The server kept redirecting past the limit the library follows.
    RedirectLoop,
}

} // verus!
