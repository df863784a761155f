//! Failures reported by request assembly and response decoding.
use vstd::prelude::*;

verus! {

/// A typed failure of one operation; none of them is retried here.
#[derive(Clone, Debug)]
pub enum AzureError {
    /// The server answered with another status than the operation's success status.
    UnexpectedHttpResult { expected: u16, received: u16, body: String },
    /// The body of a success response is not well-formed XML.
    XmlParse,
    /// A node that the payload must hold is absent.
    PathNotFound(String),
    /// A node that the payload may hold once appears more than once.
    MultipleNode(String),
    /// A header that the response must carry is absent.
    MissingHeader(String),
    /// The network exchange itself failed.
    Transport(String),
}

} // verus!
