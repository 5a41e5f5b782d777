//! How an answer of the resolver goes out over HTTP.

use vstd::prelude::*;
use crate::error::ResolveError;

verus! {

/// The content type of a document.
pub const CONTENT_TYPE: &'static str = "application/json";

/// An HTTP response: the status, and the document where there is one.
#[derive(Debug, PartialEq, Eq)]
pub struct Response {
    pub status: u16,
    pub body: Option<String>,
}

/// The HTTP status that goes with an answer: 200 with a document, 404 where
/// the registry has no such organization, 502 where the registry failed,
/// 504 where it did not answer in time, 500 where the store failed.
pub open spec fn status_of(outcome: Result<Seq<char>, ResolveError>) -> u16 {
    match outcome {
        Ok(_) => 200,
        Err(ResolveError::NotFound) => 404,
        Err(ResolveError::Fetch) => 502,
        Err(ResolveError::Timeout) => 504,
        Err(ResolveError::Store(_)) => 500,
    }
}

/// The HTTP status that goes with an error.
pub fn status_code(error: ResolveError) -> (status: u16)
    ensures
        status == status_of(Err(error)),
{
    match error {
        ResolveError::NotFound => 404,
        ResolveError::Fetch => 502,
        ResolveError::Timeout => 504,
        ResolveError::Store(_) => 500,
    }
}

/// The response that carries an answer: the document as the body of a 200,
/// or the status of the error and no body.
pub fn respond(outcome: Result<String, ResolveError>) -> (response: Response)
    ensures
        response.status == status_of(
            match outcome {
                Ok(document) => Ok(document@),
                Err(e) => Err(e),
            },
        ),
        match outcome {
            Ok(document) => response.body == Some(document),
            Err(_) => response.body is None,
        },
{
    match outcome {
        Ok(document) => Response { status: 200, body: Some(document) },
        Err(e) => Response { status: status_code(e), body: None },
    }
}

} // verus!
