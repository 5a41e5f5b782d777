//! The registry as the cache sees it: where a record is asked for, and what
//! an answer of the registry means.

use vstd::prelude::*;
use vstd::string::StringExecFns;
use crate::machine::FetchedView;

verus! {

/// The address of the registry's entry for an organization, up to the id.
pub const REGISTRY_PREFIX: &'static str = "https://data.brreg.no/enhetsregisteret/api/enheter/";

/// The rest of that address, after the id.
pub const REGISTRY_SUFFIX: &'static str = "/roller";

/// How long a fetch may take, in seconds, before it counts as timed out.
pub const FETCH_TIMEOUT_SECS: u64 = 10;

/// What a fetch from the registry came to.
#[derive(Debug, PartialEq, Eq)]
pub enum Fetched {
    /// The registry sent this document.
    Document(String),
    /// The registry has no such organization.
    NotFound,
    /// The registry could not be reached or gave no usable answer.
    Failed,
    /// The registry did not answer in time.
    TimedOut,
}

impl View for Fetched {
    type V = FetchedView;

    open spec fn view(&self) -> FetchedView {
        match self {
            Fetched::Document(document) => FetchedView::Document(document@),
            Fetched::NotFound => FetchedView::NotFound,
            Fetched::Failed => FetchedView::Failed,
            Fetched::TimedOut => FetchedView::TimedOut,
        }
    }
}

/// The address under which the registry is asked for `id`.
pub open spec fn registry_url_of(id: Seq<char>) -> Seq<char> {
    REGISTRY_PREFIX@ + id + REGISTRY_SUFFIX@
}

/// The address under which the registry is asked for `id`: the id is put
/// between prefix and suffix as it is.
pub fn registry_url(id: &str) -> (url: String)
    ensures
        url@ == registry_url_of(id@),
{
    String::from_str(REGISTRY_PREFIX).concat(id).concat(REGISTRY_SUFFIX)
}

/// The text that `serde_json` prints for the JSON value that it reads from
/// `body`; `None` where `body` is not one JSON value.
pub uninterp spec fn canonical_json(body: Seq<char>) -> Option<Seq<char>>;

/// Reads `body` with `serde_json::from_str` as a `serde_json::Value` and
/// turns the value into its text again. Trusted: what comes back depends on
/// `body` alone. Nothing is claimed of what the text looks like.
#[verifier::external_body]
fn normalize(body: &str) -> (document: Option<String>)
    ensures
        document matches Some(text) ==> canonical_json(body@) == Some(text@),
        document is None ==> canonical_json(body@) is None,
{
    match serde_json::from_str::<serde_json::Value>(body) {
        Ok(value) => Some(value.to_string()),
        Err(_) => None,
    }
}

/// What an answer of the registry means, given its HTTP status and the
/// document read from its body, if there was one: 404 says that there is no
/// such organization; a status from 200 to 299 with a document is that
/// document; anything else is a failure.
pub open spec fn classified(status: u16, document: Option<Seq<char>>) -> FetchedView {
    if status == 404 {
        FetchedView::NotFound
    } else if 200 <= status <= 299 {
        match document {
            Some(text) => FetchedView::Document(text),
            None => FetchedView::Failed,
        }
    } else {
        FetchedView::Failed
    }
}

/// Tells what an answer with `status` means, where `document` is what was
/// read from its body.
pub fn classify(status: u16, document: Option<String>) -> (fetched: Fetched)
    ensures
        fetched@ == classified(status, match document {
            Some(text) => Some(text@),
            None => None,
        }),
{
    if status == 404 {
        Fetched::NotFound
    } else if 200 <= status && status <= 299 {
        match document {
            Some(text) => Fetched::Document(text),
            None => Fetched::Failed,
        }
    } else {
        Fetched::Failed
    }
}

/// Tells what an answer of the registry with `status` and `body` means. The
/// document of a good answer is the body as `serde_json` reads and prints
/// it; a body that is no JSON makes the answer a failure.
pub fn interpret(status: u16, body: &str) -> (fetched: Fetched)
    ensures
        fetched@ == classified(status, canonical_json(body@)),
{
    classify(status, normalize(body))
}

} // verus!
