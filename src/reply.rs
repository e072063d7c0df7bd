use vstd::prelude::*;

use crate::keystore::{ApiKeyStore, SetOutcome};

verus! {

/// Name of the response header that every reply carries.
pub const CORS_HEADER: &'static str = "Access-Control-Allow-Origin";

/// Value of that header: any origin may read the reply.
pub const CORS_ORIGIN: &'static str = "*";

/// The body of a reply.
#[derive(Debug, PartialEq, Eq)]
pub enum Body {
    Empty,
    Text(String),
    Bytes(Vec<u8>),
}

/// An HTTP reply: a status code and a body.
#[derive(Debug, PartialEq, Eq)]
pub struct Reply {
    pub status: u16,
    pub body: Body,
}

/// The body of a reply as a mathematical value.
pub enum BodyView {
    Empty,
    Text(Seq<char>),
    Bytes(Seq<u8>),
}

impl View for Body {
    type V = BodyView;

    open spec fn view(&self) -> BodyView {
        match self {
            Body::Empty => BodyView::Empty,
            Body::Text(s) => BodyView::Text(s@),
            Body::Bytes(b) => BodyView::Bytes(b@),
        }
    }
}

/// A reply with the given status and text body.
pub fn text_reply(status: u16, text: &str) -> (r: Reply)
    ensures
        r.status == status,
        r.body@ == BodyView::Text(text@),
{
    Reply { status, body: Body::Text(String::from_str(text)) }
}

/// The version string that the server reports.
pub const VERSION: &'static str = "yukari-engine: 0.1.0";

/// Reply to a request for the version: the fixed version string.
pub fn version_reply() -> (r: Reply)
    ensures
        r.status == 200,
        r.body@ == BodyView::Text(VERSION@),
{
    text_reply(200, VERSION)
}

/// Reply to a request for the API key: the key, or 404 when none is held.
pub fn key_reply(store: &ApiKeyStore) -> (r: Reply)
    ensures
        store@ matches Some(k) ==> r.status == 200 && r.body@ == BodyView::Text(k),
        store@ is None ==> r.status == 404 && r.body@ == BodyView::Text("API key not found"@),
{
    match store.get() {
        Some(k) => Reply { status: 200, body: Body::Text(k) },
        None => text_reply(404, "API key not found"),
    }
}

/// Reply to a request that set the API key. Either way the new key is in memory; the
/// body tells whether the persisted record holds it too.
pub fn set_reply(outcome: SetOutcome) -> (r: Reply)
    ensures
        r.status == 200,
        outcome == SetOutcome::Persisted ==> r.body@ == BodyView::Text(
            "API key set successfully"@,
        ),
        outcome == SetOutcome::MemoryOnly ==> r.body@ == BodyView::Text(
            "API key set in memory only: it could not be persisted"@,
        ),
{
    match outcome {
        SetOutcome::Persisted => text_reply(200, "API key set successfully"),
        SetOutcome::MemoryOnly => text_reply(
            200,
            "API key set in memory only: it could not be persisted",
        ),
    }
}

/// Reply to a request to set the key whose body is not a JSON object with an
/// `apikey` string.
pub fn malformed_body_reply() -> (r: Reply)
    ensures
        r.status == 400,
        r.body@ == BodyView::Text("malformed request body"@),
{
    text_reply(400, "malformed request body")
}

/// Reply to a request under the reserved API prefix that no API route took.
pub fn no_content_reply() -> (r: Reply)
    ensures
        r.status == 204,
        r.body@ == BodyView::Empty,
{
    Reply { status: 204, body: Body::Empty }
}

/// Reply to a file request: the file's bytes, or 404 when it could not be read.
pub fn file_reply(contents: Option<Vec<u8>>) -> (r: Reply)
    ensures
        contents matches Some(b) ==> r.status == 200 && r.body@ == BodyView::Bytes(b@),
        contents is None ==> r.status == 404 && r.body@ == BodyView::Text("File not found"@),
{
    match contents {
        Some(b) => Reply { status: 200, body: Body::Bytes(b) },
        None => text_reply(404, "File not found"),
    }
}

} // verus!
