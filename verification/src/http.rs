//! The HTTP surface of the server: the request method as far as routing
//! cares, the shape of a response, and the two handlers that need no
//! store access (the capability probe and the method-not-allowed reply),
//! plus the read handler over an already-performed document read.

use vstd::prelude::*;

verus! {

/// The inbound request method, as far as dispatch distinguishes it.
/// Every method other than GET, PUT and OPTIONS routes the same way.
#[derive(Clone, Copy, PartialEq, Eq, Structural, Debug)]
pub enum Method {
    Get,
    Put,
    Options,
    Other,
}

/// A response body: empty, raw document bytes, or plain error text.
#[derive(Clone, Debug, PartialEq, Eq)]
pub enum RespBody {
    Empty,
    Bytes(Vec<u8>),
    Text(String),
}

/// A fully formed response: status code, the two headers this server
/// ever sets, and the body.
#[derive(Clone, Debug, PartialEq, Eq)]
pub struct Response {
    pub status: u16,
    pub content_type: Option<&'static str>,
    pub dav: Option<&'static str>,
    pub body: RespBody,
}

/// Mathematical image of a response body.
pub enum BodyView {
    Empty,
    Bytes(Seq<u8>),
    Text(Seq<char>),
}

/// Mathematical image of a response.
pub struct RespView {
    pub status: int,
    pub content_type: Option<Seq<char>>,
    pub dav: Option<Seq<char>>,
    pub body: BodyView,
}

impl View for RespBody {
    type V = BodyView;

    open spec fn view(&self) -> BodyView {
        match self {
            RespBody::Empty => BodyView::Empty,
            RespBody::Bytes(b) => BodyView::Bytes(b@),
            RespBody::Text(t) => BodyView::Text(t@),
        }
    }
}

impl View for Response {
    type V = RespView;

    open spec fn view(&self) -> RespView {
        RespView {
            status: self.status as int,
            content_type: match self.content_type {
                Some(v) => Some(v@),
                None => None,
            },
            dav: match self.dav {
                Some(v) => Some(v@),
                None => None,
            },
            body: self.body@,
        }
    }
}

/// Successful GET: the whole document, served as HTML.
pub open spec fn ok_html_response(doc: Seq<u8>) -> RespView {
    RespView {
        status: 200,
        content_type: Some("text/html"@),
        dav: None,
        body: BodyView::Bytes(doc),
    }
}

/// Any per-request failure: a 500 whose plain-text body is the error.
pub open spec fn error_response(msg: Seq<char>) -> RespView {
    RespView { status: 500, content_type: None, dav: None, body: BodyView::Text(msg) }
}

/// Successful PUT: empty 200.
pub open spec fn ok_empty_response() -> RespView {
    RespView { status: 200, content_type: None, dav: None, body: BodyView::Empty }
}

/// The capability probe reply: `dav: tw5/put` advertises save-via-PUT.
pub open spec fn options_response() -> RespView {
    RespView { status: 200, content_type: None, dav: Some("tw5/put"@), body: BodyView::Empty }
}

/// The reply to every unsupported method.
pub open spec fn not_allowed_response() -> RespView {
    RespView {
        status: 405,
        content_type: Some("text/plain"@),
        dav: None,
        body: BodyView::Empty,
    }
}

/// Image of an I/O outcome that carries bytes on success and an error
/// description on failure.
pub open spec fn read_view(r: Result<Vec<u8>, String>) -> Result<Seq<u8>, Seq<char>> {
    match r {
        Ok(b) => Ok(b@),
        Err(e) => Err(e@),
    }
}

/// What the read handler replies, as a function of the document read.
pub open spec fn get_response(doc_read: Result<Seq<u8>, Seq<char>>) -> RespView {
    match doc_read {
        Ok(d) => ok_html_response(d),
        Err(e) => error_response("couldn't read wiki file: "@ + e),
    }
}

/// Read handler: serves the document read by the store, or surfaces the
/// read error as a 500.
pub fn handle_get(doc_read: Result<Vec<u8>, String>) -> (r: Response)
    ensures
        r@ == get_response(read_view(doc_read)),
{
    match doc_read {
        Ok(doc) => Response {
            status: 200,
            content_type: Some("text/html"),
            dav: None,
            body: RespBody::Bytes(doc),
        },
        Err(err) => {
            let msg = String::from_str("couldn't read wiki file: ").concat(err.as_str());
            Response { status: 500, content_type: None, dav: None, body: RespBody::Text(msg) }
        },
    }
}

/// Capability handler: pure, no I/O, always the same advertisement.
pub fn handle_options() -> (r: Response)
    ensures
        r@ == options_response(),
{
    Response { status: 200, content_type: None, dav: Some("tw5/put"), body: RespBody::Empty }
}

/// Handler for every method outside GET / PUT / OPTIONS.
pub fn handle_not_allowed() -> (r: Response)
    ensures
        r@ == not_allowed_response(),
{
    Response {
        status: 405,
        content_type: Some("text/plain"),
        dav: None,
        body: RespBody::Empty,
    }
}

} // verus!
