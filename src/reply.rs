use vstd::prelude::*;

verus! {

/// HTTP status of a normal answer, including business-level failures.
pub const STATUS_OK: u16 = 200;

/// HTTP status of a request whose credential was missing or wrong.
pub const STATUS_UNAUTHORIZED: u16 = 401;

/// HTTP status of an answer that could not be produced.
pub const STATUS_SERVER_ERROR: u16 = 500;

/// The media type announced for a response body.
#[derive(Clone, Copy, Debug, PartialEq, Eq, Structural)]
pub enum ContentType {
    TextPlain,
    ApplicationJson,
}

/// A response as the server hands it to the wire: status, optional media
/// type and body text.
#[derive(Clone, Debug)]
pub struct HttpReply {
    pub status: u16,
    pub content_type: Option<ContentType>,
    pub body: String,
}

/// The mathematical value of an [`HttpReply`].
pub ghost struct ReplyView {
    pub status: u16,
    pub content_type: Option<ContentType>,
    pub body: Seq<char>,
}

impl View for HttpReply {
    type V = ReplyView;

    open spec fn view(&self) -> ReplyView {
        ReplyView { status: self.status, content_type: self.content_type, body: self.body@ }
    }
}

} // verus!
