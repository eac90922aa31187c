//! Replies of the bridge: status, headers and a typed body. Every reply that
//! is built here, the error replies too, carries the three cross-origin headers.

use crate::permissions::{PermissionsStatus, PermissionsView};
use vstd::prelude::*;
use vstd::string::*;

verus! {

/// One header of a reply.
pub struct Header {
    pub name: String,
    pub value: String,
}

impl View for Header {
    type V = (Seq<char>, Seq<char>);

    open spec fn view(&self) -> (Seq<char>, Seq<char>) {
        (self.name@, self.value@)
    }
}

/// The outcome of a batch: a summary and one result per action, in order.
pub struct ComputerResponse {
    pub summary: String,
    pub results: Vec<String>,
}

/// The output of a shell command.
pub struct ShellResponse {
    pub output: String,
}

/// A captured still image with the sizes needed to map its coordinates back
/// to the screen.
pub struct AutopilotCaptureResponse {
    pub image_base64: String,
    pub width: u32,
    pub height: u32,
    pub screen_width: u32,
    pub screen_height: u32,
    pub format: String,
}

/// The report of an autopilot action that was performed.
pub struct AutopilotActResponse {
    pub status: String,
    pub summary: String,
}

/// What a reply carries: plain text, or a value to be sent as JSON.
pub enum Body {
    Text(String),
    Computer(ComputerResponse),
    Shell(ShellResponse),
    Capture(AutopilotCaptureResponse),
    Act(AutopilotActResponse),
    Permissions(PermissionsStatus),
}

/// The mathematical value of a `Body`.
pub enum BodyView {
    Text(Seq<char>),
    Computer { summary: Seq<char>, results: Seq<Seq<char>> },
    Shell { output: Seq<char> },
    Capture {
        image_base64: Seq<char>,
        width: u32,
        height: u32,
        screen_width: u32,
        screen_height: u32,
        format: Seq<char>,
    },
    Act { status: Seq<char>, summary: Seq<char> },
    Permissions(PermissionsView),
}

/// The texts of a vector of strings, in order.
pub open spec fn texts_of(v: Seq<String>) -> Seq<Seq<char>> {
    Seq::new(v.len(), |i: int| v[i]@)
}

impl View for Body {
    type V = BodyView;

    open spec fn view(&self) -> BodyView {
        match *self {
            Body::Text(t) => BodyView::Text(t@),
            Body::Computer(c) => BodyView::Computer {
                summary: c.summary@,
                results: texts_of(c.results@),
            },
            Body::Shell(s) => BodyView::Shell { output: s.output@ },
            Body::Capture(c) => BodyView::Capture {
                image_base64: c.image_base64@,
                width: c.width,
                height: c.height,
                screen_width: c.screen_width,
                screen_height: c.screen_height,
                format: c.format@,
            },
            Body::Act(a) => BodyView::Act { status: a.status@, summary: a.summary@ },
            Body::Permissions(p) => BodyView::Permissions(p@),
        }
    }
}

/// A reply to one request.
pub struct Reply {
    pub status: u16,
    pub headers: Vec<Header>,
    pub body: Body,
}

/// The mathematical value of a `Reply`.
pub struct ReplyView {
    pub status: u16,
    pub headers: Seq<(Seq<char>, Seq<char>)>,
    pub body: BodyView,
}

/// The name and value pairs of a vector of headers, in order.
pub open spec fn headers_of(v: Seq<Header>) -> Seq<(Seq<char>, Seq<char>)> {
    Seq::new(v.len(), |i: int| v[i]@)
}

impl View for Reply {
    type V = ReplyView;

    open spec fn view(&self) -> ReplyView {
        ReplyView { status: self.status, headers: headers_of(self.headers@), body: self.body@ }
    }
}

/// The reply with the given status and body, and the cross-origin headers.
pub open spec fn reply_of(status: u16, body: BodyView) -> ReplyView {
    ReplyView { status, headers: cors_headers(), body }
}

/// The reply of plain text with the given status.
pub open spec fn text_reply(status: u16, text: Seq<char>) -> ReplyView {
    reply_of(status, BodyView::Text(text))
}

/// The reply to a body that could not be decoded.
pub open spec fn bad_request_reply() -> ReplyView {
    text_reply(400, "некорректный запрос"@)
}

/// The reply where the capability asked for is not to be had.
pub open spec fn unavailable_reply() -> ReplyView {
    text_reply(503, "НЕДОСТУПНО"@)
}

/// The reply to a method and path that name no endpoint.
pub open spec fn not_found_reply() -> ReplyView {
    text_reply(404, "не найдено"@)
}

/// The reply after work that ended abnormally: a server error with a fixed text.
pub open spec fn internal_error_reply() -> ReplyView {
    text_reply(500, "внутренняя ошибка autopilot"@)
}

/// The reply to a preflight request: success, nothing in the body.
pub open spec fn preflight_reply() -> ReplyView {
    text_reply(200, Seq::empty())
}

/// The three cross-origin headers, in the order in which they are sent.
pub open spec fn cors_headers() -> Seq<(Seq<char>, Seq<char>)> {
    seq![
        ("Access-Control-Allow-Origin"@, "*"@),
        ("Access-Control-Allow-Methods"@, "GET, POST, OPTIONS"@),
        ("Access-Control-Allow-Headers"@, "Content-Type, Authorization"@),
    ]
}

/// Whether the three cross-origin headers stand at the end of `headers`.
pub open spec fn ends_with_cors(headers: Seq<(Seq<char>, Seq<char>)>) -> bool {
    headers.len() >= 3 && headers.skip(headers.len() - 3) == cors_headers()
}

/// A reply of plain text.
pub fn plain(status: u16, content: &str) -> (r: Reply)
    ensures
        r@ == text_reply(status, content@),
{
    with_body(status, Body::Text(String::from_str(content)))
}

/// A reply with the given status and body.
pub fn with_body(status: u16, body: Body) -> (r: Reply)
    ensures
        r@ == reply_of(status, body@),
        r.body == body,
{
    let r = Reply { status, headers: Vec::new(), body };
    assert(r@.headers =~= Seq::empty());
    let r = with_cors(r);
    assert(Seq::<(Seq<char>, Seq<char>)>::empty() + cors_headers() =~= cors_headers());
    r
}

/// The reply to a body that could not be decoded: 400.
pub fn bad_request() -> (r: Reply)
    ensures
        r@ == bad_request_reply(),
{
    plain(400, "некорректный запрос")
}

/// The reply where the capability asked for is not to be had: 503.
pub fn unavailable() -> (r: Reply)
    ensures
        r@ == unavailable_reply(),
{
    plain(503, "НЕДОСТУПНО")
}

/// The reply to a method and path that name no endpoint: 404.
pub fn not_found() -> (r: Reply)
    ensures
        r@ == not_found_reply(),
{
    plain(404, "не найдено")
}

/// The reply after work that ended abnormally: 500 with a fixed text that
/// gives nothing of the failure away.
pub fn internal_error() -> (r: Reply)
    ensures
        r@ == internal_error_reply(),
{
    plain(500, "внутренняя ошибка autopilot")
}

/// The reply to a preflight request: 200 with an empty body.
pub fn preflight() -> (r: Reply)
    ensures
        r@ == preflight_reply(),
{
    with_body(200, Body::Text(String::new()))
}

fn header(name: &str, value: &str) -> (h: Header)
    ensures
        h@ == (name@, value@),
{
    Header { name: String::from_str(name), value: String::from_str(value) }
}

/// Adds the three cross-origin headers behind those the reply has; status and
/// body stay as they are.
pub fn with_cors(reply: Reply) -> (r: Reply)
    ensures
        r@.status == reply@.status,
        r@.body == reply@.body,
        r.body == reply.body,
        r@.headers == reply@.headers + cors_headers(),
        ends_with_cors(r@.headers),
{
    let mut r = reply;
    let ghost before = r@.headers;
    r.headers.push(header("Access-Control-Allow-Origin", "*"));
    r.headers.push(header("Access-Control-Allow-Methods", "GET, POST, OPTIONS"));
    r.headers.push(header("Access-Control-Allow-Headers", "Content-Type, Authorization"));
    assert(r@.headers =~= before + cors_headers());
    assert(r@.headers.skip(r@.headers.len() - 3) =~= cors_headers());
    r
}

/// Every reply built from a status and a body carries exactly the three
/// cross-origin headers, whatever the status: the error replies as well.
pub proof fn lemma_every_reply_has_cors(status: u16, body: BodyView)
    ensures
        reply_of(status, body).headers == cors_headers(),
        reply_of(status, body).headers.len() == 3,
        ends_with_cors(reply_of(status, body).headers),
        ends_with_cors(bad_request_reply().headers),
        ends_with_cors(unavailable_reply().headers),
        ends_with_cors(not_found_reply().headers),
        ends_with_cors(internal_error_reply().headers),
{
    assert(cors_headers().skip(0) =~= cors_headers());
}

/// The names and values of the cross-origin headers are ASCII, as a header
/// must be to be sent.
pub proof fn lemma_cors_headers_ascii()
    ensures
        forall|i: int|
            0 <= i < cors_headers().len() ==> vstd::utf8::is_ascii_chars(
                #[trigger] cors_headers()[i].0,
            ) && vstd::utf8::is_ascii_chars(cors_headers()[i].1),
{
    reveal_strlit("Access-Control-Allow-Origin");
    reveal_strlit("*");
    reveal_strlit("Access-Control-Allow-Methods");
    reveal_strlit("GET, POST, OPTIONS");
    reveal_strlit("Access-Control-Allow-Headers");
    reveal_strlit("Content-Type, Authorization");
}

/// The reply to a preflight has status 200, an empty body and the three
/// cross-origin headers.
pub proof fn lemma_preflight_shape()
    ensures
        preflight_reply().status == 200,
        preflight_reply().body == BodyView::Text(Seq::empty()),
        preflight_reply().headers == cors_headers(),
        ends_with_cors(preflight_reply().headers),
{
    assert(cors_headers().skip(0) =~= cors_headers());
}

} // verus!
