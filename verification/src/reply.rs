//! Replies of the device bridge.

use vstd::prelude::*;
use vstd::utf8::encode_utf8;

use crate::number::{decimal, push_decimal};

verus! {

/// A reply to a client.
pub struct Reply {
    pub status: u16,
    /// Whether the body is JSON; it is plain text otherwise.
    pub json: bool,
    pub body: String,
}

/// A reply as a value.
pub struct ReplyView {
    pub status: u16,
    pub json: bool,
    pub body: Seq<char>,
}

impl View for Reply {
    type V = ReplyView;

    open spec fn view(&self) -> ReplyView {
        ReplyView { status: self.status, json: self.json, body: self.body@ }
    }
}

/// The words that go with the status of a plain reply.
pub open spec fn reason(status: u16) -> Seq<char> {
    if status == 200 {
        "OK"@
    } else if status == 204 {
        "No Content"@
    } else if status == 400 {
        "Bad Request"@
    } else if status == 404 {
        "Not Found"@
    } else {
        "Error"@
    }
}

/// The words that go with the status of a JSON reply.
pub open spec fn json_reason(status: u16) -> Seq<char> {
    if status == 200 {
        "OK"@
    } else {
        "Error"@
    }
}

/// The header fields that let a page of any origin use the bridge.
pub open spec fn cors() -> Seq<char> {
    "Access-Control-Allow-Origin: *\r\nAccess-Control-Allow-Methods: GET, POST, OPTIONS\r\nAccess-Control-Allow-Headers: Content-Type, X-Printer-Cups-Name, X-Printer-Host, X-Printer-Port\r\n"@
}

/// The text of a reply as it goes over the connection. Its `Content-Length` is the
/// number of bytes of the body.
pub open spec fn response(
    status: u16,
    reason: Seq<char>,
    content_type: Seq<char>,
    body: Seq<char>,
) -> Seq<char> {
    "HTTP/1.1 "@ + decimal(status as nat) + " "@ + reason + "\r\n"@ + cors() + "Content-Length: "@
        + decimal(encode_utf8(body).len()) + "\r\nConnection: close\r\nContent-Type: "@
        + content_type + "\r\n\r\n"@ + body
}

/// The text of a reply.
pub open spec fn reply_text(reply: ReplyView) -> Seq<char> {
    if reply.json {
        response(reply.status, json_reason(reply.status), "application/json"@, reply.body)
    } else {
        response(reply.status, reason(reply.status), "text/plain"@, reply.body)
    }
}

/// The header fields that let a page of any origin use the bridge.
pub fn cors_headers() -> (s: &'static str)
    ensures
        s@ == cors(),
{
    "Access-Control-Allow-Origin: *\r\nAccess-Control-Allow-Methods: GET, POST, OPTIONS\r\nAccess-Control-Allow-Headers: Content-Type, X-Printer-Cups-Name, X-Printer-Host, X-Printer-Port\r\n"
}

fn response_text(status: u16, why: &str, content_type: &str, body: &str) -> (text: String)
    ensures
        text@ == response(status, why@, content_type@, body@),
{
    let mut text: String = "HTTP/1.1 ".to_owned();
    push_decimal(&mut text, status as u128);
    text.append(" ");
    text.append(why);
    text.append("\r\n");
    text.append(cors_headers());
    text.append("Content-Length: ");
    push_decimal(&mut text, body.as_bytes().len() as u128);
    text.append("\r\nConnection: close\r\nContent-Type: ");
    text.append(content_type);
    text.append("\r\n\r\n");
    text.append(body);
    text
}

/// The text of a plain reply.
pub fn write_response(status: u16, body: &str) -> (text: String)
    ensures
        text@ == reply_text(ReplyView { status, json: false, body: body@ }),
        text@ == response(status, reason(status), "text/plain"@, body@),
{
    let why = match status {
        200 => "OK",
        204 => "No Content",
        400 => "Bad Request",
        404 => "Not Found",
        _ => "Error",
    };
    response_text(status, why, "text/plain", body)
}

/// The text of a JSON reply.
pub fn write_json_response(status: u16, json: &str) -> (text: String)
    ensures
        text@ == reply_text(ReplyView { status, json: true, body: json@ }),
        text@ == response(status, json_reason(status), "application/json"@, json@),
{
    let why = if status == 200 {
        "OK"
    } else {
        "Error"
    };
    response_text(status, why, "application/json", json)
}

impl Reply {
    pub fn plain(status: u16, body: &str) -> (r: Reply)
        ensures
            r@ == (ReplyView { status, json: false, body: body@ }),
    {
        Reply { status, json: false, body: body.to_owned() }
    }

    /// The text of the reply.
    pub fn text(&self) -> (text: String)
        ensures
            text@ == reply_text(self@),
    {
        if self.json {
            write_json_response(self.status, self.body.as_str())
        } else {
            write_response(self.status, self.body.as_str())
        }
    }
}

} // verus!
