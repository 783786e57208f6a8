//! What holds of the replies of the device bridge.

use vstd::prelude::*;
use vstd::utf8::encode_utf8;

use crate::number::decimal;
use crate::reply::{reply_text, ReplyView};

verus! {

/// A reply is its status with the words for it, the fields that let every origin in, the
/// length of its body in bytes, the notice that the connection closes, the kind of its
/// body, an empty line, and the body as it is.
pub proof fn law_replies_hold_their_body_and_its_length(reply: ReplyView)
    ensures
        ({
            let words = if reply.status == 200 {
                "OK"@
            } else if reply.json {
                "Error"@
            } else if reply.status == 204 {
                "No Content"@
            } else if reply.status == 400 {
                "Bad Request"@
            } else if reply.status == 404 {
                "Not Found"@
            } else {
                "Error"@
            };
            let fields =
                "Access-Control-Allow-Origin: *\r\nAccess-Control-Allow-Methods: GET, POST, OPTIONS\r\nAccess-Control-Allow-Headers: Content-Type, X-Printer-Cups-Name, X-Printer-Host, X-Printer-Port\r\n"@;
            let kind = if reply.json {
                "application/json"@
            } else {
                "text/plain"@
            };
            reply_text(reply) == "HTTP/1.1 "@ + decimal(reply.status as nat) + " "@ + words
                + "\r\n"@ + fields + "Content-Length: "@ + decimal(
                encode_utf8(reply.body).len(),
            ) + "\r\nConnection: close\r\nContent-Type: "@ + kind + "\r\n\r\n"@ + reply.body
        }),
{
}

/// A reply ends with an empty line and its body, as it is.
pub proof fn law_a_reply_ends_with_its_body(reply: ReplyView)
    ensures
        reply_text(reply).len() >= reply.body.len() + 4,
        reply_text(reply).skip(reply_text(reply).len() - reply.body.len()) == reply.body,
        ({
            let end = reply_text(reply).len() - reply.body.len();
            reply_text(reply).subrange(end - 4, end) == seq!['\r', '\n', '\r', '\n']
        }),
{
    reveal_strlit("\r\n\r\n");
    law_replies_hold_their_body_and_its_length(reply);
    let text = reply_text(reply);
    let end = text.len() - reply.body.len();
    let head = text.take(end);
    assert(text == head + reply.body);
    assert(text.subrange(end - 4, end) =~= "\r\n\r\n"@);
}

} // verus!
