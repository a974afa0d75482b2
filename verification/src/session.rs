//! Session lifecycle: the authentication context attached at connect time,
//! the greeting sent on open, and the per-frame pipeline that turns one
//! inbound frame into at most one outbound action. The transport itself
//! lives outside this crate; it owns the connection handle and performs
//! every send and receive.

use vstd::prelude::*;
use crate::codec::{
    chat_payload_of, decode, kind_token_of, msg_kind, remainder_of, text_decode_fails,
    InboundFrame,
};
use crate::dispatch::{dispatch, trigger_query_of, Dispatch};

verus! {

/// The configuration a session is opened with: the bearer credential that
/// is attached as a request header before the handshake.
#[derive(Debug)]
pub struct SessionConfig {
    pub credential: String,
}

/// Builds the session configuration. An absent (empty) credential is
/// refused: a session never opens without authentication context, and the
/// caller treats `None` as fatal at startup.
pub fn session_config(credential: String) -> (r: Option<SessionConfig>)
    ensures
        r is Some <==> credential@.len() > 0,
        r matches Some(c) ==> c.credential@ == credential@,
{
    if credential.as_str().unicode_len() == 0 {
        None
    } else {
        Some(SessionConfig { credential })
    }
}

/// The cookie header value carrying the credential.
pub open spec fn cookie_text(token: Seq<char>) -> Seq<char> {
    "jwt="@ + token
}

/// Formats the cookie header value that attaches the credential to the
/// connect request.
pub fn auth_cookie(token: &str) -> (r: String)
    ensures
        r@ == cookie_text(token@),
{
    let mut r = String::from_str("jwt=");
    r.append(token);
    r
}

/// The single greeting text sent once, right after a successful handshake.
pub open spec fn greeting_text() -> Seq<char> {
    "Hello WebSocket"@
}

/// The greeting frame's text.
pub fn greeting() -> (r: String)
    ensures
        r@ == greeting_text(),
{
    String::from_str("Hello WebSocket")
}

/// What handling one inbound frame asks of the transport: run a search with
/// a query (its reply is then sent as one text frame), send nothing, or
/// record that this one frame failed to decode and move on.
#[derive(Debug)]
pub enum FrameAction {
    RunSearch(String),
    NoOutbound,
    DecodeFailed(String),
}

/// The query that handling a text frame runs a search with, if any: the
/// frame must be a chat-message frame, its payload must parse, and the
/// message body must carry the trigger prefix.
pub open spec fn frame_query(t: Seq<char>) -> Option<Seq<char>> {
    if kind_token_of(t) == msg_kind() {
        match chat_payload_of(remainder_of(t)) {
            Some(p) => trigger_query_of(p.1),
            None => None,
        }
    } else {
        None
    }
}

/// The per-frame pipeline: decode, then dispatch. Total for every frame: a
/// malformed payload becomes a `DecodeFailed` value for this one frame,
/// never a panic, so no single frame can take the receive loop down.
pub fn frame_action(frame: InboundFrame) -> (a: FrameAction)
    ensures
        match frame {
            InboundFrame::Binary(_) => a is NoOutbound,
            InboundFrame::Text(t) => match a {
                FrameAction::RunSearch(q) => frame_query(t@) == Some(q@) && !text_decode_fails(
                    t@,
                ),
                FrameAction::NoOutbound => frame_query(t@) is None && !text_decode_fails(t@),
                FrameAction::DecodeFailed(raw) => text_decode_fails(t@) && raw@ == remainder_of(
                    t@,
                ),
            },
        },
{
    match decode(frame) {
        Ok(event) => match dispatch(&event) {
            Dispatch::RunSearch(q) => FrameAction::RunSearch(q),
            Dispatch::NoAction => FrameAction::NoOutbound,
        },
        Err(err) => FrameAction::DecodeFailed(err.raw),
    }
}

} // verus!
