//! Message codec: splits a raw inbound text frame into a kind token and a
//! remainder, and parses the structured payload of a chat message.

use vstd::prelude::*;

verus! {

/// The whitespace characters on which a frame is split and a query trimmed.
pub open spec fn is_space_char(c: char) -> bool {
    c == ' ' || c == '\t' || c == '\n' || c == '\r'
}

/// Whether the text holds a whitespace character anywhere.
pub open spec fn has_space(s: Seq<char>) -> bool {
    exists|i: int| 0 <= i < s.len() && is_space_char(s[i])
}

/// `i` is the index of the first whitespace character of `s`.
pub open spec fn is_first_space(s: Seq<char>, i: int) -> bool {
    &&& 0 <= i < s.len()
    &&& is_space_char(s[i])
    &&& forall|j: int| 0 <= j < i ==> !is_space_char(s[j])
}

/// The index of the first whitespace character, where one exists.
pub open spec fn first_space_idx(s: Seq<char>) -> int {
    choose|i: int| is_first_space(s, i)
}

/// The kind token: everything before the first whitespace character, or the
/// whole text when it holds none.
pub open spec fn kind_token_of(s: Seq<char>) -> Seq<char> {
    if has_space(s) {
        s.subrange(0, first_space_idx(s))
    } else {
        s
    }
}

/// The remainder: everything after the first whitespace character, or empty
/// when the text holds none.
pub open spec fn remainder_of(s: Seq<char>) -> Seq<char> {
    if has_space(s) {
        s.subrange(first_space_idx(s) + 1, s.len() as int)
    } else {
        Seq::empty()
    }
}

/// The first whitespace index is unique.
proof fn lemma_first_space_unique(s: Seq<char>, i: int, j: int)
    requires
        is_first_space(s, i),
        is_first_space(s, j),
    ensures
        i == j,
{
    if i < j {
        assert(!is_space_char(s[i]));
    } else if j < i {
        assert(!is_space_char(s[j]));
    }
}

/// Splits a frame on its first whitespace character into kind token and
/// remainder; a frame with no whitespace is its own kind token, with an
/// empty remainder left out of the result.
pub fn split_once(in_string: &str) -> (parts: Vec<String>)
    ensures
        1 <= parts@.len() <= 2,
        parts@[0]@ == kind_token_of(in_string@),
        parts@.len() == 2 <==> has_space(in_string@),
        parts@.len() == 2 ==> parts@[1]@ == remainder_of(in_string@),
{
    let n = in_string.unicode_len();
    let mut i: usize = 0;
    let mut parts: Vec<String> = Vec::new();
    while i < n
        invariant
            0 <= i <= n,
            n == in_string@.len(),
            forall|j: int| 0 <= j < i ==> !is_space_char(in_string@[j]),
            parts@.len() == 0,
        decreases n - i,
    {
        let c = in_string.get_char(i);
        if c == ' ' || c == '\t' || c == '\n' || c == '\r' {
            proof {
                assert(is_first_space(in_string@, i as int));
                assert(is_first_space(in_string@, first_space_idx(in_string@)));
                lemma_first_space_unique(
                    in_string@,
                    i as int,
                    first_space_idx(in_string@),
                );
            }
            let head = in_string.substring_char(0, i);
            let tail = in_string.substring_char(i + 1, n);
            parts.push(String::from_str(head));
            parts.push(String::from_str(tail));
            return parts;
        }
        i += 1;
    }
    proof {
        assert(!has_space(in_string@));
    }
    parts.push(String::from_str(in_string));
    parts
}

/// A structured chat message: the sender's nick and the message body
/// (the wire field named `data`).
#[derive(Debug)]
pub struct ChatMessage {
    pub nick: String,
    pub body: String,
}

impl PartialEq for ChatMessage {
    fn eq(&self, other: &ChatMessage) -> (r: bool) {
        self.nick == other.nick && self.body == other.body
    }
}

impl vstd::std_specs::cmp::PartialEqSpecImpl for ChatMessage {
    open spec fn obeys_eq_spec() -> bool {
        true
    }

    open spec fn eq_spec(&self, other: &ChatMessage) -> bool {
        self.nick@ == other.nick@ && self.body@ == other.body@
    }
}

/// A recoverable decode failure for one frame; `raw` keeps the offending
/// input for diagnostics.
#[derive(Debug)]
pub struct DecodeError {
    pub raw: String,
}

/// The nick and body string fields of a chat-message payload, where the
/// payload is a JSON object holding both as strings; `None` where it is not.
pub uninterp spec fn chat_payload_of(s: Seq<char>) -> Option<(Seq<char>, Seq<char>)>;

/// Relies on serde_json: deserializes the text into the `{nick, data}`
/// shape, as `from_str` into a two-string-field struct would. Written as
/// `from_str::<Value>` followed by `Value::get` and `Value::as_str` field
/// reads, since a serde derive cannot stand in this crate. The result is a
/// function of the input text alone; extra fields in the object are ignored,
/// and any text that is not a JSON object with both fields as strings yields
/// `None`.
#[verifier::external_body]
fn parse_chat_payload(s: &str) -> (r: Option<(String, String)>)
    ensures
        match r {
            Some(p) => chat_payload_of(s@) == Some((p.0@, p.1@)),
            None => chat_payload_of(s@) is None,
        },
{
    let v: serde_json::Value = match serde_json::from_str(s) {
        Ok(v) => v,
        Err(_) => return None,
    };
    let nick = match v.get("nick").and_then(|f| f.as_str()) {
        Some(x) => x.to_string(),
        None => return None,
    };
    let body = match v.get("data").and_then(|f| f.as_str()) {
        Some(x) => x.to_string(),
        None => return None,
    };
    Some((nick, body))
}

/// Parses the remainder of a `MSG` frame, already split into
/// `[kind token, remainder]`, into a `ChatMessage`. A malformed payload is
/// a recoverable error for this one frame, never a panic.
pub fn parse(in_msg: Vec<String>) -> (r: Result<ChatMessage, DecodeError>)
    ensures
        in_msg@.len() < 2 ==> r is Err,
        in_msg@.len() >= 2 ==> match r {
            Ok(m) => chat_payload_of(in_msg@[1]@) == Some((m.nick@, m.body@)),
            Err(e) => chat_payload_of(in_msg@[1]@) is None && e.raw@ == in_msg@[1]@,
        },
{
    if in_msg.len() < 2 {
        return Err(DecodeError { raw: String::new() });
    }
    let remainder: &String = &in_msg[1];
    match parse_chat_payload(remainder.as_str()) {
        Some(p) => Ok(ChatMessage { nick: p.0, body: p.1 }),
        None => Err(DecodeError { raw: remainder.clone() }),
    }
}

/// One discrete unit of data delivered by the transport.
#[derive(Debug)]
pub enum InboundFrame {
    Text(String),
    Binary(Vec<u8>),
}

/// A decoded inbound event. `MembershipChange` and `Unrecognized` carry the
/// kind token and the raw remainder for diagnostic logging only.
#[derive(Debug)]
pub enum DecodedEvent {
    MessagePosted(ChatMessage),
    MembershipChange(String, String),
    Unrecognized(String, String),
    Ignored,
}

/// The kind token of a chat-message frame.
pub open spec fn msg_kind() -> Seq<char> {
    "MSG"@
}

/// The kind token of a user-joined frame.
pub open spec fn join_kind() -> Seq<char> {
    "JOIN"@
}

/// The kind token of a user-left frame.
pub open spec fn quit_kind() -> Seq<char> {
    "QUIT"@
}

/// What event a text frame `t` decodes to, when decoding succeeds.
pub open spec fn decodes_text_to(t: Seq<char>, e: DecodedEvent) -> bool {
    let k = kind_token_of(t);
    let rem = remainder_of(t);
    if k == msg_kind() {
        match e {
            DecodedEvent::MessagePosted(m) => chat_payload_of(rem) == Some((m.nick@, m.body@)),
            _ => false,
        }
    } else if k == join_kind() || k == quit_kind() {
        match e {
            DecodedEvent::MembershipChange(kt, ident) => kt@ == k && ident@ == rem,
            _ => false,
        }
    } else {
        match e {
            DecodedEvent::Unrecognized(kt, rest) => kt@ == k && rest@ == rem,
            _ => false,
        }
    }
}

/// Decoding a text frame fails exactly when it is a chat-message frame whose
/// remainder is not a valid structured payload.
pub open spec fn text_decode_fails(t: Seq<char>) -> bool {
    kind_token_of(t) == msg_kind() && chat_payload_of(remainder_of(t)) is None
}

/// Decodes one inbound frame into a typed event. A binary frame is ignored;
/// a malformed chat-message payload is an error for this one frame only.
pub fn decode(frame: InboundFrame) -> (r: Result<DecodedEvent, DecodeError>)
    ensures
        match frame {
            InboundFrame::Binary(_) => r matches Ok(e) && e is Ignored,
            InboundFrame::Text(t) => match r {
                Ok(e) => decodes_text_to(t@, e) && !text_decode_fails(t@),
                Err(err) => text_decode_fails(t@) && err.raw@ == remainder_of(t@),
            },
        },
{
    match frame {
        InboundFrame::Binary(_) => Ok(DecodedEvent::Ignored),
        InboundFrame::Text(t) => {
            let parts = split_once(t.as_str());
            let remainder: String = if parts.len() == 2 {
                parts[1].clone()
            } else {
                String::new()
            };
            if parts[0] == String::from_str("MSG") {
                match parse_chat_payload(remainder.as_str()) {
                    Some(p) => Ok(DecodedEvent::MessagePosted(ChatMessage {
                        nick: p.0,
                        body: p.1,
                    })),
                    None => Err(DecodeError { raw: remainder }),
                }
            } else if parts[0] == String::from_str("JOIN") || parts[0] == String::from_str("QUIT")
            {
                Ok(DecodedEvent::MembershipChange(parts[0].clone(), remainder))
            } else {
                Ok(DecodedEvent::Unrecognized(parts[0].clone(), remainder))
            }
        },
    }
}

} // verus!
