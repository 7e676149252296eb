//! Frames as text: each frame travels as one flat JSON object, whose member
//! `type` is the discriminator.
//!
//! The object is put together here, member by member. What JSON itself
//! asks for (how a string is quoted, how a text is parsed) is left to
//! `serde_json`, behind the few trusted functions of this file.

use crate::codec::{
    decode_client, decode_client_spec, decode_spec, decoded_client_view, decoded_view, encode,
    encode_spec, is_kind, Frame, FrameView,
};
use crate::error::DecodeError;
use crate::events::{text_view, ClientEvent, ServerEvent};
use vstd::prelude::*;

verus! {

/// The JSON string literal that stands for a text: quoted and escaped.
pub uninterp spec fn json_string_literal(s: Seq<char>) -> Seq<char>;

/// The string member of this name in the JSON object that a text holds;
/// none where the text is no JSON object or has no such string member.
pub uninterp spec fn json_text_member(text: Seq<char>, name: Seq<char>) -> Option<Seq<char>>;

/// The member of this name in the JSON object that a text holds, where it
/// is a whole number that fits 64 bits unsigned.
pub uninterp spec fn json_number_member(text: Seq<char>, name: Seq<char>) -> Option<u64>;

/// The member of this name in the JSON object that a text holds, where it
/// is `true` or `false`.
pub uninterp spec fn json_flag_member(text: Seq<char>, name: Seq<char>) -> Option<bool>;

/// The character that stands for a decimal digit.
pub open spec fn digit_char(d: nat) -> char {
    if d == 0 {
        '0'
    } else if d == 1 {
        '1'
    } else if d == 2 {
        '2'
    } else if d == 3 {
        '3'
    } else if d == 4 {
        '4'
    } else if d == 5 {
        '5'
    } else if d == 6 {
        '6'
    } else if d == 7 {
        '7'
    } else if d == 8 {
        '8'
    } else {
        '9'
    }
}

/// The decimal numeral of `n`, without sign or leading zeros.
pub open spec fn decimal_digits(n: nat) -> Seq<char>
    decreases n,
{
    if n < 10 {
        seq![digit_char(n)]
    } else {
        decimal_digits(n / 10).push(digit_char(n % 10))
    }
}

/// Trusted: `u64::to_string` of the standard library. The contract claims
/// that it writes the number as its plain decimal numeral.
#[verifier::external_body]
pub(crate) fn decimal_text(n: u64) -> (r: String)
    ensures
        r@ == decimal_digits(n as nat),
{
    n.to_string()
}

/// Trusted: `to_string` on a `serde_json::Value::String`, that is the
/// `Display` of `serde_json::Value`. The contract only names the result:
/// the same text always gives the same literal.
#[verifier::external_body]
fn quoted(s: &str) -> (r: String)
    ensures
        r@ == json_string_literal(s@),
{
    serde_json::Value::String(s.to_owned()).to_string()
}

/// Trusted: `serde_json::from_str` into a `serde_json::Value`, then
/// `Value::get` and `Value::as_str`. The contract only names the result,
/// which depends on the text and the name alone.
#[verifier::external_body]
fn text_member(text: &str, name: &str) -> (r: Option<String>)
    ensures
        text_view(r) == json_text_member(text@, name@),
{
    let value: serde_json::Value = serde_json::from_str(text).ok()?;
    value.get(name)?.as_str().map(|s| s.to_owned())
}

/// Trusted: `serde_json::from_str` into a `serde_json::Value`, then
/// `Value::get` and `Value::as_u64`. The contract only names the result.
#[verifier::external_body]
fn number_member(text: &str, name: &str) -> (r: Option<u64>)
    ensures
        r == json_number_member(text@, name@),
{
    let value: serde_json::Value = serde_json::from_str(text).ok()?;
    value.get(name)?.as_u64()
}

/// Trusted: `serde_json::from_str` into a `serde_json::Value`, then
/// `Value::get` and `Value::as_bool`. The contract only names the result.
#[verifier::external_body]
fn flag_member(text: &str, name: &str) -> (r: Option<bool>)
    ensures
        r == json_flag_member(text@, name@),
{
    let value: serde_json::Value = serde_json::from_str(text).ok()?;
    value.get(name)?.as_bool()
}

/// A text member as it is written: its string literal.
pub open spec fn quoted_view(value: Option<Seq<char>>) -> Option<Seq<char>> {
    match value {
        Some(s) => Some(json_string_literal(s)),
        None => None,
    }
}

/// A number member as it is written: its decimal numeral.
pub open spec fn number_text(value: Option<u64>) -> Option<Seq<char>> {
    match value {
        Some(n) => Some(decimal_digits(n as nat)),
        None => None,
    }
}

/// A flag member as it is written.
pub open spec fn flag_text(value: Option<bool>) -> Option<Seq<char>> {
    match value {
        Some(b) => Some(
            if b {
                "true"@
            } else {
                "false"@
            },
        ),
        None => None,
    }
}

/// An object under construction, as its text so far and whether it still
/// has no member, with one more member where the value is present: the
/// label, which is the quoted name and the colon, then the value, after a
/// comma where a member came before.
pub open spec fn with_member(
    object: (Seq<char>, bool),
    label: Seq<char>,
    value: Option<Seq<char>>,
) -> (Seq<char>, bool) {
    match value {
        None => object,
        Some(v) => ((if object.1 {
            object.0
        } else {
            object.0 + ","@
        }) + label + v, false),
    }
}

/// The text of a frame: a JSON object that holds the members that are
/// present, the discriminator first.
pub open spec fn frame_text(frame: FrameView) -> Seq<char> {
    let o = ("{"@, true);
    let o = with_member(o, "\"type\":"@, quoted_view(frame.kind));
    let o = with_member(o, "\"conversation_id\":"@, quoted_view(frame.conversation_id));
    let o = with_member(o, "\"text\":"@, quoted_view(frame.text));
    let o = with_member(o, "\"audio\":"@, quoted_view(frame.audio));
    let o = with_member(o, "\"tool_call_id\":"@, quoted_view(frame.tool_call_id));
    let o = with_member(o, "\"tool_name\":"@, quoted_view(frame.tool_name));
    let o = with_member(o, "\"parameters\":"@, quoted_view(frame.parameters));
    let o = with_member(o, "\"result\":"@, quoted_view(frame.result));
    let o = with_member(o, "\"is_error\":"@, flag_text(frame.is_error));
    let o = with_member(o, "\"event_id\":"@, number_text(frame.event_id));
    let o = with_member(o, "\"prompt\":"@, quoted_view(frame.prompt));
    let o = with_member(o, "\"first_message\":"@, quoted_view(frame.first_message));
    let o = with_member(o, "\"language\":"@, quoted_view(frame.language));
    let o = with_member(o, "\"tool_definitions\":"@, quoted_view(frame.tool_definitions));
    o.0 + "}"@
}

/// The frame that a text holds: each member that the protocol defines,
/// where the text is a JSON object that has it with the right kind of value.
pub open spec fn frame_of_text(text: Seq<char>) -> FrameView {
    FrameView {
        kind: json_text_member(text, "type"@),
        conversation_id: json_text_member(text, "conversation_id"@),
        text: json_text_member(text, "text"@),
        audio: json_text_member(text, "audio"@),
        tool_call_id: json_text_member(text, "tool_call_id"@),
        tool_name: json_text_member(text, "tool_name"@),
        parameters: json_text_member(text, "parameters"@),
        result: json_text_member(text, "result"@),
        is_error: json_flag_member(text, "is_error"@),
        event_id: json_number_member(text, "event_id"@),
        prompt: json_text_member(text, "prompt"@),
        first_message: json_text_member(text, "first_message"@),
        language: json_text_member(text, "language"@),
        tool_definitions: json_text_member(text, "tool_definitions"@),
    }
}

fn put(object: &mut String, empty: &mut bool, label: &str, value: Option<String>)
    ensures
        (final(object)@, *final(empty)) == with_member(
            (old(object)@, *old(empty)),
            label@,
            text_view(value),
        ),
{
    if let Some(v) = value {
        if !*empty {
            object.append(",");
        }
        object.append(label);
        object.append(v.as_str());
        *empty = false;
    }
}

fn quoted_member(value: &Option<String>) -> (r: Option<String>)
    ensures
        text_view(r) == quoted_view(text_view(*value)),
{
    match value {
        Some(s) => Some(quoted(s.as_str())),
        None => None,
    }
}

fn number_member_text(value: Option<u64>) -> (r: Option<String>)
    ensures
        text_view(r) == number_text(value),
{
    match value {
        Some(n) => Some(decimal_text(n)),
        None => None,
    }
}

fn flag_member_text(value: Option<bool>) -> (r: Option<String>)
    ensures
        text_view(r) == flag_text(value),
{
    match value {
        Some(b) => Some(
            if b {
                "true".to_owned()
            } else {
                "false".to_owned()
            },
        ),
        None => None,
    }
}

/// Writes a frame as text.
pub fn write_frame(frame: &Frame) -> (text: String)
    ensures
        text@ == frame_text(frame@),
{
    let mut object = "{".to_owned();
    let mut empty = true;
    put(&mut object, &mut empty, "\"type\":", quoted_member(&frame.kind));
    put(&mut object, &mut empty, "\"conversation_id\":", quoted_member(&frame.conversation_id));
    put(&mut object, &mut empty, "\"text\":", quoted_member(&frame.text));
    put(&mut object, &mut empty, "\"audio\":", quoted_member(&frame.audio));
    put(&mut object, &mut empty, "\"tool_call_id\":", quoted_member(&frame.tool_call_id));
    put(&mut object, &mut empty, "\"tool_name\":", quoted_member(&frame.tool_name));
    put(&mut object, &mut empty, "\"parameters\":", quoted_member(&frame.parameters));
    put(&mut object, &mut empty, "\"result\":", quoted_member(&frame.result));
    put(&mut object, &mut empty, "\"is_error\":", flag_member_text(frame.is_error));
    put(&mut object, &mut empty, "\"event_id\":", number_member_text(frame.event_id));
    put(&mut object, &mut empty, "\"prompt\":", quoted_member(&frame.prompt));
    put(&mut object, &mut empty, "\"first_message\":", quoted_member(&frame.first_message));
    put(&mut object, &mut empty, "\"language\":", quoted_member(&frame.language));
    put(&mut object, &mut empty, "\"tool_definitions\":", quoted_member(&frame.tool_definitions));
    object.append("}");
    object
}

/// Reads the frame that a text holds. A text that is no JSON object gives
/// the frame without members.
pub fn read_frame(text: &str) -> (frame: Frame)
    ensures
        frame@ == frame_of_text(text@),
{
    Frame {
        kind: text_member(text, "type"),
        conversation_id: text_member(text, "conversation_id"),
        text: text_member(text, "text"),
        audio: text_member(text, "audio"),
        tool_call_id: text_member(text, "tool_call_id"),
        tool_name: text_member(text, "tool_name"),
        parameters: text_member(text, "parameters"),
        result: text_member(text, "result"),
        is_error: flag_member(text, "is_error"),
        event_id: number_member(text, "event_id"),
        prompt: text_member(text, "prompt"),
        first_message: text_member(text, "first_message"),
        language: text_member(text, "language"),
        tool_definitions: text_member(text, "tool_definitions"),
    }
}

/// Writes a client event as the text to transmit. Never fails.
pub fn encode_text(event: ClientEvent) -> (text: String)
    ensures
        text@ == frame_text(encode_spec(event@)),
{
    let frame = encode(event);
    write_frame(&frame)
}

/// Reads a received text as an event of the service: the discriminator
/// first, then the members that its event requires and no others.
pub fn decode_text(text: &str) -> (r: Result<ServerEvent, DecodeError>)
    ensures
        decoded_view(r) == decode_spec(frame_of_text(text@)),
{
    let kind = match text_member(text, "type") {
        Some(kind) => kind,
        None => { return Err(DecodeError::Malformed); },
    };
    if is_kind(&kind, "conversation_initiation_metadata") {
        match text_member(text, "conversation_id") {
            Some(conversation_id) => Ok(
                ServerEvent::ConversationInitiationMetadata { conversation_id },
            ),
            None => Err(DecodeError::Malformed),
        }
    } else if is_kind(&kind, "user_transcript") {
        match text_member(text, "text") {
            Some(text) => Ok(ServerEvent::UserTranscript { text }),
            None => Err(DecodeError::Malformed),
        }
    } else if is_kind(&kind, "agent_response") {
        match text_member(text, "text") {
            Some(text) => Ok(ServerEvent::AgentResponse { text }),
            None => Err(DecodeError::Malformed),
        }
    } else if is_kind(&kind, "audio") {
        match (text_member(text, "audio"), number_member(text, "event_id")) {
            (Some(chunk), Some(event_id)) => Ok(ServerEvent::Audio { chunk, event_id }),
            _ => Err(DecodeError::Malformed),
        }
    } else if is_kind(&kind, "client_tool_call") {
        match (
            text_member(text, "tool_call_id"),
            text_member(text, "tool_name"),
            text_member(text, "parameters"),
        ) {
            (Some(tool_call_id), Some(tool_name), Some(parameters)) => Ok(
                ServerEvent::ClientToolCall { tool_call_id, tool_name, parameters },
            ),
            _ => Err(DecodeError::Malformed),
        }
    } else if is_kind(&kind, "interruption") {
        match number_member(text, "event_id") {
            Some(event_id) => Ok(ServerEvent::Interruption { event_id }),
            None => Err(DecodeError::Malformed),
        }
    } else if is_kind(&kind, "ping") {
        match number_member(text, "event_id") {
            Some(event_id) => Ok(ServerEvent::Ping { event_id }),
            None => Err(DecodeError::Malformed),
        }
    } else if is_kind(&kind, "vad_score") {
        Ok(ServerEvent::VadScore)
    } else if is_kind(&kind, "internal_tentative_agent_response") {
        match text_member(text, "text") {
            Some(text) => Ok(ServerEvent::InternalTentativeAgentResponse { text }),
            None => Err(DecodeError::Malformed),
        }
    } else if is_kind(&kind, "internal_error") {
        match text_member(text, "text") {
            Some(message) => Ok(ServerEvent::InternalError { message }),
            None => Err(DecodeError::Malformed),
        }
    } else {
        Err(DecodeError::UnknownVariant)
    }
}

/// Reads a text as an event of the caller, by the schema that
/// `encode_text` writes.
pub fn decode_client_text(text: &str) -> (r: Result<ClientEvent, DecodeError>)
    ensures
        decoded_client_view(r) == decode_client_spec(frame_of_text(text@)),
{
    decode_client(read_frame(text))
}

} // verus!
