//! The message codec: events to and from wire frames.
//!
//! A frame is the flat record that travels over the connection: a
//! discriminator, which names the kind of event, and the fields that the
//! protocol defines, each present or absent.

use crate::error::DecodeError;
use crate::events::{
    text_view, ClientEvent, ClientEventView, ConversationConfigOverride,
    ConversationConfigOverrideView, ServerEvent, ServerEventView,
};
use vstd::prelude::*;

verus! {

/// One wire frame. `kind` is the discriminator.
#[derive(Clone, Debug, PartialEq, Eq)]
pub struct Frame {
    pub kind: Option<String>,
    pub conversation_id: Option<String>,
    pub text: Option<String>,
    pub audio: Option<String>,
    pub tool_call_id: Option<String>,
    pub tool_name: Option<String>,
    pub parameters: Option<String>,
    pub result: Option<String>,
    pub is_error: Option<bool>,
    pub event_id: Option<u64>,
    pub prompt: Option<String>,
    pub first_message: Option<String>,
    pub language: Option<String>,
    pub tool_definitions: Option<String>,
}

pub ghost struct FrameView {
    pub kind: Option<Seq<char>>,
    pub conversation_id: Option<Seq<char>>,
    pub text: Option<Seq<char>>,
    pub audio: Option<Seq<char>>,
    pub tool_call_id: Option<Seq<char>>,
    pub tool_name: Option<Seq<char>>,
    pub parameters: Option<Seq<char>>,
    pub result: Option<Seq<char>>,
    pub is_error: Option<bool>,
    pub event_id: Option<u64>,
    pub prompt: Option<Seq<char>>,
    pub first_message: Option<Seq<char>>,
    pub language: Option<Seq<char>>,
    pub tool_definitions: Option<Seq<char>>,
}

impl View for Frame {
    type V = FrameView;

    open spec fn view(&self) -> FrameView {
        FrameView {
            kind: text_view(self.kind),
            conversation_id: text_view(self.conversation_id),
            text: text_view(self.text),
            audio: text_view(self.audio),
            tool_call_id: text_view(self.tool_call_id),
            tool_name: text_view(self.tool_name),
            parameters: text_view(self.parameters),
            result: text_view(self.result),
            is_error: self.is_error,
            event_id: self.event_id,
            prompt: text_view(self.prompt),
            first_message: text_view(self.first_message),
            language: text_view(self.language),
            tool_definitions: text_view(self.tool_definitions),
        }
    }
}

/// The frame that holds a discriminator and no field.
pub open spec fn bare_frame(kind: Seq<char>) -> FrameView {
    FrameView {
        kind: Some(kind),
        conversation_id: None,
        text: None,
        audio: None,
        tool_call_id: None,
        tool_name: None,
        parameters: None,
        result: None,
        is_error: None,
        event_id: None,
        prompt: None,
        first_message: None,
        language: None,
        tool_definitions: None,
    }
}

impl Frame {
    /// A frame with the given discriminator and no field.
    pub fn of_kind(kind: &str) -> (r: Frame)
        ensures
            r@ == bare_frame(kind@),
    {
        Frame {
            kind: Some(kind.to_owned()),
            conversation_id: None,
            text: None,
            audio: None,
            tool_call_id: None,
            tool_name: None,
            parameters: None,
            result: None,
            is_error: None,
            event_id: None,
            prompt: None,
            first_message: None,
            language: None,
            tool_definitions: None,
        }
    }
}

/// The frame that stands for a client event on the wire.
pub open spec fn encode_spec(event: ClientEventView) -> FrameView {
    match event {
        ClientEventView::ConversationInitiation { overrides } => FrameView {
            prompt: overrides.prompt,
            first_message: overrides.first_message,
            language: overrides.language,
            tool_definitions: overrides.tool_definitions,
            ..bare_frame("conversation_initiation_client_data"@)
        },
        ClientEventView::UserAudioChunk { chunk } => FrameView {
            audio: Some(chunk),
            ..bare_frame("user_audio_chunk"@)
        },
        ClientEventView::UserMessage { text } => FrameView {
            text: Some(text),
            ..bare_frame("user_message"@)
        },
        ClientEventView::ContextualUpdate { text } => FrameView {
            text: Some(text),
            ..bare_frame("contextual_update"@)
        },
        ClientEventView::ToolCallResult { tool_call_id, result, is_error } => FrameView {
            tool_call_id: Some(tool_call_id),
            result: Some(result),
            is_error: Some(is_error),
            ..bare_frame("tool_call_result"@)
        },
        ClientEventView::Pong { event_id } => FrameView {
            event_id: Some(event_id),
            ..bare_frame("pong"@)
        },
    }
}

/// Whether a discriminator names an event that the service sends.
pub open spec fn is_server_kind(kind: Seq<char>) -> bool {
    kind == "conversation_initiation_metadata"@ || kind == "user_transcript"@ || kind
        == "agent_response"@ || kind == "audio"@ || kind == "client_tool_call"@ || kind
        == "interruption"@ || kind == "ping"@ || kind == "vad_score"@ || kind
        == "internal_tentative_agent_response"@ || kind == "internal_error"@
}

/// Whether a discriminator names an event that the caller sends.
pub open spec fn is_client_kind(kind: Seq<char>) -> bool {
    kind == "conversation_initiation_client_data"@ || kind == "user_audio_chunk"@ || kind
        == "user_message"@ || kind == "contextual_update"@ || kind == "tool_call_result"@ || kind
        == "pong"@
}

/// What a frame decodes to as an event of the service: the event that its
/// discriminator names, built from the fields that the event requires;
/// `Malformed` where the discriminator or such a field is absent;
/// `UnknownVariant` where the discriminator names no event of the service.
pub open spec fn decode_spec(frame: FrameView) -> Result<ServerEventView, DecodeError> {
    match frame.kind {
        None => Err(DecodeError::Malformed),
        Some(kind) => {
            if kind == "conversation_initiation_metadata"@ {
                match frame.conversation_id {
                    Some(conversation_id) => Ok(
                        ServerEventView::ConversationInitiationMetadata { conversation_id },
                    ),
                    None => Err(DecodeError::Malformed),
                }
            } else if kind == "user_transcript"@ {
                match frame.text {
                    Some(text) => Ok(ServerEventView::UserTranscript { text }),
                    None => Err(DecodeError::Malformed),
                }
            } else if kind == "agent_response"@ {
                match frame.text {
                    Some(text) => Ok(ServerEventView::AgentResponse { text }),
                    None => Err(DecodeError::Malformed),
                }
            } else if kind == "audio"@ {
                match (frame.audio, frame.event_id) {
                    (Some(chunk), Some(event_id)) => Ok(ServerEventView::Audio { chunk, event_id }),
                    _ => Err(DecodeError::Malformed),
                }
            } else if kind == "client_tool_call"@ {
                match (frame.tool_call_id, frame.tool_name, frame.parameters) {
                    (Some(tool_call_id), Some(tool_name), Some(parameters)) => Ok(
                        ServerEventView::ClientToolCall { tool_call_id, tool_name, parameters },
                    ),
                    _ => Err(DecodeError::Malformed),
                }
            } else if kind == "interruption"@ {
                match frame.event_id {
                    Some(event_id) => Ok(ServerEventView::Interruption { event_id }),
                    None => Err(DecodeError::Malformed),
                }
            } else if kind == "ping"@ {
                match frame.event_id {
                    Some(event_id) => Ok(ServerEventView::Ping { event_id }),
                    None => Err(DecodeError::Malformed),
                }
            } else if kind == "vad_score"@ {
                Ok(ServerEventView::VadScore)
            } else if kind == "internal_tentative_agent_response"@ {
                match frame.text {
                    Some(text) => Ok(ServerEventView::InternalTentativeAgentResponse { text }),
                    None => Err(DecodeError::Malformed),
                }
            } else if kind == "internal_error"@ {
                match frame.text {
                    Some(message) => Ok(ServerEventView::InternalError { message }),
                    None => Err(DecodeError::Malformed),
                }
            } else {
                Err(DecodeError::UnknownVariant)
            }
        },
    }
}

/// What a frame decodes to as an event of the caller, by the schema that
/// `encode_spec` writes.
pub open spec fn decode_client_spec(frame: FrameView) -> Result<ClientEventView, DecodeError> {
    match frame.kind {
        None => Err(DecodeError::Malformed),
        Some(kind) => {
            if kind == "conversation_initiation_client_data"@ {
                Ok(
                    ClientEventView::ConversationInitiation {
                        overrides: ConversationConfigOverrideView {
                            prompt: frame.prompt,
                            first_message: frame.first_message,
                            language: frame.language,
                            tool_definitions: frame.tool_definitions,
                        },
                    },
                )
            } else if kind == "user_audio_chunk"@ {
                match frame.audio {
                    Some(chunk) => Ok(ClientEventView::UserAudioChunk { chunk }),
                    None => Err(DecodeError::Malformed),
                }
            } else if kind == "user_message"@ {
                match frame.text {
                    Some(text) => Ok(ClientEventView::UserMessage { text }),
                    None => Err(DecodeError::Malformed),
                }
            } else if kind == "contextual_update"@ {
                match frame.text {
                    Some(text) => Ok(ClientEventView::ContextualUpdate { text }),
                    None => Err(DecodeError::Malformed),
                }
            } else if kind == "tool_call_result"@ {
                match (frame.tool_call_id, frame.result, frame.is_error) {
                    (Some(tool_call_id), Some(result), Some(is_error)) => Ok(
                        ClientEventView::ToolCallResult { tool_call_id, result, is_error },
                    ),
                    _ => Err(DecodeError::Malformed),
                }
            } else if kind == "pong"@ {
                match frame.event_id {
                    Some(event_id) => Ok(ClientEventView::Pong { event_id }),
                    None => Err(DecodeError::Malformed),
                }
            } else {
                Err(DecodeError::UnknownVariant)
            }
        },
    }
}

/// The view of a decoding result.
pub open spec fn decoded_view(r: Result<ServerEvent, DecodeError>) -> Result<
    ServerEventView,
    DecodeError,
> {
    match r {
        Ok(event) => Ok(event@),
        Err(e) => Err(e),
    }
}

/// The view of a client-side decoding result.
pub open spec fn decoded_client_view(r: Result<ClientEvent, DecodeError>) -> Result<
    ClientEventView,
    DecodeError,
> {
    match r {
        Ok(event) => Ok(event@),
        Err(e) => Err(e),
    }
}

/// Whether a discriminator is the given word.
pub(crate) fn is_kind(kind: &String, word: &str) -> (r: bool)
    ensures
        r == (kind@ == word@),
{
    let owned = word.to_owned();
    *kind == owned
}

/// Writes a client event as its wire frame. Never fails.
pub fn encode(event: ClientEvent) -> (frame: Frame)
    ensures
        frame@ == encode_spec(event@),
{
    match event {
        ClientEvent::ConversationInitiation { overrides } => {
            let mut frame = Frame::of_kind("conversation_initiation_client_data");
            frame.prompt = overrides.prompt;
            frame.first_message = overrides.first_message;
            frame.language = overrides.language;
            frame.tool_definitions = overrides.tool_definitions;
            frame
        },
        ClientEvent::UserAudioChunk { chunk } => {
            let mut frame = Frame::of_kind("user_audio_chunk");
            frame.audio = Some(chunk);
            frame
        },
        ClientEvent::UserMessage { text } => {
            let mut frame = Frame::of_kind("user_message");
            frame.text = Some(text);
            frame
        },
        ClientEvent::ContextualUpdate { text } => {
            let mut frame = Frame::of_kind("contextual_update");
            frame.text = Some(text);
            frame
        },
        ClientEvent::ToolCallResult { tool_call_id, result, is_error } => {
            let mut frame = Frame::of_kind("tool_call_result");
            frame.tool_call_id = Some(tool_call_id);
            frame.result = Some(result);
            frame.is_error = Some(is_error);
            frame
        },
        ClientEvent::Pong { event_id } => {
            let mut frame = Frame::of_kind("pong");
            frame.event_id = Some(event_id);
            frame
        },
    }
}

/// Reads a frame as an event of the service.
pub fn decode(frame: Frame) -> (r: Result<ServerEvent, DecodeError>)
    ensures
        decoded_view(r) == decode_spec(frame@),
{
    let kind = match frame.kind {
        Some(kind) => kind,
        None => { return Err(DecodeError::Malformed); },
    };
    if is_kind(&kind, "conversation_initiation_metadata") {
        match frame.conversation_id {
            Some(conversation_id) => Ok(
                ServerEvent::ConversationInitiationMetadata { conversation_id },
            ),
            None => Err(DecodeError::Malformed),
        }
    } else if is_kind(&kind, "user_transcript") {
        match frame.text {
            Some(text) => Ok(ServerEvent::UserTranscript { text }),
            None => Err(DecodeError::Malformed),
        }
    } else if is_kind(&kind, "agent_response") {
        match frame.text {
            Some(text) => Ok(ServerEvent::AgentResponse { text }),
            None => Err(DecodeError::Malformed),
        }
    } else if is_kind(&kind, "audio") {
        match (frame.audio, frame.event_id) {
            (Some(chunk), Some(event_id)) => Ok(ServerEvent::Audio { chunk, event_id }),
            _ => Err(DecodeError::Malformed),
        }
    } else if is_kind(&kind, "client_tool_call") {
        match (frame.tool_call_id, frame.tool_name, frame.parameters) {
            (Some(tool_call_id), Some(tool_name), Some(parameters)) => Ok(
                ServerEvent::ClientToolCall { tool_call_id, tool_name, parameters },
            ),
            _ => Err(DecodeError::Malformed),
        }
    } else if is_kind(&kind, "interruption") {
        match frame.event_id {
            Some(event_id) => Ok(ServerEvent::Interruption { event_id }),
            None => Err(DecodeError::Malformed),
        }
    } else if is_kind(&kind, "ping") {
        match frame.event_id {
            Some(event_id) => Ok(ServerEvent::Ping { event_id }),
            None => Err(DecodeError::Malformed),
        }
    } else if is_kind(&kind, "vad_score") {
        Ok(ServerEvent::VadScore)
    } else if is_kind(&kind, "internal_tentative_agent_response") {
        match frame.text {
            Some(text) => Ok(ServerEvent::InternalTentativeAgentResponse { text }),
            None => Err(DecodeError::Malformed),
        }
    } else if is_kind(&kind, "internal_error") {
        match frame.text {
            Some(message) => Ok(ServerEvent::InternalError { message }),
            None => Err(DecodeError::Malformed),
        }
    } else {
        Err(DecodeError::UnknownVariant)
    }
}

/// Reads a frame as an event of the caller, by the schema that `encode`
/// writes.
pub fn decode_client(frame: Frame) -> (r: Result<ClientEvent, DecodeError>)
    ensures
        decoded_client_view(r) == decode_client_spec(frame@),
{
    let kind = match frame.kind {
        Some(kind) => kind,
        None => { return Err(DecodeError::Malformed); },
    };
    if is_kind(&kind, "conversation_initiation_client_data") {
        Ok(
            ClientEvent::ConversationInitiation {
                overrides: ConversationConfigOverride {
                    prompt: frame.prompt,
                    first_message: frame.first_message,
                    language: frame.language,
                    tool_definitions: frame.tool_definitions,
                },
            },
        )
    } else if is_kind(&kind, "user_audio_chunk") {
        match frame.audio {
            Some(chunk) => Ok(ClientEvent::UserAudioChunk { chunk }),
            None => Err(DecodeError::Malformed),
        }
    } else if is_kind(&kind, "user_message") {
        match frame.text {
            Some(text) => Ok(ClientEvent::UserMessage { text }),
            None => Err(DecodeError::Malformed),
        }
    } else if is_kind(&kind, "contextual_update") {
        match frame.text {
            Some(text) => Ok(ClientEvent::ContextualUpdate { text }),
            None => Err(DecodeError::Malformed),
        }
    } else if is_kind(&kind, "tool_call_result") {
        match (frame.tool_call_id, frame.result, frame.is_error) {
            (Some(tool_call_id), Some(result), Some(is_error)) => Ok(
                ClientEvent::ToolCallResult { tool_call_id, result, is_error },
            ),
            _ => Err(DecodeError::Malformed),
        }
    } else if is_kind(&kind, "pong") {
        match frame.event_id {
            Some(event_id) => Ok(ClientEvent::Pong { event_id }),
            None => Err(DecodeError::Malformed),
        }
    } else {
        Err(DecodeError::UnknownVariant)
    }
}

/// The discriminators of the caller's events differ from one another.
proof fn client_kinds_differ()
    ensures
        "conversation_initiation_client_data"@.len() == 35,
        "user_audio_chunk"@.len() == 16,
        "user_message"@.len() == 12,
        "contextual_update"@.len() == 17,
        "tool_call_result"@.len() == 16,
        "pong"@.len() == 4,
        "user_audio_chunk"@[0] == 'u',
        "tool_call_result"@[0] == 't',
{
    reveal_strlit("conversation_initiation_client_data");
    reveal_strlit("user_audio_chunk");
    reveal_strlit("user_message");
    reveal_strlit("contextual_update");
    reveal_strlit("tool_call_result");
    reveal_strlit("pong");
}

/// Decoding what was encoded gives the event back: every client event, read
/// by the schema with which it was written, is the event that was written.
pub proof fn encode_decode_round_trip(event: ClientEventView)
    ensures
        decode_client_spec(encode_spec(event)) == Ok::<ClientEventView, DecodeError>(event),
{
    client_kinds_differ();
}

/// A frame whose discriminator names no event of the side that reads it is
/// refused as unknown, whatever its fields; one without a discriminator is
/// malformed.
pub proof fn unknown_discriminator_is_refused(frame: FrameView)
    ensures
        frame.kind is None ==> decode_spec(frame) == Err::<ServerEventView, DecodeError>(
            DecodeError::Malformed,
        ),
        frame.kind is Some && !is_server_kind(frame.kind->0) ==> decode_spec(frame) == Err::<
            ServerEventView,
            DecodeError,
        >(DecodeError::UnknownVariant),
        frame.kind is Some && !is_client_kind(frame.kind->0) ==> decode_client_spec(frame)
            == Err::<ClientEventView, DecodeError>(DecodeError::UnknownVariant),
{
}

} // verus!
