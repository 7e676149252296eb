//! The events that travel over a session, and their mathematical views.

use vstd::prelude::*;

verus! {

/// The view of an optional text.
pub open spec fn text_view(t: Option<String>) -> Option<Seq<char>> {
    match t {
        Some(s) => Some(s@),
        None => None,
    }
}

/// What a caller may override of the agent's behaviour for one session.
#[derive(Clone, Debug, PartialEq, Eq)]
pub struct ConversationConfigOverride {
    pub prompt: Option<String>,
    pub first_message: Option<String>,
    pub language: Option<String>,
    /// The definitions of the tools that the agent may call, as JSON text.
    pub tool_definitions: Option<String>,
}

pub ghost struct ConversationConfigOverrideView {
    pub prompt: Option<Seq<char>>,
    pub first_message: Option<Seq<char>>,
    pub language: Option<Seq<char>>,
    pub tool_definitions: Option<Seq<char>>,
}

impl View for ConversationConfigOverride {
    type V = ConversationConfigOverrideView;

    open spec fn view(&self) -> ConversationConfigOverrideView {
        ConversationConfigOverrideView {
            prompt: text_view(self.prompt),
            first_message: text_view(self.first_message),
            language: text_view(self.language),
            tool_definitions: text_view(self.tool_definitions),
        }
    }
}

/// An event that the caller sends to the service.
#[derive(Clone, Debug, PartialEq, Eq)]
pub enum ClientEvent {
    ConversationInitiation { overrides: ConversationConfigOverride },
    UserAudioChunk { chunk: String },
    UserMessage { text: String },
    ContextualUpdate { text: String },
    ToolCallResult { tool_call_id: String, result: String, is_error: bool },
    Pong { event_id: u64 },
}

pub ghost enum ClientEventView {
    ConversationInitiation { overrides: ConversationConfigOverrideView },
    UserAudioChunk { chunk: Seq<char> },
    UserMessage { text: Seq<char> },
    ContextualUpdate { text: Seq<char> },
    ToolCallResult { tool_call_id: Seq<char>, result: Seq<char>, is_error: bool },
    Pong { event_id: u64 },
}

impl View for ClientEvent {
    type V = ClientEventView;

    open spec fn view(&self) -> ClientEventView {
        match *self {
            ClientEvent::ConversationInitiation { overrides } => {
                ClientEventView::ConversationInitiation { overrides: overrides@ }
            },
            ClientEvent::UserAudioChunk { chunk } => ClientEventView::UserAudioChunk {
                chunk: chunk@,
            },
            ClientEvent::UserMessage { text } => ClientEventView::UserMessage { text: text@ },
            ClientEvent::ContextualUpdate { text } => ClientEventView::ContextualUpdate {
                text: text@,
            },
            ClientEvent::ToolCallResult { tool_call_id, result, is_error } => {
                ClientEventView::ToolCallResult {
                    tool_call_id: tool_call_id@,
                    result: result@,
                    is_error,
                }
            },
            ClientEvent::Pong { event_id } => ClientEventView::Pong { event_id },
        }
    }
}

/// An event that the service sends to the caller. Audio is carried as the
/// opaque text in which it arrived.
#[derive(Clone, Debug, PartialEq, Eq)]
pub enum ServerEvent {
    ConversationInitiationMetadata { conversation_id: String },
    UserTranscript { text: String },
    AgentResponse { text: String },
    Audio { chunk: String, event_id: u64 },
    ClientToolCall { tool_call_id: String, tool_name: String, parameters: String },
    Interruption { event_id: u64 },
    Ping { event_id: u64 },
    VadScore,
    InternalTentativeAgentResponse { text: String },
    InternalError { message: String },
}

pub ghost enum ServerEventView {
    ConversationInitiationMetadata { conversation_id: Seq<char> },
    UserTranscript { text: Seq<char> },
    AgentResponse { text: Seq<char> },
    Audio { chunk: Seq<char>, event_id: u64 },
    ClientToolCall { tool_call_id: Seq<char>, tool_name: Seq<char>, parameters: Seq<char> },
    Interruption { event_id: u64 },
    Ping { event_id: u64 },
    VadScore,
    InternalTentativeAgentResponse { text: Seq<char> },
    InternalError { message: Seq<char> },
}

impl View for ServerEvent {
    type V = ServerEventView;

    open spec fn view(&self) -> ServerEventView {
        match *self {
            ServerEvent::ConversationInitiationMetadata { conversation_id } => {
                ServerEventView::ConversationInitiationMetadata { conversation_id: conversation_id@ }
            },
            ServerEvent::UserTranscript { text } => ServerEventView::UserTranscript { text: text@ },
            ServerEvent::AgentResponse { text } => ServerEventView::AgentResponse { text: text@ },
            ServerEvent::Audio { chunk, event_id } => ServerEventView::Audio {
                chunk: chunk@,
                event_id,
            },
            ServerEvent::ClientToolCall { tool_call_id, tool_name, parameters } => {
                ServerEventView::ClientToolCall {
                    tool_call_id: tool_call_id@,
                    tool_name: tool_name@,
                    parameters: parameters@,
                }
            },
            ServerEvent::Interruption { event_id } => ServerEventView::Interruption { event_id },
            ServerEvent::Ping { event_id } => ServerEventView::Ping { event_id },
            ServerEvent::VadScore => ServerEventView::VadScore,
            ServerEvent::InternalTentativeAgentResponse { text } => {
                ServerEventView::InternalTentativeAgentResponse { text: text@ }
            },
            ServerEvent::InternalError { message } => ServerEventView::InternalError {
                message: message@,
            },
        }
    }
}

} // verus!
