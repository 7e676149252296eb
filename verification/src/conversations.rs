//! Request builders and response shapes of the conversation endpoints.

use crate::wire::{decimal_digits, decimal_text};
use std::collections::HashMap;
use vstd::prelude::*;

verus! {

/// Trusted: the type `serde_json::Value`, an arbitrary JSON value. It is
/// declared so that response bodies can carry one through; nothing is
/// claimed of what it holds.
#[verifier::external_type_specification]
#[verifier::external_body]
pub struct ExJsonValue(serde_json::Value);

/// The query parameters of a request, as `(name, value)` pairs in the order
/// in which they were added.
pub open spec fn entries(params: Seq<(&'static str, String)>) -> Seq<(Seq<char>, Seq<char>)> {
    Seq::new(params.len(), |i: int| (params[i].0@, params[i].1@))
}

/// Lists the conversations of the agents that the user owns, optionally
/// narrowed by a query.
#[derive(Clone, Debug)]
pub struct GetConversations {
    pub query: Option<GetConversationsQuery>,
}

impl GetConversations {
    pub const PATH: &'static str = "/v1/convai/conversations";

    pub fn with_query(query: GetConversationsQuery) -> (r: Self)
        ensures
            r.query == Some(query),
    {
        Self { query: Some(query) }
    }

    /// The query parameters to put on the request, if a query was given.
    pub fn query_params(&self) -> (r: Option<&Vec<(&'static str, String)>>)
        ensures
            match r {
                Some(p) => self.query.is_some() && *p == self.query.unwrap().params,
                None => self.query.is_none(),
            },
    {
        match &self.query {
            Some(q) => Some(&q.params),
            None => None,
        }
    }
}

impl Default for GetConversations {
    fn default() -> (r: Self)
        ensures
            r.query.is_none(),
    {
        Self { query: None }
    }
}

#[derive(Clone, Debug)]
pub struct GetConversationsQuery {
    pub params: Vec<(&'static str, String)>,
}

impl Default for GetConversationsQuery {
    fn default() -> (r: Self)
        ensures
            r.params@.len() == 0,
    {
        Self { params: Vec::new() }
    }
}

impl GetConversationsQuery {
    /// The parameters as pairs of texts, in the order in which they were added.
    pub open spec fn entries(&self) -> Seq<(Seq<char>, Seq<char>)> {
        entries(self.params@)
    }

    fn with(self, name: &'static str, value: String) -> (r: Self)
        ensures
            r.entries() == self.entries().push((name@, value@)),
    {
        let mut params = self.params;
        params.push((name, value));
        assert(entries(params@) =~= self.entries().push((name@, value@)));
        Self { params }
    }

    pub fn with_agent_id(self, agent_id: &str) -> (r: Self)
        ensures
            r.entries() == self.entries().push(("agent_id"@, agent_id@)),
    {
        self.with("agent_id", agent_id.to_owned())
    }

    pub fn with_call_successful(self, call_successful: CallSuccessful) -> (r: Self)
        ensures
            r.entries() == self.entries().push(("call_successful"@, call_successful.name()@)),
    {
        self.with("call_successful", call_successful.as_str().to_owned())
    }

    pub fn with_cursor(self, cursor: &str) -> (r: Self)
        ensures
            r.entries() == self.entries().push(("cursor"@, cursor@)),
    {
        self.with("cursor", cursor.to_owned())
    }

    pub fn with_page_size(self, page_size: u32) -> (r: Self)
        ensures
            r.entries() == self.entries().push(("page_size"@, decimal_digits(page_size as nat))),
    {
        self.with("page_size", decimal_text(page_size as u64))
    }
}

#[derive(Clone, Debug)]
pub struct GetConversationsResponse {
    pub conversations: Vec<Conversation>,
    pub next_cursor: Option<String>,
    pub has_more: bool,
}

#[derive(Clone, Debug)]
pub struct Conversation {
    pub agent_id: String,
    pub agent_name: Option<String>,
    pub conversation_id: String,
    pub start_time_unix_secs: u64,
    pub call_duration_secs: u32,
    pub message_count: u32,
    pub status: ConvoStatus,
    pub call_successful: CallSuccessful,
}

#[derive(Clone, Copy, Debug, PartialEq, Eq, Structural)]
pub enum ConvoStatus {
    Done,
    Processing,
}

impl ConvoStatus {
    pub fn is_done(&self) -> (r: bool)
        ensures
            r == (*self == ConvoStatus::Done),
    {
        matches!(*self, ConvoStatus::Done)
    }

    pub fn is_processing(&self) -> (r: bool)
        ensures
            r == (*self == ConvoStatus::Processing),
    {
        matches!(*self, ConvoStatus::Processing)
    }
}

#[derive(Clone, Copy, Debug, PartialEq, Eq, Structural)]
pub enum CallSuccessful {
    Failure,
    Success,
    Unknown,
}

impl CallSuccessful {
    /// The lower-case word that stands for the outcome in a query.
    pub open spec fn name(&self) -> &'static str {
        match *self {
            CallSuccessful::Failure => "failure",
            CallSuccessful::Success => "success",
            CallSuccessful::Unknown => "unknown",
        }
    }

    pub fn as_str(&self) -> (r: &'static str)
        ensures
            r@ == self.name()@,
    {
        match *self {
            CallSuccessful::Failure => "failure",
            CallSuccessful::Success => "success",
            CallSuccessful::Unknown => "unknown",
        }
    }

    pub fn is_failure(&self) -> (r: bool)
        ensures
            r == (*self == CallSuccessful::Failure),
    {
        matches!(*self, CallSuccessful::Failure)
    }

    pub fn is_success(&self) -> (r: bool)
        ensures
            r == (*self == CallSuccessful::Success),
    {
        matches!(*self, CallSuccessful::Success)
    }

    pub fn is_unknown(&self) -> (r: bool)
        ensures
            r == (*self == CallSuccessful::Unknown),
    {
        matches!(*self, CallSuccessful::Unknown)
    }
}

/// Asks for the details of one conversation.
#[derive(Clone, Debug)]
pub struct GetConversationDetails {
    pub conversation_id: String,
}

impl GetConversationDetails {
    pub const PATH: &'static str = "/v1/convai/conversations/:conversation_id";

    pub fn new(conversation_id: &str) -> (r: Self)
        ensures
            r.conversation_id@ == conversation_id@,
    {
        Self { conversation_id: conversation_id.to_owned() }
    }
}

#[derive(Clone, Debug)]
pub struct GetConversationDetailsResponse {
    pub agent_id: String,
    pub conversation_id: String,
    pub status: ConvoStatus,
    pub transcript: Vec<Transcript>,
    pub metadata: Metadata,
    pub analysis: Option<Analysis>,
    pub conversation_initiation_client_data: Option<ConvoInitData>,
}

#[derive(Clone, Debug)]
pub struct Analysis {
    pub call_successful: CallSuccessful,
    pub data_collection_results: Option<HashMap<String, DataCollectionResult>>,
    pub evaluation_criteria_results: Option<HashMap<String, EvaluationResult>>,
    pub transcript_summary: String,
}

#[derive(Clone, Debug)]
pub struct DataCollectionResult {
    pub data_collection_id: String,
    pub json_schema: Option<serde_json::Value>,
    pub value: Option<serde_json::Value>,
    pub rationale: String,
}

#[derive(Clone, Debug)]
pub struct EvaluationResult {
    pub criteria_id: String,
    pub result: CallSuccessful,
    pub rationale: String,
}

#[derive(Clone, Debug)]
pub struct Metadata {
    pub start_time_unix_secs: u64,
    pub call_duration_secs: u32,
    pub cost: Option<u32>,
    pub feedback: Option<ConvoMetadataFeedback>,
    pub authorization_method: Option<AuthorizationMethod>,
    pub charging: Option<Charging>,
}

#[derive(Clone, Debug)]
pub struct ConvoMetadataFeedback {
    pub overall_score: Option<Score>,
    pub likes: Option<u32>,
    pub dislikes: Option<u32>,
}

#[derive(Clone, Copy, Debug, PartialEq, Eq, Structural)]
pub enum AuthorizationMethod {
    Public,
    AuthorizationHeader,
    SignedUrl,
    ShareableLink,
}

#[derive(Clone, Debug)]
pub struct Charging {
    pub dev_discount: Option<bool>,
}

#[derive(Clone, Debug)]
pub struct Transcript {
    pub role: Role,
    pub message: Option<String>,
    pub time_in_call_secs: u32,
    pub tool_calls: Option<Vec<ToolCall>>,
    pub tool_results: Option<Vec<ToolResult>>,
    pub feedback: Option<TranscriptFeedback>,
    pub conversation_turn_metrics: Option<HashMap<String, serde_json::Value>>,
}

#[derive(Clone, Copy, Debug, PartialEq, Eq, Structural, Hash)]
pub enum Role {
    Agent,
    User,
}

#[derive(Clone, Debug)]
pub struct ToolCall {
    pub request_id: String,
    pub tool_name: String,
    pub params_as_json: String,
    pub tool_has_been_called: bool,
}

#[derive(Clone, Debug)]
pub struct ToolResult {
    pub request_id: String,
    pub tool_name: String,
    pub result_value: String,
    pub is_error: bool,
    pub tool_has_been_called: bool,
}

#[derive(Clone, Debug)]
pub struct TranscriptFeedback {
    pub score: Score,
    pub time_in_call_secs: u32,
}

#[derive(Clone, Copy, Debug, PartialEq, Eq, Structural)]
pub enum Score {
    Like,
    Dislike,
}

#[derive(Clone, Debug)]
pub struct ConvoInitData {
    pub conversation_config_override: Option<crate::events::ConversationConfigOverride>,
    pub custom_llm_extra_body: Option<HashMap<String, serde_json::Value>>,
}

/// Asks for one conversation to be deleted.
#[derive(Clone, Debug)]
pub struct DeleteConversation {
    pub conversation_id: String,
}

impl DeleteConversation {
    pub const PATH: &'static str = "/v1/convai/conversations/:conversation_id";

    pub fn new(conversation_id: &str) -> (r: Self)
        ensures
            r.conversation_id@ == conversation_id@,
    {
        Self { conversation_id: conversation_id.to_owned() }
    }
}

/// Asks for the audio recording of one conversation.
#[derive(Clone, Debug)]
pub struct GetConversationAudio {
    pub conversation_id: String,
}

impl GetConversationAudio {
    pub const PATH: &'static str = "/v1/convai/conversations/:conversation_id/audio";

    pub fn new(conversation_id: &str) -> (r: Self)
        ensures
            r.conversation_id@ == conversation_id@,
    {
        Self { conversation_id: conversation_id.to_owned() }
    }
}

/// Asks for a signed address at which a conversation with an agent that
/// requires authorization can be opened.
#[derive(Clone, Debug)]
pub struct GetSignedUrl {
    pub query: GetSignedUrlQuery,
}

impl GetSignedUrl {
    pub const PATH: &'static str = "/v1/convai/conversation/get_signed_url";

    pub fn new(agent_id: &str) -> (r: Self)
        ensures
            entries(r.query.params@) == seq![("agent_id"@, agent_id@)],
    {
        let mut params: Vec<(&'static str, String)> = Vec::new();
        params.push(("agent_id", agent_id.to_owned()));
        assert(entries(params@) =~= seq![("agent_id"@, agent_id@)]);
        GetSignedUrl { query: GetSignedUrlQuery { params } }
    }

    /// The query parameters to put on the request.
    pub fn query_params(&self) -> (r: &Vec<(&'static str, String)>)
        ensures
            *r == self.query.params,
    {
        &self.query.params
    }
}

#[derive(Clone, Debug)]
pub struct GetSignedUrlQuery {
    pub params: Vec<(&'static str, String)>,
}

#[derive(Clone, Debug)]
pub struct SignedUrlResponse {
    pub signed_url: String,
}

/// Sends the caller's feedback on one conversation.
#[derive(Clone, Debug)]
pub struct SendConversationFeedback {
    pub conversation_id: String,
    pub body: SendConversationFeedbackBody,
}

impl SendConversationFeedback {
    pub const PATH: &'static str = "/v1/convai/conversations/:conversation_id/feedback";

    pub fn new(conversation_id: &str, body: SendConversationFeedbackBody) -> (r: Self)
        ensures
            r.conversation_id@ == conversation_id@,
            r.body == body,
    {
        Self { conversation_id: conversation_id.to_owned(), body }
    }
}

#[derive(Clone, Debug)]
pub struct SendConversationFeedbackBody {
    pub feedback: Score,
}

impl SendConversationFeedbackBody {
    pub fn new(feedback: Score) -> (r: Self)
        ensures
            r.feedback == feedback,
    {
        Self { feedback }
    }
}

} // verus!
