use elevenlabs_rs::conversations::{
    CallSuccessful, ConvoStatus, DeleteConversation, GetConversationAudio, GetConversationDetails,
    GetConversations, GetConversationsQuery, GetSignedUrl, Score, SendConversationFeedback,
    SendConversationFeedbackBody,
};

#[test]
fn query_keeps_parameters_in_order() {
    let query = GetConversationsQuery::default()
        .with_agent_id("agent_1")
        .with_page_size(10)
        .with_call_successful(CallSuccessful::Failure)
        .with_cursor("abc");
    assert_eq!(
        query.params,
        vec![
            ("agent_id", "agent_1".to_string()),
            ("page_size", "10".to_string()),
            ("call_successful", "failure".to_string()),
            ("cursor", "abc".to_string()),
        ]
    );
}

#[test]
fn page_size_is_written_in_decimal() {
    let sizes = [(0u32, "0"), (7, "7"), (100, "100"), (4294967295, "4294967295")];
    for (n, text) in sizes {
        let query = GetConversationsQuery::default().with_page_size(n);
        assert_eq!(query.params, vec![("page_size", text.to_string())]);
    }
}

#[test]
fn get_conversations_carries_its_query() {
    let endpoint = GetConversations::default();
    assert!(endpoint.query_params().is_none());
    let endpoint = GetConversations::with_query(GetConversationsQuery::default().with_cursor("c"));
    assert_eq!(endpoint.query_params(), Some(&vec![("cursor", "c".to_string())]));
    assert_eq!(GetConversations::PATH, "/v1/convai/conversations");
}

#[test]
fn call_successful_words() {
    assert_eq!(CallSuccessful::Failure.as_str(), "failure");
    assert_eq!(CallSuccessful::Success.as_str(), "success");
    assert_eq!(CallSuccessful::Unknown.as_str(), "unknown");
    assert!(CallSuccessful::Failure.is_failure());
    assert!(!CallSuccessful::Failure.is_success());
    assert!(CallSuccessful::Success.is_success());
    assert!(!CallSuccessful::Success.is_unknown());
    assert!(CallSuccessful::Unknown.is_unknown());
    assert!(!CallSuccessful::Unknown.is_failure());
}

#[test]
fn convo_status_predicates() {
    assert!(ConvoStatus::Done.is_done());
    assert!(!ConvoStatus::Done.is_processing());
    assert!(ConvoStatus::Processing.is_processing());
    assert!(!ConvoStatus::Processing.is_done());
}

#[test]
fn endpoints_hold_the_conversation_id() {
    assert_eq!(GetConversationDetails::new("conv_1").conversation_id, "conv_1");
    assert_eq!(DeleteConversation::new("conv_2").conversation_id, "conv_2");
    assert_eq!(GetConversationAudio::new("conv_3").conversation_id, "conv_3");
    assert_eq!(
        GetConversationAudio::PATH,
        "/v1/convai/conversations/:conversation_id/audio"
    );
}

#[test]
fn signed_url_asks_for_the_agent() {
    let endpoint = GetSignedUrl::new("agent_7");
    assert_eq!(endpoint.query.params, vec![("agent_id", "agent_7".to_string())]);
    assert_eq!(endpoint.query_params(), &vec![("agent_id", "agent_7".to_string())]);
}

#[test]
fn feedback_holds_score_and_conversation() {
    let body = SendConversationFeedbackBody::new(Score::Like);
    let endpoint = SendConversationFeedback::new("conv_9", body);
    assert_eq!(endpoint.conversation_id, "conv_9");
    assert_eq!(endpoint.body.feedback, Score::Like);
    assert_eq!(SendConversationFeedbackBody::new(Score::Dislike).feedback, Score::Dislike);
}
