use jarvis_launcher::{
    ClaimAction, ClaimError, ClaimEvent, ClaimFlow, InputField, JarvisConfig, ReplyField,
};

fn posted(base: &str, code: &str) -> ClaimFlow {
    let (flow, action) = ClaimFlow::begin(base, code);
    match action {
        ClaimAction::Post { url, code: sent } => {
            assert_eq!(sent, code);
            assert!(url.ends_with("/api/agents/claim/complete"));
        }
        other => panic!("expected a request, got {:?}", other),
    }
    flow
}

fn replied(base: &str, success: bool, body: &str) -> (ClaimFlow, ClaimAction) {
    let flow = posted(base, "ABC-123");
    let event = ClaimEvent::Replied { success, body: body.to_string() };
    assert!(flow.accepts(&event));
    flow.advance(event)
}

#[test]
fn blank_claim_code_sends_nothing() {
    for code in ["", "   ", "\t\n"] {
        let (flow, action) = ClaimFlow::begin("https://example.com", code);
        assert!(matches!(flow, ClaimFlow::Finished));
        assert!(matches!(action, ClaimAction::Done(Err(ClaimError::Invalid(InputField::ClaimCode)))));
    }
}

#[test]
fn blank_base_url_sends_nothing() {
    for base in ["", "  ", " / ", "/"] {
        let (flow, action) = ClaimFlow::begin(base, "CODE");
        assert!(matches!(flow, ClaimFlow::Finished));
        assert!(matches!(action, ClaimAction::Done(Err(ClaimError::Invalid(InputField::BaseUrl)))));
    }
}

#[test]
fn url_is_trimmed_and_one_slash_dropped() {
    let (_, action) = ClaimFlow::begin("  https://example.com/ \n", " CODE ");
    match action {
        ClaimAction::Post { url, code } => {
            assert_eq!(url, "https://example.com/api/agents/claim/complete");
            assert_eq!(code, " CODE ");
        }
        other => panic!("unexpected {:?}", other),
    }
    let (_, action) = ClaimFlow::begin("https://example.com//", "CODE");
    match action {
        ClaimAction::Post { url, .. } => assert_eq!(url, "https://example.com//api/agents/claim/complete"),
        other => panic!("unexpected {:?}", other),
    }
}

#[test]
fn rejection_uses_server_message() {
    let (flow, action) = replied("https://x.test", false, r#"{"error":{"message":"code expired"}}"#);
    assert!(matches!(flow, ClaimFlow::Finished));
    match action {
        ClaimAction::Done(Err(ClaimError::Rejected(m))) => assert_eq!(m, "code expired"),
        other => panic!("unexpected {:?}", other),
    }
}

#[test]
fn rejection_without_message_is_generic() {
    for body in ["{}", "not json", r#"{"error":{"message":7}}"#] {
        let (_, action) = replied("https://x.test", false, body);
        match action {
            ClaimAction::Done(Err(e @ ClaimError::Rejected(_))) => assert_eq!(e.message(), "연결에 실패했습니다."),
            other => panic!("unexpected {:?}", other),
        }
    }
}

#[test]
fn success_without_token_is_malformed() {
    let (flow, action) = replied("https://x.test", true, r#"{"data":{"agentId":"a-1"}}"#);
    assert!(matches!(flow, ClaimFlow::Finished));
    assert!(matches!(action, ClaimAction::Done(Err(ClaimError::MalformedResponse(ReplyField::Token)))));
    assert!(!flow.accepts(&ClaimEvent::TokenStored(Ok(()))));
}

#[test]
fn success_without_agent_id_is_malformed() {
    let (flow, action) = replied("https://x.test", true, r#"{"data":{"token":"t"}}"#);
    assert!(matches!(flow, ClaimFlow::Finished));
    assert!(matches!(action, ClaimAction::Done(Err(ClaimError::MalformedResponse(ReplyField::AgentId)))));
    assert!(!flow.accepts(&ClaimEvent::ConfigSaved(Ok(()))));
}

#[test]
fn transport_failure_is_network_error() {
    let flow = posted("https://x.test", "C");
    let (flow, action) = flow.advance(ClaimEvent::TransportFailed("refused".to_string()));
    assert!(matches!(flow, ClaimFlow::Finished));
    match action {
        ClaimAction::Done(Err(ClaimError::Network(m))) => assert_eq!(m, "refused"),
        other => panic!("unexpected {:?}", other),
    }
}

#[test]
fn successful_claim_stores_token_and_config() {
    let body = r#"{"data":{"token":"tok-9","agentId":"agent-7"}}"#;
    let (flow, action) = replied(" https://x.test/ ", true, body);
    match action {
        ClaimAction::StoreToken { token } => assert_eq!(token, "tok-9"),
        other => panic!("unexpected {:?}", other),
    }
    let (flow, action) = flow.advance(ClaimEvent::TokenStored(Ok(())));
    assert!(matches!(action, ClaimAction::LoadConfig));
    let mut old = JarvisConfig::empty();
    old.provider = "openai".to_string();
    old.model = "gpt".to_string();
    let (flow, action) = flow.advance(ClaimEvent::ConfigLoaded(old));
    let saved = match action {
        ClaimAction::SaveConfig { config } => config,
        other => panic!("unexpected {:?}", other),
    };
    assert_eq!(saved.base_url, "https://x.test");
    assert_eq!(saved.agent_id.as_deref(), Some("agent-7"));
    assert_eq!(saved.provider, "openai");
    assert_eq!(saved.model, "gpt");
    let (flow, action) = flow.advance(ClaimEvent::ConfigSaved(Ok(())));
    assert!(matches!(flow, ClaimFlow::Finished));
    match action {
        ClaimAction::Done(Ok(id)) => assert_eq!(id, "agent-7"),
        other => panic!("unexpected {:?}", other),
    }
    let text = saved.to_text().expect("encodes");
    let reloaded = JarvisConfig::from_text(Some(&text));
    assert_eq!(reloaded.base_url, "https://x.test");
    assert_eq!(reloaded.agent_id.as_deref(), Some("agent-7"));
}

#[test]
fn token_store_failure_ends_claim() {
    let body = r#"{"data":{"token":"t","agentId":"a"}}"#;
    let (flow, _) = replied("https://x.test", true, body);
    let (flow, action) = flow.advance(ClaimEvent::TokenStored(Err("locked".to_string())));
    assert!(matches!(flow, ClaimFlow::Finished));
    assert!(matches!(action, ClaimAction::Done(Err(ClaimError::Store(ref m))) if m == "locked"));
}

#[test]
fn config_save_failure_reports_failure() {
    let body = r#"{"data":{"token":"t","agentId":"a"}}"#;
    let (flow, _) = replied("https://x.test", true, body);
    let (flow, _) = flow.advance(ClaimEvent::TokenStored(Ok(())));
    let (flow, _) = flow.advance(ClaimEvent::ConfigLoaded(JarvisConfig::empty()));
    let (_, action) = flow.advance(ClaimEvent::ConfigSaved(Err("disk full".to_string())));
    match action {
        ClaimAction::Done(Err(e)) => assert_eq!(e.message(), "disk full"),
        other => panic!("unexpected {:?}", other),
    }
}

#[test]
fn claim_error_messages() {
    assert_eq!(ClaimError::Invalid(InputField::ClaimCode).message(), "연결 코드가 필요합니다.");
    assert_eq!(ClaimError::Invalid(InputField::BaseUrl).message(), "서버 주소가 필요합니다.");
    assert_eq!(
        ClaimError::MalformedResponse(ReplyField::Token).message(),
        "토큰을 받을 수 없습니다."
    );
}
