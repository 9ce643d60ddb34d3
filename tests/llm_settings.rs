use jarvis_launcher::{InputField, JarvisConfig, LlmAction, LlmEvent, LlmFlow, SettingsError};

#[test]
fn blank_api_key_writes_nothing() {
    let (flow, action) = LlmFlow::begin("openai", "gpt", "  ");
    assert!(matches!(flow, LlmFlow::Finished));
    match action {
        LlmAction::Done(Err(e @ SettingsError::Invalid(InputField::ApiKey))) => {
            assert_eq!(e.message(), "API 키가 필요합니다.")
        }
        other => panic!("unexpected {:?}", other),
    }
}

#[test]
fn settings_are_trimmed_and_saved() {
    let (flow, action) = LlmFlow::begin(" openai ", " gpt-4 ", " sk-1 ");
    match action {
        LlmAction::StoreApiKey { api_key } => assert_eq!(api_key, "sk-1"),
        other => panic!("unexpected {:?}", other),
    }
    let (flow, action) = flow.advance(LlmEvent::KeyStored(Ok(())));
    assert!(matches!(action, LlmAction::LoadConfig));
    let mut old = JarvisConfig::empty();
    old.base_url = "https://x.test".to_string();
    let (flow, action) = flow.advance(LlmEvent::ConfigLoaded(old));
    match &action {
        LlmAction::SaveConfig { config } => {
            assert_eq!(config.provider, "openai");
            assert_eq!(config.model, "gpt-4");
            assert_eq!(config.base_url, "https://x.test");
        }
        other => panic!("unexpected {:?}", other),
    }
    let (flow, action) = flow.advance(LlmEvent::ConfigSaved(Ok(())));
    assert!(matches!(flow, LlmFlow::Finished));
    assert!(matches!(action, LlmAction::Done(Ok(()))));
}

#[test]
fn key_store_failure_ends_save() {
    let (flow, _) = LlmFlow::begin("p", "m", "k");
    let (flow, action) = flow.advance(LlmEvent::KeyStored(Err("locked".to_string())));
    assert!(matches!(flow, LlmFlow::Finished));
    match action {
        LlmAction::Done(Err(e)) => assert_eq!(e.message(), "locked"),
        other => panic!("unexpected {:?}", other),
    }
}
