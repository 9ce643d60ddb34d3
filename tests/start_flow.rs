use jarvis_launcher::{
    missing_setting_of, ConfigField, JarvisConfig, LaunchPlan, Secret, StartAction, StartError,
    StartEvent, StartFlow,
};

fn configured() -> JarvisConfig {
    JarvisConfig {
        base_url: "https://x.test".to_string(),
        provider: "openai".to_string(),
        model: "gpt".to_string(),
        agent_id: Some("a".to_string()),
    }
}

fn loaded(cfg: JarvisConfig) -> (StartFlow, StartAction) {
    let (flow, action) = StartFlow::begin();
    assert!(matches!(action, StartAction::LoadConfig));
    flow.advance(StartEvent::ConfigLoaded(cfg))
}

fn secrets_ok(flow: StartFlow) -> (StartFlow, StartAction) {
    flow.advance(StartEvent::SecretsRead { token: Ok("tok".to_string()), api_key: Ok("key".to_string()) })
}

fn expect_not_configured(cfg: JarvisConfig, field: ConfigField) -> String {
    let (flow, action) = loaded(cfg);
    assert!(matches!(flow, StartFlow::Finished));
    assert!(!flow.accepts(&StartEvent::Launched(true)));
    match action {
        StartAction::Done(Err(e @ StartError::NotConfigured(_))) => {
            assert!(matches!(e, StartError::NotConfigured(f) if f == field));
            e.message()
        }
        other => panic!("unexpected {:?}", other),
    }
}

#[test]
fn each_missing_setting_has_its_own_message() {
    let mut a = configured();
    a.base_url = String::new();
    let mut b = configured();
    b.provider = String::new();
    let mut c = configured();
    c.model = String::new();
    let ma = expect_not_configured(a, ConfigField::BaseUrl);
    let mb = expect_not_configured(b, ConfigField::Provider);
    let mc = expect_not_configured(c, ConfigField::Model);
    assert_ne!(ma, mb);
    assert_ne!(ma, mc);
    assert_ne!(mb, mc);
    assert_eq!(ma, "먼저 연결을 완료해줘.");
}

#[test]
fn empty_config_names_base_url_first() {
    assert_eq!(missing_setting_of(&JarvisConfig::empty()), Some(ConfigField::BaseUrl));
    assert_eq!(missing_setting_of(&configured()), None);
}

#[test]
fn missing_token_is_missing_credential() {
    let (flow, action) = loaded(configured());
    assert!(matches!(action, StartAction::ReadSecrets));
    let (flow, action) =
        flow.advance(StartEvent::SecretsRead { token: Err("no entry".to_string()), api_key: Ok("k".to_string()) });
    assert!(matches!(flow, StartFlow::Finished));
    match action {
        StartAction::Done(Err(StartError::MissingCredential(Secret::AgentToken, m))) => assert_eq!(m, "no entry"),
        other => panic!("unexpected {:?}", other),
    }
}

#[test]
fn missing_api_key_is_missing_credential() {
    let (flow, _) = loaded(configured());
    let (_, action) =
        flow.advance(StartEvent::SecretsRead { token: Ok("t".to_string()), api_key: Err("gone".to_string()) });
    assert!(matches!(action, StartAction::Done(Err(StartError::MissingCredential(Secret::ApiKey, _)))));
}

fn check_plan(plan: &LaunchPlan, path: &str) {
    assert_eq!(plan.program, "node");
    assert_eq!(plan.args, vec![path.to_string(), "run".to_string()]);
    let env: Vec<(&str, &str)> = plan.env.iter().map(|(k, v)| (k.as_str(), v.as_str())).collect();
    assert_eq!(
        env,
        vec![
            ("COMMUNITY_BASE_URL", "https://x.test"),
            ("AGENT_TOKEN", "tok"),
            ("LLM_PROVIDER", "openai"),
            ("LLM_API_KEY", "key"),
            ("LLM_MODEL", "gpt"),
        ]
    );
}

#[test]
fn present_runner_launches_directly() {
    let (flow, _) = loaded(configured());
    let (flow, action) = secrets_ok(flow);
    assert!(matches!(action, StartAction::LocateRunner));
    let (flow, action) = flow.advance(StartEvent::RunnerLocated { path: "/d/runner.mjs".to_string(), present: true });
    match &action {
        StartAction::Launch(plan) => check_plan(plan, "/d/runner.mjs"),
        other => panic!("unexpected {:?}", other),
    }
    let (flow, action) = flow.advance(StartEvent::Launched(true));
    assert!(matches!(flow, StartFlow::Finished));
    assert!(matches!(action, StartAction::Done(Ok(()))));
}

#[test]
fn absent_runner_is_fetched_first() {
    let (flow, _) = loaded(configured());
    let (flow, _) = secrets_ok(flow);
    let (flow, action) = flow.advance(StartEvent::RunnerLocated { path: "/d/runner.mjs".to_string(), present: false });
    match &action {
        StartAction::FetchRunner { url, path } => {
            assert_eq!(url, "https://moltook.com/agent/runner.mjs");
            assert_eq!(path, "/d/runner.mjs");
        }
        other => panic!("unexpected {:?}", other),
    }
    let (_, action) = flow.advance(StartEvent::RunnerFetched(Ok(())));
    match &action {
        StartAction::Launch(plan) => check_plan(plan, "/d/runner.mjs"),
        other => panic!("unexpected {:?}", other),
    }
}

#[test]
fn fetch_failure_aborts_start() {
    let (flow, _) = loaded(configured());
    let (flow, _) = secrets_ok(flow);
    let (flow, _) = flow.advance(StartEvent::RunnerLocated { path: "p".to_string(), present: false });
    let (flow, action) = flow.advance(StartEvent::RunnerFetched(Err("timeout".to_string())));
    assert!(matches!(flow, StartFlow::Finished));
    assert!(matches!(action, StartAction::Done(Err(StartError::ProvisioningFailed(ref m))) if m == "timeout"));
}

#[test]
fn runner_dir_failure_aborts_start() {
    let (flow, _) = loaded(configured());
    let (flow, _) = secrets_ok(flow);
    let (_, action) = flow.advance(StartEvent::RunnerUnavailable("denied".to_string()));
    assert!(matches!(action, StartAction::Done(Err(StartError::ProvisioningFailed(_)))));
}

#[test]
fn launch_failure_asks_for_node() {
    let (flow, _) = loaded(configured());
    let (flow, _) = secrets_ok(flow);
    let (flow, _) = flow.advance(StartEvent::RunnerLocated { path: "p".to_string(), present: true });
    let (_, action) = flow.advance(StartEvent::Launched(false));
    match action {
        StartAction::Done(Err(e @ StartError::LaunchFailed)) => {
            assert_eq!(e.message(), "Node.js가 필요합니다.")
        }
        other => panic!("unexpected {:?}", other),
    }
}
