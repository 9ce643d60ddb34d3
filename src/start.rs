use vstd::prelude::*;

use crate::config::{ConfigView, JarvisConfig};

verus! {

/// A setting that must be present before a worker can start.
#[derive(Clone, Copy, Debug, PartialEq, Eq, Structural)]
pub enum ConfigField {
    BaseUrl,
    Provider,
    Model,
}

/// A keystore entry.
#[derive(Clone, Copy, Debug, PartialEq, Eq, Structural)]
pub enum Secret {
    /// `agent_token`: the credential for the remote service.
    AgentToken,
    /// `llm_api_key`: the credential for the model provider.
    ApiKey,
}

/// Why a start failed.
#[derive(Debug)]
pub enum StartError {
    /// A live worker is held, or another start is in progress.
    AlreadyRunning,
    /// The setting named is empty.
    NotConfigured(ConfigField),
    /// The keystore entry named could not be read, for the reason given.
    MissingCredential(Secret, String),
    /// The runner artifact could not be located or fetched.
    ProvisioningFailed(String),
    /// The worker program could not be spawned.
    LaunchFailed,
}

pub enum StartErrorView {
    AlreadyRunning,
    NotConfigured(ConfigField),
    MissingCredential(Secret, Seq<char>),
    ProvisioningFailed(Seq<char>),
    LaunchFailed,
}

impl View for StartError {
    type V = StartErrorView;

    open spec fn view(&self) -> StartErrorView {
        match self {
            StartError::AlreadyRunning => StartErrorView::AlreadyRunning,
            StartError::NotConfigured(f) => StartErrorView::NotConfigured(*f),
            StartError::MissingCredential(s, m) => StartErrorView::MissingCredential(*s, m@),
            StartError::ProvisioningFailed(m) => StartErrorView::ProvisioningFailed(m@),
            StartError::LaunchFailed => StartErrorView::LaunchFailed,
        }
    }
}

/// How the worker is launched: a program, its arguments and its environment.
#[derive(Debug)]
pub struct LaunchPlan {
    pub program: String,
    pub args: Vec<String>,
    pub env: Vec<(String, String)>,
}

pub struct LaunchPlanView {
    pub program: Seq<char>,
    pub args: Seq<Seq<char>>,
    pub env: Seq<(Seq<char>, Seq<char>)>,
}

impl View for LaunchPlan {
    type V = LaunchPlanView;

    open spec fn view(&self) -> LaunchPlanView {
        LaunchPlanView {
            program: self.program@,
            args: self.args@.map_values(|a: String| a@),
            env: self.env@.map_values(|e: (String, String)| (e.0@, e.1@)),
        }
    }
}

/// The worker: the runner artifact at `runner_path` run by `node run`, with
/// the five settings and credentials in its environment.
pub open spec fn launch_plan_spec(
    c: ConfigView,
    token: Seq<char>,
    api_key: Seq<char>,
    runner_path: Seq<char>,
) -> LaunchPlanView {
    LaunchPlanView {
        program: "node"@,
        args: seq![runner_path, "run"@],
        env: seq![
            ("COMMUNITY_BASE_URL"@, c.base_url),
            ("AGENT_TOKEN"@, token),
            ("LLM_PROVIDER"@, c.provider),
            ("LLM_API_KEY"@, api_key),
            ("LLM_MODEL"@, c.model),
        ],
    }
}

/// Where the runner artifact is fetched from when it is not present.
pub open spec fn runner_url() -> Seq<char> {
    "https://moltook.com/agent/runner.mjs"@
}

/// The first empty setting, in the order base URL, provider, model.
pub open spec fn missing_setting(c: ConfigView) -> Option<ConfigField> {
    if c.base_url.len() == 0 {
        Some(ConfigField::BaseUrl)
    } else if c.provider.len() == 0 {
        Some(ConfigField::Provider)
    } else if c.model.len() == 0 {
        Some(ConfigField::Model)
    } else {
        None
    }
}

/// Where a start stands once the slot admitted it.
#[derive(Debug)]
pub enum StartFlow {
    LoadingConfig,
    ReadingSecrets { config: JarvisConfig },
    LocatingRunner { config: JarvisConfig, token: String, api_key: String },
    FetchingRunner { plan: LaunchPlan },
    Launching,
    Finished,
}

pub enum StartFlowView {
    LoadingConfig,
    ReadingSecrets { config: ConfigView },
    LocatingRunner { config: ConfigView, token: Seq<char>, api_key: Seq<char> },
    FetchingRunner { plan: LaunchPlanView },
    Launching,
    Finished,
}

impl View for StartFlow {
    type V = StartFlowView;

    open spec fn view(&self) -> StartFlowView {
        match self {
            StartFlow::LoadingConfig => StartFlowView::LoadingConfig,
            StartFlow::ReadingSecrets { config } => StartFlowView::ReadingSecrets { config: config@ },
            StartFlow::LocatingRunner { config, token, api_key } => StartFlowView::LocatingRunner {
                config: config@,
                token: token@,
                api_key: api_key@,
            },
            StartFlow::FetchingRunner { plan } => StartFlowView::FetchingRunner { plan: plan@ },
            StartFlow::Launching => StartFlowView::Launching,
            StartFlow::Finished => StartFlowView::Finished,
        }
    }
}

/// What the host is asked to do next.
#[derive(Debug)]
pub enum StartAction {
    /// Read the configuration file.
    LoadConfig,
    /// Read both keystore entries.
    ReadSecrets,
    /// Find the path of the runner artifact in the application data
    /// directory, and whether a file stands there.
    LocateRunner,
    /// Download `url` and write it to `path`.
    FetchRunner { url: String, path: String },
    /// Spawn the worker, its output discarded.
    Launch(LaunchPlan),
    /// The start is over.
    Done(Result<(), StartError>),
}

pub enum StartActionView {
    LoadConfig,
    ReadSecrets,
    LocateRunner,
    FetchRunner { url: Seq<char>, path: Seq<char> },
    Launch(LaunchPlanView),
    Done(Result<(), StartErrorView>),
}

impl View for StartAction {
    type V = StartActionView;

    open spec fn view(&self) -> StartActionView {
        match self {
            StartAction::LoadConfig => StartActionView::LoadConfig,
            StartAction::ReadSecrets => StartActionView::ReadSecrets,
            StartAction::LocateRunner => StartActionView::LocateRunner,
            StartAction::FetchRunner { url, path } => StartActionView::FetchRunner { url: url@, path: path@ },
            StartAction::Launch(p) => StartActionView::Launch(p@),
            StartAction::Done(Ok(())) => StartActionView::Done(Ok(())),
            StartAction::Done(Err(e)) => StartActionView::Done(Err(e@)),
        }
    }
}

/// What came of the last action.
#[derive(Debug)]
pub enum StartEvent {
    ConfigLoaded(JarvisConfig),
    SecretsRead { token: Result<String, String>, api_key: Result<String, String> },
    RunnerLocated { path: String, present: bool },
    RunnerUnavailable(String),
    RunnerFetched(Result<(), String>),
    Launched(bool),
}

pub enum StartEventView {
    ConfigLoaded(ConfigView),
    SecretsRead { token: Result<Seq<char>, Seq<char>>, api_key: Result<Seq<char>, Seq<char>> },
    RunnerLocated { path: Seq<char>, present: bool },
    RunnerUnavailable(Seq<char>),
    RunnerFetched(Result<(), Seq<char>>),
    Launched(bool),
}

pub open spec fn text_result(r: Result<String, String>) -> Result<Seq<char>, Seq<char>> {
    match r {
        Ok(s) => Ok(s@),
        Err(m) => Err(m@),
    }
}

impl View for StartEvent {
    type V = StartEventView;

    open spec fn view(&self) -> StartEventView {
        match self {
            StartEvent::ConfigLoaded(c) => StartEventView::ConfigLoaded(c@),
            StartEvent::SecretsRead { token, api_key } => StartEventView::SecretsRead {
                token: text_result(*token),
                api_key: text_result(*api_key),
            },
            StartEvent::RunnerLocated { path, present } => StartEventView::RunnerLocated {
                path: path@,
                present: *present,
            },
            StartEvent::RunnerUnavailable(m) => StartEventView::RunnerUnavailable(m@),
            StartEvent::RunnerFetched(Ok(())) => StartEventView::RunnerFetched(Ok(())),
            StartEvent::RunnerFetched(Err(m)) => StartEventView::RunnerFetched(Err(m@)),
            StartEvent::Launched(b) => StartEventView::Launched(*b),
        }
    }
}

/// Whether `event` answers the action that `flow` waits on.
pub open spec fn start_accepts(flow: StartFlowView, event: StartEventView) -> bool {
    match (flow, event) {
        (StartFlowView::LoadingConfig, StartEventView::ConfigLoaded(_)) => true,
        (StartFlowView::ReadingSecrets { .. }, StartEventView::SecretsRead { .. }) => true,
        (StartFlowView::LocatingRunner { .. }, StartEventView::RunnerLocated { .. }) => true,
        (StartFlowView::LocatingRunner { .. }, StartEventView::RunnerUnavailable(_)) => true,
        (StartFlowView::FetchingRunner { .. }, StartEventView::RunnerFetched(_)) => true,
        (StartFlowView::Launching, StartEventView::Launched(_)) => true,
        _ => false,
    }
}

pub open spec fn start_failed(e: StartErrorView) -> (StartFlowView, StartActionView) {
    (StartFlowView::Finished, StartActionView::Done(Err(e)))
}

/// The step of a start on `event`.
pub open spec fn start_next(flow: StartFlowView, event: StartEventView) -> (StartFlowView, StartActionView) {
    match (flow, event) {
        (StartFlowView::LoadingConfig, StartEventView::ConfigLoaded(c)) => match missing_setting(c) {
            Some(f) => start_failed(StartErrorView::NotConfigured(f)),
            None => (StartFlowView::ReadingSecrets { config: c }, StartActionView::ReadSecrets),
        },
        (StartFlowView::ReadingSecrets { config }, StartEventView::SecretsRead { token, api_key }) => match (
            token,
            api_key,
        ) {
            (Err(m), _) => start_failed(StartErrorView::MissingCredential(Secret::AgentToken, m)),
            (Ok(_), Err(m)) => start_failed(StartErrorView::MissingCredential(Secret::ApiKey, m)),
            (Ok(t), Ok(k)) => (
                StartFlowView::LocatingRunner { config, token: t, api_key: k },
                StartActionView::LocateRunner,
            ),
        },
        (StartFlowView::LocatingRunner { .. }, StartEventView::RunnerUnavailable(m)) => start_failed(
            StartErrorView::ProvisioningFailed(m),
        ),
        (
            StartFlowView::LocatingRunner { config, token, api_key },
            StartEventView::RunnerLocated { path, present },
        ) => {
            let plan = launch_plan_spec(config, token, api_key, path);
            if present {
                (StartFlowView::Launching, StartActionView::Launch(plan))
            } else {
                (
                    StartFlowView::FetchingRunner { plan },
                    StartActionView::FetchRunner { url: runner_url(), path },
                )
            }
        },
        (StartFlowView::FetchingRunner { plan }, StartEventView::RunnerFetched(r)) => match r {
            Ok(()) => (StartFlowView::Launching, StartActionView::Launch(plan)),
            Err(m) => start_failed(StartErrorView::ProvisioningFailed(m)),
        },
        (StartFlowView::Launching, StartEventView::Launched(ok)) => if ok {
            (StartFlowView::Finished, StartActionView::Done(Ok(())))
        } else {
            start_failed(StartErrorView::LaunchFailed)
        },
        // not reached: only an accepted event is taken
        _ => (flow, StartActionView::LoadConfig),
    }
}

/// The message that a user sees for `e`.
pub open spec fn start_error_message(e: StartErrorView) -> Seq<char> {
    match e {
        StartErrorView::AlreadyRunning => "이미 실행 중입니다."@,
        StartErrorView::NotConfigured(ConfigField::BaseUrl) => "먼저 연결을 완료해줘."@,
        StartErrorView::NotConfigured(ConfigField::Provider) => "LLM 설정을 완료해줘. (provider)"@,
        StartErrorView::NotConfigured(ConfigField::Model) => "LLM 설정을 완료해줘. (model)"@,
        StartErrorView::MissingCredential(_, m) => m,
        StartErrorView::ProvisioningFailed(m) => m,
        StartErrorView::LaunchFailed => "Node.js가 필요합니다."@,
    }
}

impl StartError {
    /// The message that a user sees.
    pub fn message(&self) -> (r: String)
        ensures
            r@ == start_error_message(self@),
    {
        match self {
            StartError::AlreadyRunning => text_of("이미 실행 중입니다."),
            StartError::NotConfigured(ConfigField::BaseUrl) => text_of(
                "먼저 연결을 완료해줘.",
            ),
            StartError::NotConfigured(ConfigField::Provider) => text_of(
                "LLM 설정을 완료해줘. (provider)",
            ),
            StartError::NotConfigured(ConfigField::Model) => text_of(
                "LLM 설정을 완료해줘. (model)",
            ),
            StartError::MissingCredential(_, m) => m.clone(),
            StartError::ProvisioningFailed(m) => m.clone(),
            StartError::LaunchFailed => text_of("Node.js가 필요합니다."),
        }
    }
}

fn failed(e: StartError) -> (r: (StartFlow, StartAction))
    ensures
        (r.0@, r.1@) == start_failed(e@),
{
    (StartFlow::Finished, StartAction::Done(Err(e)))
}

fn text_of(s: &str) -> (r: String)
    ensures
        r@ == s@,
{
    String::from_str(s)
}

/// The first empty setting, in the order base URL, provider, model.
pub fn missing_setting_of(c: &JarvisConfig) -> (r: Option<ConfigField>)
    ensures
        r == missing_setting(c@),
{
    if c.base_url.as_str().unicode_len() == 0 {
        Some(ConfigField::BaseUrl)
    } else if c.provider.as_str().unicode_len() == 0 {
        Some(ConfigField::Provider)
    } else if c.model.as_str().unicode_len() == 0 {
        Some(ConfigField::Model)
    } else {
        None
    }
}

impl LaunchPlan {
    /// The worker for configuration `c`, the credentials `token` and
    /// `api_key`, and the runner artifact at `runner_path`.
    pub fn new(c: &JarvisConfig, token: &str, api_key: &str, runner_path: &str) -> (r: LaunchPlan)
        ensures
            r@ == launch_plan_spec(c@, token@, api_key@, runner_path@),
    {
        let mut args: Vec<String> = Vec::new();
        args.push(text_of(runner_path));
        args.push(text_of("run"));
        let mut env: Vec<(String, String)> = Vec::new();
        env.push((text_of("COMMUNITY_BASE_URL"), c.base_url.clone()));
        env.push((text_of("AGENT_TOKEN"), text_of(token)));
        env.push((text_of("LLM_PROVIDER"), c.provider.clone()));
        env.push((text_of("LLM_API_KEY"), text_of(api_key)));
        env.push((text_of("LLM_MODEL"), c.model.clone()));
        let r = LaunchPlan { program: text_of("node"), args, env };
        assert(r@.args =~= launch_plan_spec(c@, token@, api_key@, runner_path@).args);
        assert(r@.env =~= launch_plan_spec(c@, token@, api_key@, runner_path@).env);
        r
    }
}

impl StartFlow {
    /// A start that the slot admitted: it begins by reading the configuration.
    pub fn begin() -> (r: (StartFlow, StartAction))
        ensures
            r.0@ == StartFlowView::LoadingConfig,
            r.1@ == StartActionView::LoadConfig,
    {
        (StartFlow::LoadingConfig, StartAction::LoadConfig)
    }

    /// Whether `event` answers the action that this flow waits on.
    pub fn accepts(&self, event: &StartEvent) -> (r: bool)
        ensures
            r == start_accepts(self@, event@),
    {
        match (self, event) {
            (StartFlow::LoadingConfig, StartEvent::ConfigLoaded(_)) => true,
            (StartFlow::ReadingSecrets { .. }, StartEvent::SecretsRead { .. }) => true,
            (StartFlow::LocatingRunner { .. }, StartEvent::RunnerLocated { .. }) => true,
            (StartFlow::LocatingRunner { .. }, StartEvent::RunnerUnavailable(_)) => true,
            (StartFlow::FetchingRunner { .. }, StartEvent::RunnerFetched(_)) => true,
            (StartFlow::Launching, StartEvent::Launched(_)) => true,
            _ => false,
        }
    }

    /// Takes what came of the last action and says what to do next.
    pub fn advance(self, event: StartEvent) -> (r: (StartFlow, StartAction))
        requires
            start_accepts(self@, event@),
        ensures
            (r.0@, r.1@) == start_next(self@, event@),
    {
        match (self, event) {
            (StartFlow::LoadingConfig, StartEvent::ConfigLoaded(c)) => match missing_setting_of(&c) {
                Some(f) => failed(StartError::NotConfigured(f)),
                None => (StartFlow::ReadingSecrets { config: c }, StartAction::ReadSecrets),
            },
            (StartFlow::ReadingSecrets { config }, StartEvent::SecretsRead { token, api_key }) => match (
                token,
                api_key,
            ) {
                (Err(m), _) => failed(StartError::MissingCredential(Secret::AgentToken, m)),
                (Ok(_), Err(m)) => failed(StartError::MissingCredential(Secret::ApiKey, m)),
                (Ok(t), Ok(k)) => (
                    StartFlow::LocatingRunner { config, token: t, api_key: k },
                    StartAction::LocateRunner,
                ),
            },
            (StartFlow::LocatingRunner { .. }, StartEvent::RunnerUnavailable(m)) => failed(
                StartError::ProvisioningFailed(m),
            ),
            (
                StartFlow::LocatingRunner { config, token, api_key },
                StartEvent::RunnerLocated { path, present },
            ) => {
                let plan = LaunchPlan::new(&config, token.as_str(), api_key.as_str(), path.as_str());
                if present {
                    (StartFlow::Launching, StartAction::Launch(plan))
                } else {
                    let url = text_of("https://moltook.com/agent/runner.mjs");
                    (StartFlow::FetchingRunner { plan }, StartAction::FetchRunner { url, path })
                }
            },
            (StartFlow::FetchingRunner { plan }, StartEvent::RunnerFetched(r)) => match r {
                Ok(()) => (StartFlow::Launching, StartAction::Launch(plan)),
                Err(m) => failed(StartError::ProvisioningFailed(m)),
            },
            (StartFlow::Launching, StartEvent::Launched(ok)) => {
                if ok {
                    (StartFlow::Finished, StartAction::Done(Ok(())))
                } else {
                    failed(StartError::LaunchFailed)
                }
            },
            // not reached: `advance` requires an accepted event
            (flow, _) => (flow, StartAction::LoadConfig),
        }
    }
}

/// A configuration with an empty server address, provider or model ends the
/// start with an error that names that setting, and no worker is launched:
/// the finished start takes no further event. Each setting has its own
/// message.
pub proof fn lemma_unconfigured_never_launches(c: ConfigView)
    requires
        c.base_url.len() == 0 || c.provider.len() == 0 || c.model.len() == 0,
    ensures
        ({
            let (flow, action) = start_next(StartFlowView::LoadingConfig, StartEventView::ConfigLoaded(c));
            &&& flow == StartFlowView::Finished
            &&& action == StartActionView::Done(Err(StartErrorView::NotConfigured(missing_setting(c)->Some_0)))
            &&& forall|e: StartEventView| !start_accepts(flow, e)
        }),
        c.base_url.len() == 0 ==> missing_setting(c) == Some(ConfigField::BaseUrl),
        c.base_url.len() > 0 && c.provider.len() == 0 ==> missing_setting(c) == Some(ConfigField::Provider),
        c.base_url.len() > 0 && c.provider.len() > 0 && c.model.len() == 0 ==> missing_setting(c) == Some(
            ConfigField::Model,
        ),
        start_error_message(StartErrorView::NotConfigured(ConfigField::BaseUrl)) != start_error_message(
            StartErrorView::NotConfigured(ConfigField::Provider),
        ),
        start_error_message(StartErrorView::NotConfigured(ConfigField::BaseUrl)) != start_error_message(
            StartErrorView::NotConfigured(ConfigField::Model),
        ),
        start_error_message(StartErrorView::NotConfigured(ConfigField::Provider)) != start_error_message(
            StartErrorView::NotConfigured(ConfigField::Model),
        ),
{
    reveal_strlit("먼저 연결을 완료해줘.");
    reveal_strlit("LLM 설정을 완료해줘. (provider)");
    reveal_strlit("LLM 설정을 완료해줘. (model)");
    let b = start_error_message(StartErrorView::NotConfigured(ConfigField::BaseUrl));
    let p = start_error_message(StartErrorView::NotConfigured(ConfigField::Provider));
    let m = start_error_message(StartErrorView::NotConfigured(ConfigField::Model));
    assert(b[0] != p[0]);
    assert(b[0] != m[0]);
    assert(p[15] != m[15]);
}

} // verus!
