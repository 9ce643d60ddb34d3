use vstd::prelude::*;

use crate::claim::InputField;
use crate::config::{llm_config, ConfigView, JarvisConfig};
use crate::text::{is_blank, trim, trimmed};

verus! {

/// Why saving the model settings failed.
#[derive(Debug)]
pub enum SettingsError {
    /// A required input was blank; nothing was written.
    Invalid(InputField),
    /// The keystore or the configuration file could not be written.
    Store(String),
}

pub enum SettingsErrorView {
    Invalid(InputField),
    Store(Seq<char>),
}

impl View for SettingsError {
    type V = SettingsErrorView;

    open spec fn view(&self) -> SettingsErrorView {
        match self {
            SettingsError::Invalid(f) => SettingsErrorView::Invalid(*f),
            SettingsError::Store(m) => SettingsErrorView::Store(m@),
        }
    }
}

/// The message that a user sees for `e`.
pub open spec fn settings_error_message(e: SettingsErrorView) -> Seq<char> {
    match e {
        SettingsErrorView::Invalid(InputField::ApiKey) => "API 키가 필요합니다."@,
        SettingsErrorView::Invalid(InputField::ClaimCode) => "연결 코드가 필요합니다."@,
        SettingsErrorView::Invalid(InputField::BaseUrl) => "서버 주소가 필요합니다."@,
        SettingsErrorView::Store(m) => m,
    }
}

impl SettingsError {
    /// The message that a user sees.
    pub fn message(&self) -> (r: String)
        ensures
            r@ == settings_error_message(self@),
    {
        match self {
            SettingsError::Invalid(InputField::ApiKey) => String::from_str("API 키가 필요합니다."),
            SettingsError::Invalid(InputField::ClaimCode) => String::from_str("연결 코드가 필요합니다."),
            SettingsError::Invalid(InputField::BaseUrl) => String::from_str("서버 주소가 필요합니다."),
            SettingsError::Store(m) => m.clone(),
        }
    }
}

/// Where saving the model settings stands; the provider and model are kept
/// trimmed.
#[derive(Debug)]
pub enum LlmFlow {
    StoringKey { provider: String, model: String },
    LoadingConfig { provider: String, model: String },
    SavingConfig,
    Finished,
}

pub enum LlmFlowView {
    StoringKey { provider: Seq<char>, model: Seq<char> },
    LoadingConfig { provider: Seq<char>, model: Seq<char> },
    SavingConfig,
    Finished,
}

impl View for LlmFlow {
    type V = LlmFlowView;

    open spec fn view(&self) -> LlmFlowView {
        match self {
            LlmFlow::StoringKey { provider, model } => LlmFlowView::StoringKey { provider: provider@, model: model@ },
            LlmFlow::LoadingConfig { provider, model } => LlmFlowView::LoadingConfig {
                provider: provider@,
                model: model@,
            },
            LlmFlow::SavingConfig => LlmFlowView::SavingConfig,
            LlmFlow::Finished => LlmFlowView::Finished,
        }
    }
}

/// What the host is asked to do next.
#[derive(Debug)]
pub enum LlmAction {
    /// Write `api_key` to the keystore entry `llm_api_key`.
    StoreApiKey { api_key: String },
    /// Read the configuration file.
    LoadConfig,
    /// Write `config` to the configuration file.
    SaveConfig { config: JarvisConfig },
    /// The save is over.
    Done(Result<(), SettingsError>),
}

pub enum LlmActionView {
    StoreApiKey { api_key: Seq<char> },
    LoadConfig,
    SaveConfig { config: ConfigView },
    Done(Result<(), SettingsErrorView>),
}

impl View for LlmAction {
    type V = LlmActionView;

    open spec fn view(&self) -> LlmActionView {
        match self {
            LlmAction::StoreApiKey { api_key } => LlmActionView::StoreApiKey { api_key: api_key@ },
            LlmAction::LoadConfig => LlmActionView::LoadConfig,
            LlmAction::SaveConfig { config } => LlmActionView::SaveConfig { config: config@ },
            LlmAction::Done(Ok(())) => LlmActionView::Done(Ok(())),
            LlmAction::Done(Err(e)) => LlmActionView::Done(Err(e@)),
        }
    }
}

/// What came of the last action.
#[derive(Debug)]
pub enum LlmEvent {
    KeyStored(Result<(), String>),
    ConfigLoaded(JarvisConfig),
    ConfigSaved(Result<(), String>),
}

pub enum LlmEventView {
    KeyStored(Result<(), Seq<char>>),
    ConfigLoaded(ConfigView),
    ConfigSaved(Result<(), Seq<char>>),
}

impl View for LlmEvent {
    type V = LlmEventView;

    open spec fn view(&self) -> LlmEventView {
        match self {
            LlmEvent::KeyStored(Ok(())) => LlmEventView::KeyStored(Ok(())),
            LlmEvent::KeyStored(Err(m)) => LlmEventView::KeyStored(Err(m@)),
            LlmEvent::ConfigLoaded(c) => LlmEventView::ConfigLoaded(c@),
            LlmEvent::ConfigSaved(Ok(())) => LlmEventView::ConfigSaved(Ok(())),
            LlmEvent::ConfigSaved(Err(m)) => LlmEventView::ConfigSaved(Err(m@)),
        }
    }
}

/// How saving the model settings begins: a blank key ends it at once.
pub open spec fn llm_begin(provider: Seq<char>, model: Seq<char>, api_key: Seq<char>) -> (LlmFlowView, LlmActionView) {
    if is_blank(api_key) {
        (LlmFlowView::Finished, LlmActionView::Done(Err(SettingsErrorView::Invalid(InputField::ApiKey))))
    } else {
        (
            LlmFlowView::StoringKey { provider: trimmed(provider), model: trimmed(model) },
            LlmActionView::StoreApiKey { api_key: trimmed(api_key) },
        )
    }
}

/// Whether `event` answers the action that `flow` waits on.
pub open spec fn llm_accepts(flow: LlmFlowView, event: LlmEventView) -> bool {
    match (flow, event) {
        (LlmFlowView::StoringKey { .. }, LlmEventView::KeyStored(_)) => true,
        (LlmFlowView::LoadingConfig { .. }, LlmEventView::ConfigLoaded(_)) => true,
        (LlmFlowView::SavingConfig, LlmEventView::ConfigSaved(_)) => true,
        _ => false,
    }
}

/// The step of saving the model settings on `event`.
pub open spec fn llm_next(flow: LlmFlowView, event: LlmEventView) -> (LlmFlowView, LlmActionView) {
    match (flow, event) {
        (LlmFlowView::StoringKey { provider, model }, LlmEventView::KeyStored(r)) => match r {
            Ok(()) => (LlmFlowView::LoadingConfig { provider, model }, LlmActionView::LoadConfig),
            Err(m) => (LlmFlowView::Finished, LlmActionView::Done(Err(SettingsErrorView::Store(m)))),
        },
        (LlmFlowView::LoadingConfig { provider, model }, LlmEventView::ConfigLoaded(c)) => (
            LlmFlowView::SavingConfig,
            LlmActionView::SaveConfig { config: llm_config(c, provider, model) },
        ),
        (LlmFlowView::SavingConfig, LlmEventView::ConfigSaved(r)) => match r {
            Ok(()) => (LlmFlowView::Finished, LlmActionView::Done(Ok(()))),
            Err(m) => (LlmFlowView::Finished, LlmActionView::Done(Err(SettingsErrorView::Store(m)))),
        },
        // not reached: only an accepted event is taken
        _ => (flow, LlmActionView::LoadConfig),
    }
}

impl LlmFlow {
    /// Starts saving the model settings; all three are trimmed.
    pub fn begin(provider: &str, model: &str, api_key: &str) -> (r: (LlmFlow, LlmAction))
        ensures
            (r.0@, r.1@) == llm_begin(provider@, model@, api_key@),
    {
        let key = trim(api_key);
        if key.as_str().unicode_len() == 0 {
            return (LlmFlow::Finished, LlmAction::Done(Err(SettingsError::Invalid(InputField::ApiKey))));
        }
        (
            LlmFlow::StoringKey { provider: trim(provider), model: trim(model) },
            LlmAction::StoreApiKey { api_key: key },
        )
    }

    /// Whether `event` answers the action that this flow waits on.
    pub fn accepts(&self, event: &LlmEvent) -> (r: bool)
        ensures
            r == llm_accepts(self@, event@),
    {
        match (self, event) {
            (LlmFlow::StoringKey { .. }, LlmEvent::KeyStored(_)) => true,
            (LlmFlow::LoadingConfig { .. }, LlmEvent::ConfigLoaded(_)) => true,
            (LlmFlow::SavingConfig, LlmEvent::ConfigSaved(_)) => true,
            _ => false,
        }
    }

    /// Takes what came of the last action and says what to do next.
    pub fn advance(self, event: LlmEvent) -> (r: (LlmFlow, LlmAction))
        requires
            llm_accepts(self@, event@),
        ensures
            (r.0@, r.1@) == llm_next(self@, event@),
    {
        match (self, event) {
            (LlmFlow::StoringKey { provider, model }, LlmEvent::KeyStored(r)) => match r {
                Ok(()) => (LlmFlow::LoadingConfig { provider, model }, LlmAction::LoadConfig),
                Err(m) => (LlmFlow::Finished, LlmAction::Done(Err(SettingsError::Store(m)))),
            },
            (LlmFlow::LoadingConfig { provider, model }, LlmEvent::ConfigLoaded(c)) => {
                let mut config = c;
                config.set_llm(provider, model);
                (LlmFlow::SavingConfig, LlmAction::SaveConfig { config })
            },
            (LlmFlow::SavingConfig, LlmEvent::ConfigSaved(r)) => match r {
                Ok(()) => (LlmFlow::Finished, LlmAction::Done(Ok(()))),
                Err(m) => (LlmFlow::Finished, LlmAction::Done(Err(SettingsError::Store(m)))),
            },
            // not reached: `advance` requires an accepted event
            (flow, _) => (flow, LlmAction::LoadConfig),
        }
    }
}

} // verus!
