//! Provisioning and supervision core of a local background-agent launcher.
//!
//! The library decides; the host performs. Each operation that touches the
//! network, the platform keystore, the file system or a child process is
//! written as a state machine that hands the host one action at a time and
//! takes back what came of it, so that the order of effects is verified.
pub mod claim;
pub mod config;
pub mod json;
pub mod llm;
pub mod start;
pub mod supervisor;
pub mod text;

pub use claim::{
    ClaimAction, ClaimActionView, ClaimError, ClaimErrorView, ClaimEvent, ClaimEventView, ClaimFlow,
    ClaimFlowView, InputField, ReplyField,
};
pub use config::{ConfigView, JarvisConfig};
pub use json::{json_string_at, pretty_json_object};
pub use llm::{
    LlmAction, LlmActionView, LlmEvent, LlmEventView, LlmFlow, LlmFlowView, SettingsError,
    SettingsErrorView,
};
pub use start::{
    missing_setting_of, ConfigField, LaunchPlan, LaunchPlanView, Secret, StartAction, StartActionView,
    StartError, StartErrorView, StartEvent, StartEventView, StartFlow, StartFlowView,
};
pub use supervisor::{SlotRefusal, Supervisor, WorkerState};
pub use text::{normalized_base_url, trim};
