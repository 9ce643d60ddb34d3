use vstd::prelude::*;

use crate::config::{claimed_config, ConfigView, JarvisConfig};
use crate::json::{json_string_at, string_at};
use crate::text::{blank, is_blank, normalized_base_url, normalized_base_url_spec};

verus! {

/// A user input that must not be blank.
#[derive(Clone, Copy, Debug, PartialEq, Eq, Structural)]
pub enum InputField {
    ClaimCode,
    BaseUrl,
    ApiKey,
}

/// A member that a successful claim reply must hold.
#[derive(Clone, Copy, Debug, PartialEq, Eq, Structural)]
pub enum ReplyField {
    Token,
    AgentId,
}

/// Why a claim failed.
#[derive(Clone, Debug)]
pub enum ClaimError {
    /// A required input was blank; nothing was sent.
    Invalid(InputField),
    /// The request did not reach the server, or its reply could not be read.
    Network(String),
    /// The server answered with a failure status and this message.
    Rejected(String),
    /// The server reported success without the member named.
    MalformedResponse(ReplyField),
    /// The keystore or the configuration file could not be written.
    Store(String),
}

pub enum ClaimErrorView {
    Invalid(InputField),
    Network(Seq<char>),
    Rejected(Seq<char>),
    MalformedResponse(ReplyField),
    Store(Seq<char>),
}

impl View for ClaimError {
    type V = ClaimErrorView;

    open spec fn view(&self) -> ClaimErrorView {
        match self {
            ClaimError::Invalid(f) => ClaimErrorView::Invalid(*f),
            ClaimError::Network(m) => ClaimErrorView::Network(m@),
            ClaimError::Rejected(m) => ClaimErrorView::Rejected(m@),
            ClaimError::MalformedResponse(f) => ClaimErrorView::MalformedResponse(*f),
            ClaimError::Store(m) => ClaimErrorView::Store(m@),
        }
    }
}

/// Where a claim stands.
#[derive(Debug)]
pub enum ClaimFlow {
    /// The claim request was sent to the normalized server address.
    AwaitingReply { base_url: String },
    /// The token is being written to the keystore.
    StoringToken { base_url: String, agent_id: String },
    /// The current configuration is being read.
    LoadingConfig { base_url: String, agent_id: String },
    /// The updated configuration is being written.
    SavingConfig { agent_id: String },
    /// The outcome was handed out.
    Finished,
}

pub enum ClaimFlowView {
    AwaitingReply { base_url: Seq<char> },
    StoringToken { base_url: Seq<char>, agent_id: Seq<char> },
    LoadingConfig { base_url: Seq<char>, agent_id: Seq<char> },
    SavingConfig { agent_id: Seq<char> },
    Finished,
}

impl View for ClaimFlow {
    type V = ClaimFlowView;

    open spec fn view(&self) -> ClaimFlowView {
        match self {
            ClaimFlow::AwaitingReply { base_url } => ClaimFlowView::AwaitingReply { base_url: base_url@ },
            ClaimFlow::StoringToken { base_url, agent_id } => ClaimFlowView::StoringToken {
                base_url: base_url@,
                agent_id: agent_id@,
            },
            ClaimFlow::LoadingConfig { base_url, agent_id } => ClaimFlowView::LoadingConfig {
                base_url: base_url@,
                agent_id: agent_id@,
            },
            ClaimFlow::SavingConfig { agent_id } => ClaimFlowView::SavingConfig { agent_id: agent_id@ },
            ClaimFlow::Finished => ClaimFlowView::Finished,
        }
    }
}

/// What the host is asked to do next.
#[derive(Debug)]
pub enum ClaimAction {
    /// POST `{"code": code}` as JSON to `url`.
    Post { url: String, code: String },
    /// Write `token` to the keystore entry `agent_token`.
    StoreToken { token: String },
    /// Read the configuration file.
    LoadConfig,
    /// Write `config` to the configuration file.
    SaveConfig { config: JarvisConfig },
    /// The claim is over: the agent's identifier, or why it failed.
    Done(Result<String, ClaimError>),
}

pub enum ClaimActionView {
    Post { url: Seq<char>, code: Seq<char> },
    StoreToken { token: Seq<char> },
    LoadConfig,
    SaveConfig { config: ConfigView },
    Done(Result<Seq<char>, ClaimErrorView>),
}

impl View for ClaimAction {
    type V = ClaimActionView;

    open spec fn view(&self) -> ClaimActionView {
        match self {
            ClaimAction::Post { url, code } => ClaimActionView::Post { url: url@, code: code@ },
            ClaimAction::StoreToken { token } => ClaimActionView::StoreToken { token: token@ },
            ClaimAction::LoadConfig => ClaimActionView::LoadConfig,
            ClaimAction::SaveConfig { config } => ClaimActionView::SaveConfig { config: config@ },
            ClaimAction::Done(Ok(a)) => ClaimActionView::Done(Ok(a@)),
            ClaimAction::Done(Err(e)) => ClaimActionView::Done(Err(e@)),
        }
    }
}

/// What came of the last action.
#[derive(Debug)]
pub enum ClaimEvent {
    /// The server answered; `success` tells whether its status was a success.
    Replied { success: bool, body: String },
    /// The request failed before a reply was read.
    TransportFailed(String),
    /// The keystore write finished.
    TokenStored(Result<(), String>),
    /// The configuration as it was read.
    ConfigLoaded(JarvisConfig),
    /// The configuration write finished.
    ConfigSaved(Result<(), String>),
}

pub enum ClaimEventView {
    Replied { success: bool, body: Seq<char> },
    TransportFailed(Seq<char>),
    TokenStored(Result<(), Seq<char>>),
    ConfigLoaded(ConfigView),
    ConfigSaved(Result<(), Seq<char>>),
}

pub open spec fn unit_result(r: Result<(), String>) -> Result<(), Seq<char>> {
    match r {
        Ok(()) => Ok(()),
        Err(m) => Err(m@),
    }
}

impl View for ClaimEvent {
    type V = ClaimEventView;

    open spec fn view(&self) -> ClaimEventView {
        match self {
            ClaimEvent::Replied { success, body } => ClaimEventView::Replied { success: *success, body: body@ },
            ClaimEvent::TransportFailed(m) => ClaimEventView::TransportFailed(m@),
            ClaimEvent::TokenStored(r) => ClaimEventView::TokenStored(unit_result(*r)),
            ClaimEvent::ConfigLoaded(c) => ClaimEventView::ConfigLoaded(c@),
            ClaimEvent::ConfigSaved(r) => ClaimEventView::ConfigSaved(unit_result(*r)),
        }
    }
}

/// The path of the claim endpoint under the server address.
pub open spec fn claim_path() -> Seq<char> {
    "/api/agents/claim/complete"@
}

pub open spec fn token_pointer() -> Seq<char> {
    "/data/token"@
}

pub open spec fn agent_id_pointer() -> Seq<char> {
    "/data/agentId"@
}

pub open spec fn error_message_pointer() -> Seq<char> {
    "/error/message"@
}

/// The message of a rejection whose reply names none.
pub open spec fn default_rejection() -> Seq<char> {
    "연결에 실패했습니다."@
}

/// The message reported for a rejected claim whose reply is `body`.
pub open spec fn rejection_message(body: Seq<char>) -> Seq<char> {
    match json_string_at(body, error_message_pointer()) {
        Some(m) => m,
        None => default_rejection(),
    }
}

/// How a claim begins: validation first, then the one request.
pub open spec fn claim_begin(base_url: Seq<char>, code: Seq<char>) -> (ClaimFlowView, ClaimActionView) {
    let base = normalized_base_url_spec(base_url);
    if is_blank(code) {
        (ClaimFlowView::Finished, ClaimActionView::Done(Err(ClaimErrorView::Invalid(InputField::ClaimCode))))
    } else if base.len() == 0 {
        (ClaimFlowView::Finished, ClaimActionView::Done(Err(ClaimErrorView::Invalid(InputField::BaseUrl))))
    } else {
        (ClaimFlowView::AwaitingReply { base_url: base }, ClaimActionView::Post { url: base + claim_path(), code })
    }
}

/// Whether `event` answers the action that `flow` waits on.
pub open spec fn claim_accepts(flow: ClaimFlowView, event: ClaimEventView) -> bool {
    match (flow, event) {
        (ClaimFlowView::AwaitingReply { .. }, ClaimEventView::Replied { .. }) => true,
        (ClaimFlowView::AwaitingReply { .. }, ClaimEventView::TransportFailed(_)) => true,
        (ClaimFlowView::StoringToken { .. }, ClaimEventView::TokenStored(_)) => true,
        (ClaimFlowView::LoadingConfig { .. }, ClaimEventView::ConfigLoaded(_)) => true,
        (ClaimFlowView::SavingConfig { .. }, ClaimEventView::ConfigSaved(_)) => true,
        _ => false,
    }
}

pub open spec fn claim_failed(e: ClaimErrorView) -> (ClaimFlowView, ClaimActionView) {
    (ClaimFlowView::Finished, ClaimActionView::Done(Err(e)))
}

/// The step of a claim on `event`.
pub open spec fn claim_next(flow: ClaimFlowView, event: ClaimEventView) -> (ClaimFlowView, ClaimActionView) {
    match (flow, event) {
        (ClaimFlowView::AwaitingReply { .. }, ClaimEventView::TransportFailed(m)) => claim_failed(
            ClaimErrorView::Network(m),
        ),
        (ClaimFlowView::AwaitingReply { base_url }, ClaimEventView::Replied { success, body }) => {
            if !success {
                claim_failed(ClaimErrorView::Rejected(rejection_message(body)))
            } else {
                match (json_string_at(body, token_pointer()), json_string_at(body, agent_id_pointer())) {
                    (None, _) => claim_failed(ClaimErrorView::MalformedResponse(ReplyField::Token)),
                    (Some(_), None) => claim_failed(ClaimErrorView::MalformedResponse(ReplyField::AgentId)),
                    (Some(token), Some(agent_id)) => (
                        ClaimFlowView::StoringToken { base_url, agent_id },
                        ClaimActionView::StoreToken { token },
                    ),
                }
            }
        },
        (ClaimFlowView::StoringToken { base_url, agent_id }, ClaimEventView::TokenStored(r)) => match r {
            Ok(()) => (ClaimFlowView::LoadingConfig { base_url, agent_id }, ClaimActionView::LoadConfig),
            Err(m) => claim_failed(ClaimErrorView::Store(m)),
        },
        (ClaimFlowView::LoadingConfig { base_url, agent_id }, ClaimEventView::ConfigLoaded(c)) => (
            ClaimFlowView::SavingConfig { agent_id },
            ClaimActionView::SaveConfig { config: claimed_config(c, base_url, agent_id) },
        ),
        (ClaimFlowView::SavingConfig { agent_id }, ClaimEventView::ConfigSaved(r)) => match r {
            Ok(()) => (ClaimFlowView::Finished, ClaimActionView::Done(Ok(agent_id))),
            Err(m) => claim_failed(ClaimErrorView::Store(m)),
        },
        // not reached: only an accepted event is taken
        _ => (flow, ClaimActionView::LoadConfig),
    }
}

/// The message that a user sees for `e`.
pub open spec fn claim_error_message(e: ClaimErrorView) -> Seq<char> {
    match e {
        ClaimErrorView::Invalid(InputField::ClaimCode) => "연결 코드가 필요합니다."@,
        ClaimErrorView::Invalid(InputField::BaseUrl) => "서버 주소가 필요합니다."@,
        ClaimErrorView::Invalid(InputField::ApiKey) => "API 키가 필요합니다."@,
        ClaimErrorView::Network(m) => m,
        ClaimErrorView::Rejected(m) => m,
        ClaimErrorView::MalformedResponse(ReplyField::Token) => "토큰을 받을 수 없습니다."@,
        ClaimErrorView::MalformedResponse(ReplyField::AgentId) => "에이전트 ID를 받을 수 없습니다."@,
        ClaimErrorView::Store(m) => m,
    }
}

impl ClaimError {
    /// The message that a user sees.
    pub fn message(&self) -> (r: String)
        ensures
            r@ == claim_error_message(self@),
    {
        match self {
            ClaimError::Invalid(InputField::ClaimCode) => String::from_str("연결 코드가 필요합니다."),
            ClaimError::Invalid(InputField::BaseUrl) => String::from_str("서버 주소가 필요합니다."),
            ClaimError::Invalid(InputField::ApiKey) => String::from_str("API 키가 필요합니다."),
            ClaimError::Network(m) => m.clone(),
            ClaimError::Rejected(m) => m.clone(),
            ClaimError::MalformedResponse(ReplyField::Token) => String::from_str(
                "토큰을 받을 수 없습니다.",
            ),
            ClaimError::MalformedResponse(ReplyField::AgentId) => String::from_str(
                "에이전트 ID를 받을 수 없습니다.",
            ),
            ClaimError::Store(m) => m.clone(),
        }
    }
}

fn failed(e: ClaimError) -> (r: (ClaimFlow, ClaimAction))
    ensures
        (r.0@, r.1@) == claim_failed(e@),
{
    (ClaimFlow::Finished, ClaimAction::Done(Err(e)))
}

impl ClaimFlow {
    /// Starts a claim of `claim_code` against the server at `base_url`.
    /// Blank inputs end it at once, before any request.
    pub fn begin(base_url: &str, claim_code: &str) -> (r: (ClaimFlow, ClaimAction))
        ensures
            (r.0@, r.1@) == claim_begin(base_url@, claim_code@),
    {
        if blank(claim_code) {
            return failed(ClaimError::Invalid(InputField::ClaimCode));
        }
        let base = normalized_base_url(base_url);
        if base.as_str().unicode_len() == 0 {
            return failed(ClaimError::Invalid(InputField::BaseUrl));
        }
        let url = base.clone().concat("/api/agents/claim/complete");
        (ClaimFlow::AwaitingReply { base_url: base }, ClaimAction::Post { url, code: String::from_str(claim_code) })
    }

    /// Whether `event` answers the action that this flow waits on.
    pub fn accepts(&self, event: &ClaimEvent) -> (r: bool)
        ensures
            r == claim_accepts(self@, event@),
    {
        match (self, event) {
            (ClaimFlow::AwaitingReply { .. }, ClaimEvent::Replied { .. }) => true,
            (ClaimFlow::AwaitingReply { .. }, ClaimEvent::TransportFailed(_)) => true,
            (ClaimFlow::StoringToken { .. }, ClaimEvent::TokenStored(_)) => true,
            (ClaimFlow::LoadingConfig { .. }, ClaimEvent::ConfigLoaded(_)) => true,
            (ClaimFlow::SavingConfig { .. }, ClaimEvent::ConfigSaved(_)) => true,
            _ => false,
        }
    }

    /// Takes what came of the last action and says what to do next.
    pub fn advance(self, event: ClaimEvent) -> (r: (ClaimFlow, ClaimAction))
        requires
            claim_accepts(self@, event@),
        ensures
            (r.0@, r.1@) == claim_next(self@, event@),
    {
        match (self, event) {
            (ClaimFlow::AwaitingReply { .. }, ClaimEvent::TransportFailed(m)) => failed(ClaimError::Network(m)),
            (ClaimFlow::AwaitingReply { base_url }, ClaimEvent::Replied { success, body }) => {
                if !success {
                    let message = match string_at(body.as_str(), "/error/message") {
                        Some(m) => m,
                        None => String::from_str("연결에 실패했습니다."),
                    };
                    return failed(ClaimError::Rejected(message));
                }
                let token = string_at(body.as_str(), "/data/token");
                let agent_id = string_at(body.as_str(), "/data/agentId");
                match (token, agent_id) {
                    (None, _) => failed(ClaimError::MalformedResponse(ReplyField::Token)),
                    (Some(_), None) => failed(ClaimError::MalformedResponse(ReplyField::AgentId)),
                    (Some(token), Some(agent_id)) => (
                        ClaimFlow::StoringToken { base_url, agent_id },
                        ClaimAction::StoreToken { token },
                    ),
                }
            },
            (ClaimFlow::StoringToken { base_url, agent_id }, ClaimEvent::TokenStored(r)) => match r {
                Ok(()) => (ClaimFlow::LoadingConfig { base_url, agent_id }, ClaimAction::LoadConfig),
                Err(m) => failed(ClaimError::Store(m)),
            },
            (ClaimFlow::LoadingConfig { base_url, agent_id }, ClaimEvent::ConfigLoaded(c)) => {
                let mut config = c;
                config.set_claim(base_url, agent_id.clone());
                (ClaimFlow::SavingConfig { agent_id }, ClaimAction::SaveConfig { config })
            },
            (ClaimFlow::SavingConfig { agent_id }, ClaimEvent::ConfigSaved(r)) => match r {
                Ok(()) => (ClaimFlow::Finished, ClaimAction::Done(Ok(agent_id))),
                Err(m) => failed(ClaimError::Store(m)),
            },
            // not reached: `advance` requires an accepted event
            (flow, _) => (flow, ClaimAction::LoadConfig),
        }
    }
}

/// A blank claim code or server address ends the claim with a validation
/// error before any request is sent.
pub proof fn lemma_blank_input_sends_nothing(base_url: Seq<char>, code: Seq<char>)
    requires
        is_blank(code) || normalized_base_url_spec(base_url).len() == 0,
    ensures
        claim_begin(base_url, code).0 == ClaimFlowView::Finished,
        claim_begin(base_url, code).1 matches ClaimActionView::Done(Err(ClaimErrorView::Invalid(_))),
        forall|e: ClaimEventView| !claim_accepts(#[trigger] claim_begin(base_url, code).0, e),
{
}

/// A success reply that lacks the token or the agent's identifier ends the
/// claim with a malformed-response error, and nothing is written afterwards.
pub proof fn lemma_malformed_reply_writes_nothing(base_url: Seq<char>, body: Seq<char>)
    requires
        json_string_at(body, token_pointer()) is None || json_string_at(body, agent_id_pointer()) is None,
    ensures
        ({
            let (flow, action) = claim_next(
                ClaimFlowView::AwaitingReply { base_url },
                ClaimEventView::Replied { success: true, body },
            );
            &&& flow == ClaimFlowView::Finished
            &&& action matches ClaimActionView::Done(Err(ClaimErrorView::MalformedResponse(_)))
            &&& forall|e: ClaimEventView| !claim_accepts(flow, e)
        }),
{
}

/// A claim whose reply holds a token and an agent identifier, and whose writes
/// succeed, stores that token in the keystore, saves the configuration it read
/// with the agent identifier and the trimmed server address, and reports the
/// agent identifier.
pub proof fn lemma_claim_persists(
    base_url: Seq<char>,
    code: Seq<char>,
    body: Seq<char>,
    loaded: ConfigView,
)
    requires
        !is_blank(code),
        normalized_base_url_spec(base_url).len() > 0,
        json_string_at(body, token_pointer()) is Some,
        json_string_at(body, agent_id_pointer()) is Some,
    ensures
        ({
            let base = normalized_base_url_spec(base_url);
            let token = json_string_at(body, token_pointer())->Some_0;
            let agent_id = json_string_at(body, agent_id_pointer())->Some_0;
            let (f1, a1) = claim_begin(base_url, code);
            let (f2, a2) = claim_next(f1, ClaimEventView::Replied { success: true, body });
            let (f3, a3) = claim_next(f2, ClaimEventView::TokenStored(Ok(())));
            let (f4, a4) = claim_next(f3, ClaimEventView::ConfigLoaded(loaded));
            let (f5, a5) = claim_next(f4, ClaimEventView::ConfigSaved(Ok(())));
            &&& a1 == ClaimActionView::Post { url: base + claim_path(), code }
            &&& a2 == ClaimActionView::StoreToken { token }
            &&& a3 == ClaimActionView::LoadConfig
            &&& a4 == ClaimActionView::SaveConfig { config: claimed_config(loaded, base, agent_id) }
            &&& claimed_config(loaded, base, agent_id).base_url == base
            &&& claimed_config(loaded, base, agent_id).agent_id == Some(agent_id)
            &&& a5 == ClaimActionView::Done(Ok(agent_id))
            &&& f5 == ClaimFlowView::Finished
        }),
{
}

} // verus!
