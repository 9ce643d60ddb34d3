use vstd::prelude::*;

use crate::json::{
    fields_view, json_null_or_absent_at, json_string_at, null_or_absent_at, object_text, opt_text,
    plain_distinct_keys, pretty_json_object, string_at,
};

verus! {

/// The non-secret settings of one installation.
#[derive(Clone, Debug)]
pub struct JarvisConfig {
    /// Address of the remote service; empty while unconfigured.
    pub base_url: String,
    /// Model provider of the worker.
    pub provider: String,
    /// Model name of the worker.
    pub model: String,
    /// Identifier of the claimed agent, once a claim succeeded.
    pub agent_id: Option<String>,
}

/// What a configuration holds.
pub struct ConfigView {
    pub base_url: Seq<char>,
    pub provider: Seq<char>,
    pub model: Seq<char>,
    pub agent_id: Option<Seq<char>>,
}

impl View for JarvisConfig {
    type V = ConfigView;

    open spec fn view(&self) -> ConfigView {
        ConfigView {
            base_url: self.base_url@,
            provider: self.provider@,
            model: self.model@,
            agent_id: opt_text(self.agent_id),
        }
    }
}

/// The configuration of a fresh installation.
pub open spec fn empty_config() -> ConfigView {
    ConfigView { base_url: Seq::empty(), provider: Seq::empty(), model: Seq::empty(), agent_id: None }
}

impl Default for JarvisConfig {
    fn default() -> (r: JarvisConfig)
        ensures
            r@ == empty_config(),
    {
        JarvisConfig::empty()
    }
}

/// The member names of the configuration file.
pub open spec fn key_base_url() -> Seq<char> {
    "base_url"@
}

pub open spec fn key_provider() -> Seq<char> {
    "provider"@
}

pub open spec fn key_model() -> Seq<char> {
    "model"@
}

pub open spec fn key_agent_id() -> Seq<char> {
    "agent_id"@
}

/// `/` followed by `key`: the JSON pointer to a top-level member.
pub open spec fn member(key: Seq<char>) -> Seq<char> {
    seq!['/'] + key
}

/// The configuration that a stored text holds, `None` standing for a missing
/// file. A missing or unreadable file, one that lacks a setting, or one whose
/// agent identifier is neither a string nor `null`, reads as the
/// configuration of a fresh installation.
pub open spec fn config_from_text_spec(raw: Option<Seq<char>>) -> ConfigView {
    match raw {
        None => empty_config(),
        Some(t) => match (
            json_string_at(t, member(key_base_url())),
            json_string_at(t, member(key_provider())),
            json_string_at(t, member(key_model())),
            json_string_at(t, member(key_agent_id())),
        ) {
            (Some(b), Some(p), Some(m), a) => if a is Some || json_null_or_absent_at(
                t,
                member(key_agent_id()),
            ) {
                ConfigView { base_url: b, provider: p, model: m, agent_id: a }
            } else {
                empty_config()
            },
            _ => empty_config(),
        },
    }
}

/// The members that the configuration file is written with.
pub open spec fn config_fields(c: ConfigView) -> Seq<(Seq<char>, Option<Seq<char>>)> {
    seq![
        (key_base_url(), Some(c.base_url)),
        (key_provider(), Some(c.provider)),
        (key_model(), Some(c.model)),
        (key_agent_id(), c.agent_id),
    ]
}

/// The text that the configuration file is written with.
pub open spec fn config_text_spec(c: ConfigView) -> Seq<char> {
    pretty_json_object(config_fields(c))
}

/// The configuration after a successful claim.
pub open spec fn claimed_config(c: ConfigView, base_url: Seq<char>, agent_id: Seq<char>) -> ConfigView {
    ConfigView { base_url: base_url, agent_id: Some(agent_id), ..c }
}

/// The configuration after the model settings were saved.
pub open spec fn llm_config(c: ConfigView, provider: Seq<char>, model: Seq<char>) -> ConfigView {
    ConfigView { provider: provider, model: model, ..c }
}

/// The four member names are plain and distinct.
proof fn lemma_config_keys_plain_distinct()
    ensures
        forall|c: ConfigView| plain_distinct_keys(#[trigger] config_fields(c)),
{
    reveal_strlit("base_url");
    reveal_strlit("provider");
    reveal_strlit("model");
    reveal_strlit("agent_id");
    assert forall|c: ConfigView| plain_distinct_keys(#[trigger] config_fields(c)) by {
        let f = config_fields(c);
        assert(f[0].0[0] != f[1].0[0]);
        assert(f[0].0.len() != f[2].0.len());
        assert(f[0].0[0] != f[3].0[0]);
        assert(f[1].0.len() != f[2].0.len());
        assert(f[1].0[0] != f[3].0[0]);
        assert(f[2].0.len() != f[3].0.len());
    }
}

fn text_of(s: &str) -> (r: String)
    ensures
        r@ == s@,
{
    String::from_str(s)
}

impl JarvisConfig {
    /// The configuration of a fresh installation.
    pub fn empty() -> (r: JarvisConfig)
        ensures
            r@ == empty_config(),
    {
        JarvisConfig { base_url: String::new(), provider: String::new(), model: String::new(), agent_id: None }
    }

    /// Reads a stored configuration text; `None` stands for a missing file.
    /// Anything that does not hold the three settings as strings reads as the
    /// configuration of a fresh installation.
    pub fn from_text(raw: Option<&str>) -> (r: JarvisConfig)
        ensures
            r@ == config_from_text_spec(match raw {
                Some(t) => Some(t@),
                None => None,
            }),
    {
        match raw {
            None => JarvisConfig::empty(),
            Some(t) => {
                proof {
                    reveal_strlit("/base_url");
                    reveal_strlit("/provider");
                    reveal_strlit("/model");
                    reveal_strlit("/agent_id");
                    reveal_strlit("base_url");
                    reveal_strlit("provider");
                    reveal_strlit("model");
                    reveal_strlit("agent_id");
                    assert("/base_url"@ =~= member(key_base_url()));
                    assert("/provider"@ =~= member(key_provider()));
                    assert("/model"@ =~= member(key_model()));
                    assert("/agent_id"@ =~= member(key_agent_id()));
                }
                let base_url = string_at(t, "/base_url");
                let provider = string_at(t, "/provider");
                let model = string_at(t, "/model");
                match (base_url, provider, model) {
                    (Some(b), Some(p), Some(m)) => {
                        let agent_id = string_at(t, "/agent_id");
                        if agent_id.is_some() || null_or_absent_at(t, "/agent_id") {
                            JarvisConfig { base_url: b, provider: p, model: m, agent_id }
                        } else {
                            JarvisConfig::empty()
                        }
                    },
                    _ => JarvisConfig::empty(),
                }
            },
        }
    }

    /// The text that the configuration file is written with. Reading it
    /// back gives this configuration, with or without an agent identifier.
    pub fn to_text(&self) -> (r: Option<String>)
        ensures
            r is Some,
            r matches Some(t) ==> t@ == config_text_spec(self@),
            r matches Some(t) ==> config_from_text_spec(Some(t@)) == self@,
    {
        let mut fields: Vec<(String, Option<String>)> = Vec::new();
        fields.push((text_of("base_url"), Some(self.base_url.clone())));
        fields.push((text_of("provider"), Some(self.provider.clone())));
        fields.push((text_of("model"), Some(self.model.clone())));
        fields.push((text_of("agent_id"), self.agent_id.clone()));
        proof {
            reveal_strlit("base_url");
            reveal_strlit("provider");
            reveal_strlit("model");
            reveal_strlit("agent_id");
            assert(fields_view(fields@) =~= config_fields(self@));
            lemma_config_keys_plain_distinct();
        }
        let r = object_text(&fields);
        proof {
            let t = r->Some_0@;
            let fv = fields_view(fields@);
            assert(fv[0].0 == key_base_url());
            assert(fv[1].0 == key_provider());
            assert(fv[2].0 == key_model());
            assert(fv[3].0 == key_agent_id());
            assert(json_string_at(t, member(key_base_url())) == Some(self@.base_url));
            assert(json_string_at(t, member(key_provider())) == Some(self@.provider));
            assert(json_string_at(t, member(key_model())) == Some(self@.model));
            assert(json_string_at(t, member(key_agent_id())) == self@.agent_id);
            assert(json_null_or_absent_at(t, member(key_agent_id())) == (self@.agent_id is None));
        }
        r
    }

    /// Records a successful claim: the server address and the agent.
    pub fn set_claim(&mut self, base_url: String, agent_id: String)
        ensures
            final(self)@ == claimed_config(old(self)@, base_url@, agent_id@),
    {
        self.base_url = base_url;
        self.agent_id = Some(agent_id);
    }

    /// Records the model settings.
    pub fn set_llm(&mut self, provider: String, model: String)
        ensures
            final(self)@ == llm_config(old(self)@, provider@, model@),
    {
        self.provider = provider;
        self.model = model;
    }
}

} // verus!
