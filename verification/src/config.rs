//! A2A server configuration: built-in defaults, overridden by the
//! `A2A_HOST`, `A2A_PORT`, `A2A_AGENT_NAME` and `A2A_AGENT_DESCRIPTION`
//! settings where they are present.
use vstd::prelude::*;
use crate::decimal::{parse_port, parse_u16_spec};

verus! {

/// Where the A2A server listens and how the agent presents itself.
#[derive(Debug, Clone)]
pub struct A2aConfig {
    pub host: String,
    pub port: u16,
    pub agent_name: String,
    pub agent_description: String,
}

pub struct A2aConfigView {
    pub host: Seq<char>,
    pub port: u16,
    pub agent_name: Seq<char>,
    pub agent_description: Seq<char>,
}

impl View for A2aConfig {
    type V = A2aConfigView;

    open spec fn view(&self) -> A2aConfigView {
        A2aConfigView {
            host: self.host@,
            port: self.port,
            agent_name: self.agent_name@,
            agent_description: self.agent_description@,
        }
    }
}

/// The configuration when nothing overrides it.
pub open spec fn default_config() -> A2aConfigView {
    A2aConfigView {
        host: "0.0.0.0"@,
        port: 8080,
        agent_name: "acp-bridge"@,
        agent_description: "Self-hosted AI agent bridge for air-gapped and enterprise environments"@,
    }
}

/// A setting's text if it is present, the default otherwise.
pub open spec fn text_or(value: Option<Seq<char>>, default: Seq<char>) -> Seq<char> {
    match value {
        Some(v) => v,
        None => default,
    }
}

/// The port that a `A2A_PORT` setting gives: its number when it parses as a
/// port number, the default port when it is absent or does not parse.
pub open spec fn port_or(value: Option<Seq<char>>, default: u16) -> u16 {
    match value {
        Some(v) => match parse_u16_spec(v) {
            Some(p) => p,
            None => default,
        },
        None => default,
    }
}

/// The configuration that the four settings give, each falling back to its
/// default when it is absent (the port also when it is not a port number).
pub open spec fn config_from(
    host: Option<Seq<char>>,
    port: Option<Seq<char>>,
    agent_name: Option<Seq<char>>,
    agent_description: Option<Seq<char>>,
) -> A2aConfigView {
    let d = default_config();
    A2aConfigView {
        host: text_or(host, d.host),
        port: port_or(port, d.port),
        agent_name: text_or(agent_name, d.agent_name),
        agent_description: text_or(agent_description, d.agent_description),
    }
}

/// The view of an optional setting.
pub open spec fn opt_view(s: Option<String>) -> Option<Seq<char>> {
    match s {
        Some(v) => Some(v@),
        None => None,
    }
}

impl Default for A2aConfig {
    fn default() -> (r: A2aConfig)
        ensures
            r@ == default_config(),
    {
        A2aConfig {
            host: String::from_str("0.0.0.0"),
            port: 8080,
            agent_name: String::from_str("acp-bridge"),
            agent_description: String::from_str(
                "Self-hosted AI agent bridge for air-gapped and enterprise environments",
            ),
        }
    }
}

impl A2aConfig {
    /// The configuration from the values of the four settings (`None` where a
    /// setting is absent): each present value overrides its default; a port
    /// that is not a port number is ignored.
    pub fn from_settings(
        host: Option<String>,
        port: Option<String>,
        agent_name: Option<String>,
        agent_description: Option<String>,
    ) -> (r: A2aConfig)
        ensures
            r@ == config_from(opt_view(host), opt_view(port), opt_view(agent_name), opt_view(agent_description)),
    {
        let defaults = A2aConfig::default();
        let host = match host {
            Some(h) => h,
            None => defaults.host,
        };
        let port = match port {
            Some(p) => match parse_port(p.as_str()) {
                Some(n) => n,
                None => defaults.port,
            },
            None => defaults.port,
        };
        let agent_name = match agent_name {
            Some(n) => n,
            None => defaults.agent_name,
        };
        let agent_description = match agent_description {
            Some(d) => d,
            None => defaults.agent_description,
        };
        A2aConfig { host, port, agent_name, agent_description }
    }
}

/// A present setting always wins over the default, and an absent one always
/// gives the default.
pub proof fn law_setting_overrides_default(
    host: Option<Seq<char>>,
    port: Option<Seq<char>>,
    agent_name: Option<Seq<char>>,
    agent_description: Option<Seq<char>>,
)
    ensures
        ({
            let c = config_from(host, port, agent_name, agent_description);
            &&& (host matches Some(h) ==> c.host == h)
            &&& (host is None ==> c.host == default_config().host)
            &&& (agent_name matches Some(n) ==> c.agent_name == n)
            &&& (agent_name is None ==> c.agent_name == default_config().agent_name)
            &&& (agent_description matches Some(d) ==> c.agent_description == d)
            &&& (agent_description is None ==> c.agent_description == default_config().agent_description)
            &&& (port is None ==> c.port == default_config().port)
        }),
{
}

/// A port setting that is not a port number leaves the default port; one that
/// is gives its number.
pub proof fn law_invalid_port_ignored(
    host: Option<Seq<char>>,
    port: Seq<char>,
    agent_name: Option<Seq<char>>,
    agent_description: Option<Seq<char>>,
)
    ensures
        parse_u16_spec(port) is None ==> config_from(host, Some(port), agent_name, agent_description).port
            == 8080,
        parse_u16_spec(port) matches Some(p) ==> config_from(host, Some(port), agent_name, agent_description).port
            == p,
{
}

/// With no setting present the configuration is the default one.
pub proof fn law_no_settings_is_default()
    ensures
        config_from(None, None, None, None) == default_config(),
{
}

} // verus!
