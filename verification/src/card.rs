//! The A2A Agent Card, served at `/.well-known/agent.json` for discovery.
use vstd::prelude::*;
use crate::config::A2aConfig;
use crate::decimal::{decimal, decimal_text};

verus! {

/// A2A Agent Card.
pub struct AgentCard {
    pub name: String,
    pub description: String,
    pub url: String,
    pub version: String,
    pub capabilities: AgentCapabilities,
    pub skills: Vec<AgentSkill>,
}

/// What the agent can do beyond request and reply.
#[derive(Clone, Copy, Debug, PartialEq, Eq, Structural)]
pub struct AgentCapabilities {
    pub streaming: bool,
    pub push_notifications: bool,
}

/// A skill that the agent offers.
pub struct AgentSkill {
    pub id: String,
    pub name: String,
    pub description: String,
}

pub struct AgentSkillView {
    pub id: Seq<char>,
    pub name: Seq<char>,
    pub description: Seq<char>,
}

pub struct AgentCardView {
    pub name: Seq<char>,
    pub description: Seq<char>,
    pub url: Seq<char>,
    pub version: Seq<char>,
    pub capabilities: AgentCapabilities,
    pub skills: Seq<AgentSkillView>,
}

impl View for AgentSkill {
    type V = AgentSkillView;

    open spec fn view(&self) -> AgentSkillView {
        AgentSkillView { id: self.id@, name: self.name@, description: self.description@ }
    }
}

impl View for AgentCard {
    type V = AgentCardView;

    open spec fn view(&self) -> AgentCardView {
        AgentCardView {
            name: self.name@,
            description: self.description@,
            url: self.url@,
            version: self.version@,
            capabilities: self.capabilities,
            skills: self.skills@.map_values(|s: AgentSkill| s@),
        }
    }
}

/// The socket address that a server on `host` and `port` binds:
/// `{host}:{port}`.
pub open spec fn bind_addr_spec(host: Seq<char>, port: u16) -> Seq<char> {
    host + ":"@ + decimal(port as nat)
}

/// The address at which a server on `host` and `port` is reached:
/// `http://{host}:{port}`.
pub open spec fn agent_url_spec(host: Seq<char>, port: u16) -> Seq<char> {
    "http://"@ + bind_addr_spec(host, port)
}

/// The one skill that the agent offers.
pub open spec fn coding_skill() -> AgentSkillView {
    AgentSkillView {
        id: "coding-assistant"@,
        name: "Coding Assistant"@,
        description: "AI coding assistant with file reading, directory listing, and code search tools"@,
    }
}

/// The card of an agent configured by `config`, at software version
/// `version`: its configured name and description, the URL of its server,
/// neither streaming nor push notifications, and the coding skill.
pub open spec fn agent_card_spec(
    name: Seq<char>,
    description: Seq<char>,
    host: Seq<char>,
    port: u16,
    version: Seq<char>,
) -> AgentCardView {
    AgentCardView {
        name,
        description,
        url: agent_url_spec(host, port),
        version,
        capabilities: AgentCapabilities { streaming: false, push_notifications: false },
        skills: seq![coding_skill()],
    }
}

/// The socket address `{host}:{port}` that the server listens on.
pub fn bind_addr(host: &str, port: u16) -> (r: String)
    ensures
        r@ == bind_addr_spec(host@, port),
        r@ == host@ + ":"@ + decimal(port as nat),
{
    let mut addr = String::from_str(host);
    addr.append(":");
    let digits = decimal_text(port);
    addr.append(digits.as_str());
    addr
}

/// The card carries the configured name and description and the given
/// version unchanged, advertises `http://` followed by the bind address,
/// offers neither streaming nor push notifications, and lists exactly the
/// coding-assistant skill.
pub proof fn law_agent_card_carries_config(
    name: Seq<char>,
    description: Seq<char>,
    host: Seq<char>,
    port: u16,
    version: Seq<char>,
)
    ensures
        ({
            let c = agent_card_spec(name, description, host, port, version);
            &&& c.name == name
            &&& c.description == description
            &&& c.version == version
            &&& c.url == "http://"@ + host + ":"@ + decimal(port as nat)
            &&& c.url == "http://"@ + bind_addr_spec(host, port)
            &&& !c.capabilities.streaming
            &&& !c.capabilities.push_notifications
            &&& c.skills.len() == 1
            &&& c.skills[0].id == "coding-assistant"@
        }),
{
    assert("http://"@ + bind_addr_spec(host, port) =~= "http://"@ + host + ":"@ + decimal(port as nat));
}

/// The bind address is the host, a colon, and the port's shortest decimal
/// text; so it ends with `:` and the port's digits and starts with the host.
pub proof fn law_bind_addr_parts(host: Seq<char>, port: u16)
    ensures
        bind_addr_spec(host, port).subrange(0, host.len() as int) == host,
        bind_addr_spec(host, port)[host.len() as int] == ':',
        bind_addr_spec(host, port).subrange(host.len() + 1int, bind_addr_spec(host, port).len() as int)
            == decimal(port as nat),
        crate::decimal::parse_u16_spec(
            bind_addr_spec(host, port).subrange(host.len() + 1int, bind_addr_spec(host, port).len() as int),
        ) == Some(port),
{
    reveal_strlit(":");
    let a = bind_addr_spec(host, port);
    assert(a[host.len() as int] == (host + ":"@)[host.len() as int]);
    assert(a.subrange(0, host.len() as int) =~= host);
    assert(a.subrange(host.len() + 1int, a.len() as int) =~= decimal(port as nat));
    crate::decimal::law_parse_decimal_round_trip(port);
}

/// The address `http://{host}:{port}`.
pub fn agent_url(host: &str, port: u16) -> (r: String)
    ensures
        r@ == agent_url_spec(host@, port),
        r@ == "http://"@ + host@ + ":"@ + decimal(port as nat),
{
    let mut url = String::from_str("http://");
    let addr = bind_addr(host, port);
    url.append(addr.as_str());
    url
}

/// The Agent Card for the server that `config` describes.
pub fn agent_card(config: &A2aConfig, version: &str) -> (r: AgentCard)
    ensures
        r@ == agent_card_spec(
            config.agent_name@,
            config.agent_description@,
            config.host@,
            config.port,
            version@,
        ),
        r.name@ == config.agent_name@,
        r.description@ == config.agent_description@,
        r.version@ == version@,
        r.url@ == "http://"@ + config.host@ + ":"@ + decimal(config.port as nat),
{
    let skill = AgentSkill {
        id: String::from_str("coding-assistant"),
        name: String::from_str("Coding Assistant"),
        description: String::from_str(
            "AI coding assistant with file reading, directory listing, and code search tools",
        ),
    };
    let mut skills: Vec<AgentSkill> = Vec::new();
    skills.push(skill);
    let card = AgentCard {
        name: config.agent_name.clone(),
        description: config.agent_description.clone(),
        url: agent_url(config.host.as_str(), config.port),
        version: String::from_str(version),
        capabilities: AgentCapabilities { streaming: false, push_notifications: false },
        skills,
    };
    proof {
        assert(card@.skills =~= seq![coding_skill()]);
    }
    card
}

} // verus!
