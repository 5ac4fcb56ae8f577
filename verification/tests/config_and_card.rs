use acp_bridge::card::{agent_card, agent_url};
use acp_bridge::config::A2aConfig;
use acp_bridge::decimal::{decimal_text, parse_port};

fn some(s: &str) -> Option<String> {
    Some(s.to_string())
}

#[test]
fn config_default_values() {
    let c = A2aConfig::default();
    assert_eq!(c.host, "0.0.0.0");
    assert_eq!(c.port, 8080);
    assert_eq!(c.agent_name, "acp-bridge");
    assert!(!c.agent_description.is_empty());
}

#[test]
fn config_from_env_overrides_and_defaults() {
    let c = A2aConfig::from_settings(some("127.0.0.1"), some("9999"), some("custom-agent"), None);
    assert_eq!(c.host, "127.0.0.1");
    assert_eq!(c.port, 9999);
    assert_eq!(c.agent_name, "custom-agent");
    // Falls back to default when the setting is absent.
    assert_eq!(c.agent_description, A2aConfig::default().agent_description);
}

#[test]
fn config_from_env_ignores_invalid_port() {
    let c = A2aConfig::from_settings(None, some("not-a-number"), None, None);
    assert_eq!(c.port, A2aConfig::default().port);
}

#[test]
fn config_without_settings_is_default() {
    let c = A2aConfig::from_settings(None, None, None, None);
    let d = A2aConfig::default();
    assert_eq!(c.host, d.host);
    assert_eq!(c.port, d.port);
    assert_eq!(c.agent_name, d.agent_name);
    assert_eq!(c.agent_description, d.agent_description);
    assert_eq!(
        d.agent_description,
        "Self-hosted AI agent bridge for air-gapped and enterprise environments"
    );
}

#[test]
fn config_present_settings_all_win() {
    let c = A2aConfig::from_settings(some("::1"), some("+443"), some("n"), some(""));
    assert_eq!(c.host, "::1");
    assert_eq!(c.port, 443);
    assert_eq!(c.agent_name, "n");
    assert_eq!(c.agent_description, "");
}

#[test]
fn config_port_out_of_range_is_ignored() {
    let c = A2aConfig::from_settings(None, some("65536"), None, None);
    assert_eq!(c.port, 8080);
}

#[test]
fn parse_port_accepts_what_u16_parse_accepts() {
    let cases = [
        "0", "8080", "65535", "65536", "+80", "+", "", "-1", "-0", " 80", "80 ", "0080", "8o", "99999999999",
    ];
    for s in cases {
        assert_eq!(parse_port(s), s.parse::<u16>().ok(), "input {:?}", s);
    }
}

#[test]
fn parse_port_exact_values() {
    assert_eq!(parse_port("0080"), Some(80));
    assert_eq!(parse_port("+65535"), Some(65535));
    assert_eq!(parse_port("65536"), None);
    assert_eq!(parse_port("+"), None);
    assert_eq!(parse_port(""), None);
    assert_eq!(parse_port("１２"), None);
}

#[test]
fn decimal_text_matches_display() {
    for n in [0u16, 7, 10, 99, 100, 8080, 9999, 65535] {
        assert_eq!(decimal_text(n), n.to_string());
        assert_eq!(parse_port(&decimal_text(n)), Some(n));
    }
}

#[test]
fn agent_url_formats_host_and_port() {
    assert_eq!(agent_url("0.0.0.0", 8080), "http://0.0.0.0:8080");
    assert_eq!(agent_url("example.org", 0), "http://example.org:0");
}

#[test]
fn agent_card_endpoint_serves_discovery_document() {
    let card = agent_card(&A2aConfig::default(), "0.6.0");
    assert_eq!(card.name, "acp-bridge");
    assert_eq!(card.skills[0].id, "coding-assistant");
    assert!(!card.capabilities.streaming);
}

#[test]
fn agent_card_carries_config_and_version() {
    let config = A2aConfig::from_settings(some("10.0.0.2"), some("9000"), some("bot"), some("about"));
    let card = agent_card(&config, "1.2.3");
    assert_eq!(card.name, "bot");
    assert_eq!(card.description, "about");
    assert_eq!(card.url, "http://10.0.0.2:9000");
    assert_eq!(card.version, "1.2.3");
    assert!(!card.capabilities.push_notifications);
    assert_eq!(card.skills.len(), 1);
    assert_eq!(card.skills[0].name, "Coding Assistant");
    assert_eq!(
        card.skills[0].description,
        "AI coding assistant with file reading, directory listing, and code search tools"
    );
}

#[test]
fn bind_addr_joins_host_and_port() {
    assert_eq!(acp_bridge::card::bind_addr("0.0.0.0", 8080), "0.0.0.0:8080");
    assert_eq!(acp_bridge::card::bind_addr("127.0.0.1", 9999), "127.0.0.1:9999");
}
