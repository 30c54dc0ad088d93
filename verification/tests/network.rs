//! Network rules and policies.

use microsandbox_network::policy::{
    Action, Destination, DestinationGroup, Direction, NetworkPolicy, Protocol,
};
use sodagun::config::{
    ConfigAction, ConfigDirection, ConfigProtocol, NamedPolicy, NetworkConfig, NetworkRule,
};
use sodagun::network::flag::{parse_action, parse_net_rule_value, parse_net_rules};
use sodagun::network::policy::{
    apply_named_policy, apply_rule, build_network_policy, is_reserved_name, policy_error,
    to_sdk_action, CliNetOptions,
};
use sodagun::network::rule::{classify_destination, is_ip_address, RuleTarget};
use sodagun::table::Table;

fn rule(
    direction: ConfigDirection,
    action: ConfigAction,
    destination: &str,
    protocol: Option<ConfigProtocol>,
    ports: Vec<u16>,
) -> NetworkRule {
    NetworkRule { direction, action, destination: destination.to_string(), protocol, ports }
}

fn egress_allow(destination: &str) -> NetworkRule {
    rule(ConfigDirection::Egress, ConfigAction::Allow, destination, None, vec![])
}

fn bare_policy() -> NamedPolicy {
    NamedPolicy { default_egress: None, default_ingress: None, rules: vec![] }
}

fn no_cli() -> CliNetOptions {
    CliNetOptions { rules: vec![], default_egress: None, default_ingress: None }
}

// ── Rules on the command line ────────────────────────────────────────────────

#[test]
fn net_rule_spec_minimal_allow() {
    let rules = parse_net_rule_value("allow@host").unwrap();
    assert_eq!(rules.len(), 1);
    let r = &rules[0];
    assert_eq!(r.action, ConfigAction::Allow);
    assert_eq!(r.destination, "host");
    assert_eq!(r.direction, ConfigDirection::Egress);
    assert!(r.protocol.is_none());
    assert!(r.ports.is_empty());
}

#[test]
fn net_rule_spec_deny_action() {
    let rules = parse_net_rule_value("deny@public").unwrap();
    assert_eq!(rules[0].action, ConfigAction::Deny);
    assert_eq!(rules[0].destination, "public");
}

#[test]
fn net_rule_spec_with_proto_and_port() {
    let rules = parse_net_rule_value("allow@host:tcp:9999").unwrap();
    let r = &rules[0];
    assert_eq!(r.action, ConfigAction::Allow);
    assert_eq!(r.destination, "host");
    assert_eq!(r.protocol, Some(ConfigProtocol::Tcp));
    assert_eq!(r.ports, vec![9999u16]);
}

#[test]
fn net_rule_spec_udp_protocol() {
    let rules = parse_net_rule_value("allow@host:udp:53").unwrap();
    assert_eq!(rules[0].protocol, Some(ConfigProtocol::Udp));
    assert_eq!(rules[0].ports, vec![53u16]);
}

#[test]
fn net_rule_spec_proto_no_port() {
    let rules = parse_net_rule_value("allow@api.example.com:tcp").unwrap();
    let r = &rules[0];
    assert_eq!(r.protocol, Some(ConfigProtocol::Tcp));
    assert!(r.ports.is_empty());
}

#[test]
fn net_rule_spec_cidr_destination() {
    let rules = parse_net_rule_value("deny@10.0.0.0/8").unwrap();
    assert_eq!(rules[0].destination, "10.0.0.0/8");
}

#[test]
fn net_rule_value_comma_separated() {
    let rules = parse_net_rule_value("allow@host:tcp:9999,deny@public").unwrap();
    assert_eq!(rules.len(), 2);
    assert_eq!(rules[0].destination, "host");
    assert_eq!(rules[0].ports, vec![9999u16]);
    assert_eq!(rules[1].destination, "public");
    assert_eq!(rules[1].action, ConfigAction::Deny);
}

#[test]
fn net_rule_value_trims_whitespace() {
    let rules = parse_net_rule_value("allow@host , deny@public").unwrap();
    assert_eq!(rules.len(), 2);
}

#[test]
fn net_rule_spec_missing_at_sign() {
    let err = parse_net_rule_value("allowhost").unwrap_err();
    assert_eq!(err.code, "CONFIG_INVALID");
    assert!(err.message.contains("allowhost"));
}

#[test]
fn net_rule_spec_invalid_action() {
    let err = parse_net_rule_value("permit@host").unwrap_err();
    assert_eq!(err.code, "CONFIG_INVALID");
    assert!(err.message.contains("permit"));
}

#[test]
fn net_rule_spec_invalid_protocol() {
    let err = parse_net_rule_value("allow@host:icmp:9999").unwrap_err();
    assert_eq!(err.code, "CONFIG_INVALID");
    assert!(err.message.contains("icmp"));
}

#[test]
fn net_rule_spec_invalid_port() {
    let err = parse_net_rule_value("allow@host:tcp:nope").unwrap_err();
    assert_eq!(err.code, "CONFIG_INVALID");
    assert!(err.message.contains("nope"));
}

#[test]
fn net_rule_spec_port_zero_accepted() {
    let rules = parse_net_rule_value("allow@host:tcp:0").unwrap();
    assert_eq!(rules[0].ports, vec![0u16]);
}

#[test]
fn net_rule_port_range_ends_at_65535() {
    assert_eq!(parse_net_rule_value("allow@h:tcp:65535").unwrap()[0].ports, vec![65535u16]);
    let err = parse_net_rule_value("allow@h:tcp:65536").unwrap_err();
    assert_eq!(
        err.message,
        "unknown port '65536' in --net-rule 'allow@h:tcp:65536'; expected a number from 0 to 65535"
    );
}

#[test]
fn net_rule_first_wrong_spec_decides() {
    let err = parse_net_rule_value("allow@a,bad,permit@b").unwrap_err();
    assert_eq!(
        err.message,
        "--net-rule 'bad' must be in action@destination[:proto[:port]] format"
    );
}

#[test]
fn net_rules_of_all_options_in_order() {
    let values = vec!["allow@a,allow@b".to_string(), "deny@c:udp".to_string()];
    let rules = parse_net_rules(&values).unwrap();
    let names: Vec<&str> = rules.iter().map(|r| r.destination.as_str()).collect();
    assert_eq!(names, vec!["a", "b", "c"]);
    assert!(rules.iter().all(|r| r.direction == ConfigDirection::Egress));
}

#[test]
fn default_actions_are_read() {
    assert_eq!(parse_action("allow"), ConfigAction::Allow);
    assert_eq!(parse_action("deny"), ConfigAction::Deny);
    assert_eq!(to_sdk_action(ConfigAction::Allow), Action::Allow);
    assert_eq!(to_sdk_action(ConfigAction::Deny), Action::Deny);
}

// ── Destinations ─────────────────────────────────────────────────────────────

#[test]
fn addresses_are_told_from_names() {
    for yes in ["10.0.0.1", "::1", "2001:db8::8a2e:370:7334", "::ffff:1.2.3.4"] {
        assert!(is_ip_address(yes), "{yes}");
    }
    for no in ["10.0.0", "256.1.1.1", "example.com", "", "1.2.3.4/8", "01.2.3.4", ":::1"] {
        assert!(!is_ip_address(no), "{no}");
    }
}

#[test]
fn destinations_are_classified() {
    for (word, group) in [
        ("public", DestinationGroup::Public),
        ("private", DestinationGroup::Private),
        ("host", DestinationGroup::Host),
        ("loopback", DestinationGroup::Loopback),
        ("link_local", DestinationGroup::LinkLocal),
        ("metadata", DestinationGroup::Metadata),
        ("multicast", DestinationGroup::Multicast),
    ] {
        assert!(matches!(classify_destination(word, false), RuleTarget::Group(g) if g == group));
    }
    assert!(matches!(classify_destination("any", false), RuleTarget::Any));
    assert!(matches!(classify_destination("10.0.0.0/8", false), RuleTarget::Cidr(s) if s == "10.0.0.0/8"));
    assert!(matches!(classify_destination("1.2.3.4", true), RuleTarget::Ip(s) if s == "1.2.3.4"));
    assert!(matches!(classify_destination("*.a.b", false), RuleTarget::DomainSuffix(s) if s == "a.b"));
    assert!(matches!(classify_destination("a.b", false), RuleTarget::Domain(s) if s == "a.b"));
}

// ── Policies ─────────────────────────────────────────────────────────────────

fn public_only_matches() {
    let built = apply_named_policy(NetworkPolicy::builder(), "public-only", &Table::new(), None)
        .unwrap()
        .build()
        .unwrap();
    let preset = NetworkPolicy::public_only();
    assert_eq!(built.default_egress, preset.default_egress);
    assert_eq!(built.default_ingress, preset.default_ingress);
    assert_eq!(built.rules.len(), preset.rules.len(), "rule count must match");
    for (i, (built_rule, preset_rule)) in built.rules.iter().zip(preset.rules.iter()).enumerate() {
        assert_eq!(built_rule.direction, preset_rule.direction, "rule {i} direction");
        assert_eq!(built_rule.action, preset_rule.action, "rule {i} action");
        assert_eq!(built_rule.protocols, preset_rule.protocols, "rule {i} protocols");
        assert_eq!(built_rule.ports, preset_rule.ports, "rule {i} ports");
        match (&built_rule.destination, &preset_rule.destination) {
            (Destination::Group(bg), Destination::Group(pg)) => {
                assert_eq!(bg, pg, "rule {i} destination group")
            }
            _ => panic!("rule {i}: expected Group destination"),
        }
    }
}

#[test]
fn sandbox_public_only_builtin_matches_sdk_preset() {
    public_only_matches();
}

#[test]
fn tests_public_only_builtin_matches_sdk_preset() {
    public_only_matches();
}

fn domain_egress() {
    let r = rule(
        ConfigDirection::Egress,
        ConfigAction::Allow,
        "api.example.com",
        Some(ConfigProtocol::Tcp),
        vec![443],
    );
    let policy = apply_rule(NetworkPolicy::builder(), &r).unwrap().build().unwrap();
    assert_eq!(policy.rules.len(), 1);
    assert_eq!(policy.rules[0].direction, Direction::Egress);
    assert_eq!(policy.rules[0].action, Action::Allow);
    assert_eq!(policy.rules[0].protocols, vec![Protocol::Tcp]);
}

#[test]
fn sandbox_apply_rule_domain_egress_builds_ok() {
    domain_egress();
}

#[test]
fn tests_apply_rule_domain_egress_builds_ok() {
    domain_egress();
}

#[test]
fn apply_rule_wildcard_domain_uses_suffix() {
    let r = rule(
        ConfigDirection::Egress,
        ConfigAction::Allow,
        "*.example.com",
        Some(ConfigProtocol::Tcp),
        vec![443],
    );
    let policy = apply_rule(NetworkPolicy::builder(), &r).unwrap().build().unwrap();
    assert_eq!(policy.rules.len(), 1);
    assert_eq!(policy.rules[0].action, Action::Allow);
    let dest = format!("{:?}", policy.rules[0].destination);
    assert!(
        dest.contains("example.com") && !dest.contains("*.example.com"),
        "expected suffix destination, got: {dest}"
    );
}

fn cidr_deny() {
    let r = rule(ConfigDirection::Any, ConfigAction::Deny, "10.0.0.0/8", None, vec![]);
    let policy = apply_rule(NetworkPolicy::builder(), &r).unwrap().build().unwrap();
    assert_eq!(policy.rules.len(), 1);
    assert_eq!(policy.rules[0].direction, Direction::Any);
    assert_eq!(policy.rules[0].action, Action::Deny);
}

#[test]
fn sandbox_apply_rule_cidr_deny_builds_ok() {
    cidr_deny();
}

#[test]
fn tests_apply_rule_cidr_deny_builds_ok() {
    cidr_deny();
}

fn named_from_file() {
    let named = NamedPolicy {
        default_egress: Some(ConfigAction::Deny),
        default_ingress: Some(ConfigAction::Allow),
        rules: vec![egress_allow("public")],
    };
    let mut policies = Table::new();
    policies.insert("my-policy".to_string(), named);
    let policy = apply_named_policy(
        NetworkPolicy::builder(),
        "my-policy",
        &policies,
        Some("/test/network-policy.d"),
    )
    .unwrap()
    .build()
    .unwrap();
    assert_eq!(policy.default_egress, Action::Deny);
    assert_eq!(policy.default_ingress, Action::Allow);
    assert_eq!(policy.rules.len(), 1);
    assert_eq!(policy.rules[0].action, Action::Allow);
    assert_eq!(policy.rules[0].direction, Direction::Egress);
}

#[test]
fn sandbox_apply_named_policy_from_file() {
    named_from_file();
}

#[test]
fn tests_apply_named_policy_from_file() {
    named_from_file();
}

fn unknown_builtin() {
    let err = apply_named_policy(NetworkPolicy::builder(), "unknown-policy", &Table::new(), None)
        .unwrap_err();
    assert_eq!(err.code, "CONFIG_INVALID");
    assert!(err.message.contains("unknown-policy"));
}

#[test]
fn sandbox_apply_named_policy_unknown_builtin_returns_error() {
    unknown_builtin();
}

#[test]
fn tests_apply_named_policy_unknown_builtin_returns_error() {
    unknown_builtin();
}

fn unknown_in_file() {
    let mut policies = Table::new();
    policies.insert("other-policy".to_string(), bare_policy());
    let err = apply_named_policy(
        NetworkPolicy::builder(),
        "my-missing-policy",
        &policies,
        Some("/test/network-policy.d"),
    )
    .unwrap_err();
    assert_eq!(err.code, "CONFIG_INVALID");
    assert!(err.message.contains("my-missing-policy"));
    assert_eq!(
        err.message,
        "unknown network policy 'my-missing-policy'; create /test/network-policy.d/my-missing-policy.toml with the policy definition"
    );
}

#[test]
fn sandbox_apply_named_policy_unknown_in_file_returns_error() {
    unknown_in_file();
}

#[test]
fn tests_apply_named_policy_unknown_in_file_returns_error() {
    unknown_in_file();
}

fn builtin_with_file() {
    let mut policies = Table::new();
    policies.insert("custom".to_string(), bare_policy());
    for name in ["none", "allow-all", "public-only"] {
        apply_named_policy(
            NetworkPolicy::builder(),
            name,
            &policies,
            Some("/test/network-policy.d"),
        )
        .unwrap_or_else(|e| panic!("built-in '{name}' failed with file present: {e:?}"));
    }
}

#[test]
fn sandbox_apply_named_policy_builtin_works_with_file_present() {
    builtin_with_file();
}

#[test]
fn tests_apply_named_policy_builtin_works_with_file_present() {
    builtin_with_file();
}

#[test]
fn builtin_names_are_reserved_and_not_shadowed() {
    for name in ["none", "allow-all", "public-only"] {
        assert!(is_reserved_name(name));
    }
    assert!(!is_reserved_name("mine"));
    let mut policies = Table::new();
    policies.insert(
        "none".to_string(),
        NamedPolicy {
            default_egress: Some(ConfigAction::Allow),
            default_ingress: Some(ConfigAction::Allow),
            rules: vec![egress_allow("any")],
        },
    );
    let p = apply_named_policy(NetworkPolicy::builder(), "none", &policies, None)
        .unwrap()
        .build()
        .unwrap();
    assert_eq!(p.default_egress, Action::Deny);
    assert_eq!(p.default_ingress, Action::Deny);
    assert!(p.rules.is_empty());
    let p = apply_named_policy(NetworkPolicy::builder(), "allow-all", &policies, None)
        .unwrap()
        .build()
        .unwrap();
    assert_eq!(p.default_egress, Action::Allow);
    assert_eq!(p.default_ingress, Action::Allow);
}

#[test]
fn every_kind_of_rule_reaches_the_policy() {
    for (action, sdk) in [(ConfigAction::Allow, Action::Allow), (ConfigAction::Deny, Action::Deny)] {
        for (destination, shown) in [
            ("any", "Any"),
            ("multicast", "Group(Multicast)"),
            ("metadata", "Group(Metadata)"),
            ("10.1.2.3", "10.1.2.3"),
            ("fe80::/10", "fe80::"),
            ("Example.COM", "example.com"),
            ("*.example.org", "example.org"),
        ] {
            let r = rule(ConfigDirection::Ingress, action, destination, Some(ConfigProtocol::Udp), vec![7, 9, 7]);
            let p = apply_rule(NetworkPolicy::builder(), &r).unwrap().build().unwrap();
            assert_eq!(p.rules.len(), 1);
            assert_eq!(p.rules[0].action, sdk);
            assert_eq!(p.rules[0].direction, Direction::Ingress);
            assert_eq!(p.rules[0].protocols, vec![Protocol::Udp]);
            let ports: Vec<u16> = p.rules[0].ports.iter().map(|r| r.start).collect();
            assert_eq!(ports, vec![7u16, 9u16]);
            let dest = format!("{:?}", p.rules[0].destination);
            if destination == "10.1.2.3" || destination == "fe80::/10" {
                assert!(matches!(&p.rules[0].destination, Destination::Cidr(n) if n.to_string().starts_with(shown)));
            } else {
                assert!(dest.contains(shown), "{dest}");
            }
        }
    }
}

#[test]
fn policy_layers_in_order() {
    let mut policies = Table::new();
    policies.insert(
        "base".to_string(),
        NamedPolicy {
            default_egress: Some(ConfigAction::Allow),
            default_ingress: Some(ConfigAction::Deny),
            rules: vec![egress_allow("named.example")],
        },
    );
    let net = NetworkConfig {
        policy: Some("base".to_string()),
        default_egress: Some(ConfigAction::Deny),
        default_ingress: None,
        rules: vec![egress_allow("config.example")],
    };
    let cli = CliNetOptions {
        rules: vec![egress_allow("cli.example")],
        default_egress: Some(ConfigAction::Allow),
        default_ingress: None,
    };
    let p = build_network_policy(&net, &cli, &policies, None).unwrap();
    assert_eq!(p.default_egress, Action::Allow);
    assert_eq!(p.default_ingress, Action::Deny);
    let names: Vec<String> = p.rules.iter().map(|r| format!("{:?}", r.destination)).collect();
    assert_eq!(names.len(), 3);
    assert!(names[0].contains("named.example"));
    assert!(names[1].contains("config.example"));
    assert!(names[2].contains("cli.example"));
    let p = build_network_policy(&net, &no_cli(), &policies, None).unwrap();
    assert_eq!(p.default_egress, Action::Deny);
}

#[test]
fn policy_without_settings_has_the_builders_defaults() {
    let p = build_network_policy(&NetworkConfig::default(), &no_cli(), &Table::new(), None).unwrap();
    assert_eq!(p.default_egress, Action::Deny);
    assert_eq!(p.default_ingress, Action::Allow);
    assert!(p.rules.is_empty());
}

#[test]
fn policy_that_cannot_be_built_is_refused() {
    let mut net = NetworkConfig::default();
    net.rules = vec![egress_allow("any"), egress_allow("10.0.0.0/99")];
    let err = build_network_policy(&net, &no_cli(), &Table::new(), None).unwrap_err();
    assert_eq!(err.code, "CONFIG_INVALID");
    assert_eq!(err.message, "invalid network policy: rule #1: invalid CIDR `10.0.0.0/99`");
    let mut net = NetworkConfig::default();
    net.policy = Some("gone".to_string());
    let err = build_network_policy(&net, &no_cli(), &Table::new(), None).unwrap_err();
    assert_eq!(
        err.message,
        "unknown network policy 'gone'; no network-policy.d/ directory found; built-ins are: none, allow-all, public-only"
    );
}

#[test]
fn policies_that_cannot_be_built() {
    let err = policy_error("why");
    assert_eq!((err.code, err.message.as_str()), ("CONFIG_INVALID", "invalid network policy: why"));
}

#[test]
fn network_options_are_noticed() {
    assert!(!NetworkConfig::default().has_config());
    assert!(!no_cli().has_config());
    let mut net = NetworkConfig::default();
    net.policy = Some("none".to_string());
    assert!(net.has_config());
    let mut cli = no_cli();
    cli.default_ingress = Some(ConfigAction::Deny);
    assert!(cli.has_config());
    let mut cli = no_cli();
    cli.rules = vec![egress_allow("any")];
    assert!(cli.has_config());
}
