//! A sandbox's network policy: a named policy, then the configured rules, then those of the
//! command line.

use crate::config::merge::prefer;
use crate::config::{
    ConfigAction, ConfigDirection, ConfigProtocol, NamedPolicy, NetworkConfig, NetworkRule,
};
use crate::error::{failure, fault, Failure, SodagunError};
use crate::network::rule::{
    append_rule, group_named, rule_draft, sketch, sketch_rule, sketched, with_ports, with_protocols,
    RuleSketch, RuleTarget,
};
use crate::network::sdk::{
    action_model, build_complaint, buildable, built, empty_draft, empty_state, endpoint,
    finish_policy, is_address, policy_draft, policy_model, sound_rule, PolicyDraft, RuleDraft,
    Target, Transport,
};
use crate::table::Table;
use crate::text::{has_char, opt_str, same_text};
use microsandbox_network::policy::{Action, DestinationGroup, NetworkPolicy, NetworkPolicyBuilder};
use vstd::prelude::*;

verus! {

/// Network options of the command line.
#[derive(Debug)]
pub struct CliNetOptions {
    pub rules: Vec<NetworkRule>,
    pub default_egress: Option<ConfigAction>,
    pub default_ingress: Option<ConfigAction>,
}

impl CliNetOptions {
    /// Whether any option was given.
    pub open spec fn configured(&self) -> bool {
        ||| self.rules@.len() > 0
        ||| self.default_egress is Some
        ||| self.default_ingress is Some
    }

    /// Whether any option was given.
    pub fn has_config(&self) -> (r: bool)
        ensures
            r == self.configured(),
    {
        self.rules.len() > 0 || self.default_egress.is_some() || self.default_ingress.is_some()
    }
}

// ── Models ────────────────────────────────────────────────────────────────────

/// Whether a name is that of a built-in policy, which no file can redefine.
pub open spec fn reserved_name(name: Seq<char>) -> bool {
    name == "none"@ || name == "allow-all"@ || name == "public-only"@
}

/// The rules that configured rules stand for.
pub open spec fn drafts(rules: Seq<NetworkRule>) -> Seq<RuleDraft> {
    Seq::new(rules.len(), |i: int| rule_draft(rules[i]))
}

/// Name resolution: UDP and TCP to port 53 of the host.
pub open spec fn dns_rule() -> RuleDraft {
    RuleDraft {
        direction: Some(ConfigDirection::Egress),
        target: Target::Group(DestinationGroup::Host),
        protocols: seq![Transport::Udp, Transport::Tcp],
        ports: seq![(53u16, 53u16)],
        action: ConfigAction::Allow,
    }
}

/// Everything to the public internet.
pub open spec fn public_rule() -> RuleDraft {
    RuleDraft {
        direction: Some(ConfigDirection::Egress),
        target: Target::Group(DestinationGroup::Public),
        protocols: Seq::empty(),
        ports: Seq::empty(),
        action: ConfigAction::Allow,
    }
}

/// The policy `d` after a built-in policy was applied to it.
pub open spec fn with_builtin(d: PolicyDraft, name: Seq<char>) -> PolicyDraft {
    if name == "none"@ {
        PolicyDraft { egress: Some(ConfigAction::Deny), ingress: Some(ConfigAction::Deny), ..d }
    } else if name == "allow-all"@ {
        PolicyDraft { egress: Some(ConfigAction::Allow), ingress: Some(ConfigAction::Allow), ..d }
    } else {
        PolicyDraft { rules: d.rules + seq![dns_rule(), public_rule()], ..d }
    }
}

/// The policy `d` after defaults and rules were added to it.
pub open spec fn with_settings(
    d: PolicyDraft,
    egress: Option<ConfigAction>,
    ingress: Option<ConfigAction>,
    rules: Seq<NetworkRule>,
) -> PolicyDraft {
    PolicyDraft {
        egress: prefer(egress, d.egress),
        ingress: prefer(ingress, d.ingress),
        rules: d.rules + drafts(rules),
        ..d
    }
}

/// The policy `d` after the policy called `name` was applied to it.
pub open spec fn with_named(
    d: PolicyDraft,
    name: Seq<char>,
    policies: Map<Seq<char>, NamedPolicy>,
) -> PolicyDraft {
    if reserved_name(name) {
        with_builtin(d, name)
    } else {
        let p = policies[name];
        with_settings(d, p.default_egress, p.default_ingress, p.rules@)
    }
}

/// Whether there is a policy called `name`.
pub open spec fn known_name(name: Seq<char>, policies: Map<Seq<char>, NamedPolicy>) -> bool {
    reserved_name(name) || policies.dom().contains(name)
}

/// What a name without a policy is answered with; `dir` is the directory of policy files.
pub open spec fn unknown_policy(name: Seq<char>, dir: Option<Seq<char>>) -> Failure {
    failure(
        "CONFIG_INVALID"@,
        match dir {
            Some(d) => "unknown network policy '"@ + name + "'; create "@ + d + "/"@ + name
                + ".toml with the policy definition"@,
            None => "unknown network policy '"@ + name
                + "'; no network-policy.d/ directory found; built-ins are: none, allow-all, public-only"@,
        },
    )
}

/// What a policy that cannot be built is answered with.
pub open spec fn invalid_policy(why: Seq<char>) -> Failure {
    failure("CONFIG_INVALID"@, "invalid network policy: "@ + why)
}

/// Whether the policy that a configuration names, if any, exists.
pub open spec fn policy_known(net: NetworkConfig, policies: Map<Seq<char>, NamedPolicy>) -> bool {
    match net.policy {
        Some(name) => known_name(name@, policies),
        None => true,
    }
}

/// What the named policy of a configuration contributes.
pub open spec fn named_part(
    net: NetworkConfig,
    policies: Map<Seq<char>, NamedPolicy>,
) -> PolicyDraft {
    match net.policy {
        Some(name) => with_named(empty_draft(), name@, policies),
        None => empty_draft(),
    }
}

/// The whole policy: named policy, configuration, command line.
pub open spec fn policy_plan(
    net: NetworkConfig,
    cli: CliNetOptions,
    policies: Map<Seq<char>, NamedPolicy>,
) -> PolicyDraft {
    with_settings(
        with_settings(
            named_part(net, policies),
            net.default_egress,
            net.default_ingress,
            net.rules@,
        ),
        cli.default_egress,
        cli.default_ingress,
        cli.rules@,
    )
}

// ── Code ──────────────────────────────────────────────────────────────────────

/// The builder's name for an action.
pub fn to_sdk_action(action: ConfigAction) -> (r: Action)
    ensures
        action_model(r) == action,
{
    match action {
        ConfigAction::Allow => Action::Allow,
        ConfigAction::Deny => Action::Deny,
    }
}

/// Whether a name is that of a built-in policy.
pub fn is_reserved_name(name: &str) -> (r: bool)
    ensures
        r == reserved_name(name@),
{
    same_text(name, "none") || same_text(name, "allow-all") || same_text(name, "public-only")
}

/// Adds a sketch to a policy.
fn add_sketch(b: NetworkPolicyBuilder, k: &RuleSketch) -> (r: NetworkPolicyBuilder)
    ensures
        policy_draft(r) == (PolicyDraft {
            rules: policy_draft(b).rules.push(sketch_rule(*k)),
            ..policy_draft(b)
        }),
{
    let r = append_rule(b, k);
    proof {
        let before = policy_draft(b);
        let batch = sketched(empty_state(), *k);
        assert(batch.rules =~= seq![sketch_rule(*k)]);
        assert(before.rules + batch.rules =~= before.rules.push(sketch_rule(*k)));
        assert(before.faults + batch.faults =~= before.faults);
    }
    r
}

/// Adds a configured rule to a policy.
pub fn apply_rule(b: NetworkPolicyBuilder, rule: &NetworkRule) -> (r: Result<
    NetworkPolicyBuilder,
    SodagunError,
>)
    ensures
        r is Ok,
        policy_draft(r->Ok_0) == (PolicyDraft {
            rules: policy_draft(b).rules.push(rule_draft(*rule)),
            ..policy_draft(b)
        }),
{
    Ok(add_sketch(b, &sketch(rule)))
}

/// Adds configured rules to a policy, in their order.
fn apply_rules(b: NetworkPolicyBuilder, rules: &Vec<NetworkRule>) -> (r: Result<
    NetworkPolicyBuilder,
    SodagunError,
>)
    ensures
        r is Ok,
        policy_draft(r->Ok_0) == (PolicyDraft {
            rules: policy_draft(b).rules + drafts(rules@),
            ..policy_draft(b)
        }),
{
    let ghost start = policy_draft(b);
    let mut b = b;
    let mut i: usize = 0;
    assert(start.rules + drafts(rules@.take(0)) =~= start.rules);
    while i < rules.len()
        invariant
            i <= rules.len(),
            policy_draft(b) == (PolicyDraft {
                rules: start.rules + drafts(rules@.take(i as int)),
                ..start
            }),
        decreases rules.len() - i,
    {
        b = apply_rule(b, &rules[i])?;
        assert((start.rules + drafts(rules@.take(i as int))).push(rule_draft(rules@[i as int]))
            =~= start.rules + drafts(rules@.take(i + 1)));
        i += 1;
    }
    assert(rules@.take(i as int) =~= rules@);
    Ok(b)
}

/// Sets the defaults that are given.
fn apply_defaults(
    b: NetworkPolicyBuilder,
    egress: Option<ConfigAction>,
    ingress: Option<ConfigAction>,
) -> (r: NetworkPolicyBuilder)
    ensures
        policy_draft(r) == (PolicyDraft {
            egress: prefer(egress, policy_draft(b).egress),
            ingress: prefer(ingress, policy_draft(b).ingress),
            ..policy_draft(b)
        }),
{
    let b = match egress {
        Some(a) => b.default_egress(to_sdk_action(a)),
        None => b,
    };
    match ingress {
        Some(a) => b.default_ingress(to_sdk_action(a)),
        None => b,
    }
}

/// Applies the policy called `name`. The built-in names are looked at first, so that no file can
/// redefine them; other names are looked up in `policies`, which came from the directory `dir`.
pub fn apply_named_policy(
    b: NetworkPolicyBuilder,
    name: &str,
    policies: &Table<NamedPolicy>,
    dir: Option<&str>,
) -> (r: Result<NetworkPolicyBuilder, SodagunError>)
    ensures
        match r {
            Ok(b2) => {
                &&& known_name(name@, policies@)
                &&& policy_draft(b2) == with_named(policy_draft(b), name@, policies@)
            },
            Err(e) => {
                &&& !known_name(name@, policies@)
                &&& e@ == unknown_policy(
                    name@,
                    opt_str(dir),
                )
            },
        },
{
    if same_text(name, "none") {
        return Ok(b.default_deny());
    }
    proof {
        reveal_strlit("none");
        reveal_strlit("allow-all");
        reveal_strlit("public-only");
        assert("none"@.len() == 4 && "allow-all"@.len() == 9 && "public-only"@.len() == 11);
    }
    if same_text(name, "allow-all") {
        return Ok(b.default_allow());
    }
    if same_text(name, "public-only") {
        return Ok(allow_public_internet(b));
    }
    match policies.get(name) {
        Some(p) => {
            let b = apply_defaults(b, p.default_egress, p.default_ingress);
            apply_rules(b, &p.rules)
        },
        None => {
            let start = "unknown network policy '".to_owned().concat(name);
            let message = match dir {
                Some(d) => start.concat("'; create ").concat(d).concat("/").concat(name).concat(
                    ".toml with the policy definition",
                ),
                None => start.concat(
                    "'; no network-policy.d/ directory found; built-ins are: none, allow-all, public-only",
                ),
            };
            Err(fault("CONFIG_INVALID", message))
        },
    }
}

/// Adds what the built-in policy `public-only` allows.
fn allow_public_internet(b: NetworkPolicyBuilder) -> (r: NetworkPolicyBuilder)
    ensures
        policy_draft(r) == with_builtin(policy_draft(b), "public-only"@),
{
    let ghost start = policy_draft(b);
    let mut dns_protocols: Vec<ConfigProtocol> = Vec::new();
    dns_protocols.push(ConfigProtocol::Udp);
    dns_protocols.push(ConfigProtocol::Tcp);
    let mut dns_ports: Vec<u16> = Vec::new();
    dns_ports.push(53);
    let dns = RuleSketch {
        direction: ConfigDirection::Egress,
        protocols: dns_protocols,
        ports: dns_ports,
        action: ConfigAction::Allow,
        target: RuleTarget::Group(DestinationGroup::Host),
    };
    let public = RuleSketch {
        direction: ConfigDirection::Egress,
        protocols: Vec::new(),
        ports: Vec::new(),
        action: ConfigAction::Allow,
        target: RuleTarget::Group(DestinationGroup::Public),
    };
    let b = add_sketch(b, &dns);
    let b = add_sketch(b, &public);
    proof {
        reveal_strlit("none");
        reveal_strlit("allow-all");
        reveal_strlit("public-only");
        assert("none"@.len() == 4 && "allow-all"@.len() == 9 && "public-only"@.len() == 11);
        reveal_with_fuel(with_protocols, 3);
        reveal_with_fuel(with_ports, 2);
        assert(dns_protocols@.drop_last() =~= seq![ConfigProtocol::Udp]);
        assert(sketch_rule(dns).protocols =~= dns_rule().protocols);
        assert(sketch_rule(dns).ports =~= dns_rule().ports);
        assert(sketch_rule(public).protocols =~= public_rule().protocols);
        assert(sketch_rule(public).ports =~= public_rule().ports);
        assert(start.rules.push(dns_rule()).push(public_rule()) =~= start.rules + seq![
            dns_rule(),
            public_rule(),
        ]);
    }
    b
}

/// The error for a policy that cannot be built.
pub fn policy_error(why: &str) -> (e: SodagunError)
    ensures
        e@ == invalid_policy(why@),
{
    fault("CONFIG_INVALID", "invalid network policy: ".to_owned().concat(why))
}

/// Builds the policy of a sandbox. Rules keep their order: named policy, configuration, command
/// line. Of the defaults the command line's win over the configuration's, and these over those
/// of the named policy.
pub fn build_network_policy(
    net: &NetworkConfig,
    cli: &CliNetOptions,
    policies: &Table<NamedPolicy>,
    dir: Option<&str>,
) -> (r: Result<NetworkPolicy, SodagunError>)
    ensures
        match r {
            Ok(p) => {
                &&& policy_known(*net, policies@)
                &&& buildable(policy_plan(*net, *cli, policies@))
                &&& policy_model(p) == built(policy_plan(*net, *cli, policies@))
            },
            Err(e) => if policy_known(*net, policies@) {
                &&& !buildable(policy_plan(*net, *cli, policies@))
                &&& e@ == invalid_policy(build_complaint(policy_plan(*net, *cli, policies@)))
            } else {
                e@ == unknown_policy(
                    net.policy->0@,
                    opt_str(dir),
                )
            },
        },
{
    let b = NetworkPolicy::builder();
    let b = match &net.policy {
        Some(name) => match apply_named_policy(b, name.as_str(), policies, dir) {
            Ok(b) => b,
            Err(e) => return Err(e),
        },
        None => b,
    };
    let b = match apply_rules(b, &net.rules) {
        Ok(b) => b,
        Err(e) => return Err(e),
    };
    let b = match apply_rules(b, &cli.rules) {
        Ok(b) => b,
        Err(e) => return Err(e),
    };
    let b = apply_defaults(b, net.default_egress, net.default_ingress);
    let b = apply_defaults(b, cli.default_egress, cli.default_ingress);
    match finish_policy(b) {
        Ok(p) => Ok(p),
        Err(text) => Err(policy_error(text.as_str())),
    }
}

// ── Laws ──────────────────────────────────────────────────────────────────────

/// Rules are tried in this order: those of the named policy, those of the configuration, those of
/// the command line.
pub proof fn law_rule_order(
    net: NetworkConfig,
    cli: CliNetOptions,
    policies: Map<Seq<char>, NamedPolicy>,
)
    ensures
        policy_plan(net, cli, policies).rules == named_part(net, policies).rules + drafts(
            net.rules@,
        ) + drafts(cli.rules@),
{
}

/// A default of the command line wins over one of the configuration, that over one of the named
/// policy; where none is set, egress is denied and ingress allowed.
pub proof fn law_default_order(
    net: NetworkConfig,
    cli: CliNetOptions,
    policies: Map<Seq<char>, NamedPolicy>,
)
    ensures
        built(policy_plan(net, cli, policies)).egress == match prefer(
            cli.default_egress,
            prefer(net.default_egress, named_part(net, policies).egress),
        ) {
            Some(a) => a,
            None => ConfigAction::Deny,
        },
        built(policy_plan(net, cli, policies)).ingress == match prefer(
            cli.default_ingress,
            prefer(net.default_ingress, named_part(net, policies).ingress),
        ) {
            Some(a) => a,
            None => ConfigAction::Allow,
        },
{
}

/// A built-in policy means the same whatever policies a user has.
pub proof fn law_builtin_not_shadowed(
    d: PolicyDraft,
    name: Seq<char>,
    mine: Map<Seq<char>, NamedPolicy>,
    yours: Map<Seq<char>, NamedPolicy>,
)
    requires
        reserved_name(name),
    ensures
        known_name(name, mine),
        with_named(d, name, mine) == with_named(d, name, yours),
{
}

/// A rule for a group, for everything or for an IP address can always be built.
pub proof fn law_plain_rule_is_sound(rule: NetworkRule)
    requires
        ({
            ||| group_named(rule.destination@) is Some
            ||| rule.destination@ == "any"@
            ||| !has_char(rule.destination@, '/') && is_address(rule.destination@)
        }),
    ensures
        sound_rule(rule_draft(rule)),
{
    lemma_rule_shape(rule);
}

/// A configured rule has a direction and is never limited to ICMP, so that only its destination
/// can keep it from being built.
pub proof fn lemma_rule_shape(rule: NetworkRule)
    ensures
        sound_rule(rule_draft(rule)) <==> endpoint(rule_draft(rule).target) is Some,
{
    let p = rule_draft(rule).protocols;
    assert(!p.contains(Transport::Icmpv4) && !p.contains(Transport::Icmpv6));
}

/// A policy can be built exactly where the named policy exists and every destination can be read.
pub proof fn law_policy_builds_iff_destinations_read(
    net: NetworkConfig,
    cli: CliNetOptions,
    policies: Map<Seq<char>, NamedPolicy>,
)
    requires
        policy_known(net, policies),
    ensures
        buildable(policy_plan(net, cli, policies)) <==> forall|i: int|
            0 <= i < policy_plan(net, cli, policies).rules.len() ==> endpoint(
                (#[trigger] policy_plan(net, cli, policies).rules[i]).target,
            ) is Some,
{
    let plan = policy_plan(net, cli, policies);
    let named = named_part(net, policies);
    assert forall|i: int| 0 <= i < plan.rules.len() implies (sound_rule(#[trigger] plan.rules[i])
        <==> endpoint(plan.rules[i].target) is Some) by {
        let a = named.rules.len();
        let c = net.rules@.len();
        if i < a {
            if reserved_name(net.policy->0@) {
                let own = seq![dns_rule(), public_rule()];
                assert(named.rules[i] == own[i]);
                assert(!dns_rule().protocols.contains(Transport::Icmpv4));
                assert(!dns_rule().protocols.contains(Transport::Icmpv6));
            } else {
                let p = policies[net.policy->0@];
                assert(named.rules[i] == drafts(p.rules@)[i]);
                lemma_rule_shape(p.rules@[i]);
            }
        } else if i < a + c {
            assert(plan.rules[i] == drafts(net.rules@)[i - a]);
            lemma_rule_shape(net.rules@[i - a]);
        } else {
            assert(plan.rules[i] == drafts(cli.rules@)[i - a - c]);
            lemma_rule_shape(cli.rules@[i - a - c]);
        }
    }
    assert(plan.faults.len() == 0);
}

} // verus!
