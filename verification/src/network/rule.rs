//! One rule of a network policy: what its destination means, and how it is given to a builder.

use crate::config::{ConfigAction, ConfigDirection, ConfigProtocol, NetworkRule};
use crate::network::sdk::{
    allow_any, allow_cidr, allow_domain, allow_domain_suffix, allow_group, allow_ip, committed,
    deny_any, deny_cidr, deny_domain, deny_domain_suffix, deny_group, deny_ip, empty_state,
    finish_policy, is_address, policy_draft, rule_state, with_batch, with_once, RuleDraft,
    RuleState, Target, Transport,
};
use crate::text::{contains_char, has_char, has_prefix, part, same_text, starts_with};
use microsandbox_network::policy::{
    DestinationGroup, NetworkPolicy, NetworkPolicyBuilder, RuleBuilder,
};
use vstd::prelude::*;

verus! {

/// What a rule matches.
#[derive(Debug)]
pub enum RuleTarget {
    Any,
    Group(DestinationGroup),
    Ip(String),
    Cidr(String),
    Domain(String),
    /// The domain itself and everything below it.
    DomainSuffix(String),
}

impl View for RuleTarget {
    type V = Target;

    open spec fn view(&self) -> Target {
        match self {
            RuleTarget::Any => Target::Any,
            RuleTarget::Group(g) => Target::Group(*g),
            RuleTarget::Ip(t) => Target::Ip(t@),
            RuleTarget::Cidr(t) => Target::Cidr(t@),
            RuleTarget::Domain(t) => Target::Domain(t@),
            RuleTarget::DomainSuffix(t) => Target::DomainSuffix(t@),
        }
    }
}

/// A rule ready to be given to a builder.
#[derive(Debug)]
pub struct RuleSketch {
    pub direction: ConfigDirection,
    pub protocols: Vec<ConfigProtocol>,
    pub ports: Vec<u16>,
    pub action: ConfigAction,
    pub target: RuleTarget,
}

// ── Models ────────────────────────────────────────────────────────────────────

/// The group that a destination names.
pub open spec fn group_named(d: Seq<char>) -> Option<DestinationGroup> {
    if d == "public"@ {
        Some(DestinationGroup::Public)
    } else if d == "private"@ {
        Some(DestinationGroup::Private)
    } else if d == "host"@ {
        Some(DestinationGroup::Host)
    } else if d == "loopback"@ {
        Some(DestinationGroup::Loopback)
    } else if d == "link_local"@ {
        Some(DestinationGroup::LinkLocal)
    } else if d == "metadata"@ {
        Some(DestinationGroup::Metadata)
    } else if d == "multicast"@ {
        Some(DestinationGroup::Multicast)
    } else {
        None
    }
}

/// What a destination means, `address` saying whether it is an IP address: a group's name, `any`,
/// a network if it holds a `/`, an address, `*.` and a domain for all below the domain, and a
/// domain otherwise.
pub open spec fn target_meant(d: Seq<char>, address: bool) -> Target {
    match group_named(d) {
        Some(g) => Target::Group(g),
        None => if d == "any"@ {
            Target::Any
        } else if has_char(d, '/') {
            Target::Cidr(d)
        } else if address {
            Target::Ip(d)
        } else if starts_with(d, "*."@) {
            Target::DomainSuffix(d.skip(2))
        } else {
            Target::Domain(d)
        },
    }
}

/// The builder's name for a protocol.
pub open spec fn transport(p: ConfigProtocol) -> Transport {
    match p {
        ConfigProtocol::Tcp => Transport::Tcp,
        ConfigProtocol::Udp => Transport::Udp,
    }
}

/// `known` with the protocols of `more` added in turn, each once.
pub open spec fn with_protocols(known: Seq<Transport>, more: Seq<ConfigProtocol>) -> Seq<Transport>
    decreases more.len(),
{
    if more.len() == 0 {
        known
    } else {
        with_once(with_protocols(known, more.drop_last()), transport(more.last()))
    }
}

/// `known` with the ports of `more` added in turn, each once.
pub open spec fn with_ports(known: Seq<(u16, u16)>, more: Seq<u16>) -> Seq<(u16, u16)>
    decreases more.len(),
{
    if more.len() == 0 {
        known
    } else {
        with_once(with_ports(known, more.drop_last()), (more.last(), more.last()))
    }
}

/// The batch after a sketch was written to it.
pub open spec fn sketched(s: RuleState, k: RuleSketch) -> RuleState {
    committed(
        RuleState {
            direction: Some(k.direction),
            protocols: with_protocols(s.protocols, k.protocols@),
            ports: with_ports(s.ports, k.ports@),
            ..s
        },
        k.action,
        k.target@,
    )
}

/// The rule that a sketch stands for.
pub open spec fn sketch_rule(k: RuleSketch) -> RuleDraft {
    RuleDraft {
        direction: Some(k.direction),
        target: k.target@,
        protocols: with_protocols(Seq::empty(), k.protocols@),
        ports: with_ports(Seq::empty(), k.ports@),
        action: k.action,
    }
}

/// The protocols that a configured rule is limited to.
pub open spec fn rule_protocols(r: NetworkRule) -> Seq<Transport> {
    match r.protocol {
        Some(p) => seq![transport(p)],
        None => Seq::empty(),
    }
}

/// The rule that a configured rule stands for.
pub open spec fn rule_draft(r: NetworkRule) -> RuleDraft {
    RuleDraft {
        direction: Some(r.direction),
        target: target_meant(r.destination@, is_address(r.destination@)),
        protocols: rule_protocols(r),
        ports: with_ports(Seq::empty(), r.ports@),
        action: r.action,
    }
}

// ── Code ──────────────────────────────────────────────────────────────────────

/// The group that a destination names.
fn named_group(d: &str) -> (r: Option<DestinationGroup>)
    ensures
        r == group_named(d@),
{
    if same_text(d, "public") {
        Some(DestinationGroup::Public)
    } else if same_text(d, "private") {
        Some(DestinationGroup::Private)
    } else if same_text(d, "host") {
        Some(DestinationGroup::Host)
    } else if same_text(d, "loopback") {
        Some(DestinationGroup::Loopback)
    } else if same_text(d, "link_local") {
        Some(DestinationGroup::LinkLocal)
    } else if same_text(d, "metadata") {
        Some(DestinationGroup::Metadata)
    } else if same_text(d, "multicast") {
        Some(DestinationGroup::Multicast)
    } else {
        None
    }
}

/// What a destination means, `address` saying whether it is an IP address.
pub fn classify_destination(d: &str, address: bool) -> (r: RuleTarget)
    ensures
        r@ == target_meant(d@, address),
{
    if let Some(g) = named_group(d) {
        return RuleTarget::Group(g);
    }
    if same_text(d, "any") {
        RuleTarget::Any
    } else if contains_char(d, '/') {
        RuleTarget::Cidr(d.to_owned())
    } else if address {
        RuleTarget::Ip(d.to_owned())
    } else if has_prefix(d, "*.") {
        proof {
            reveal_strlit("*.");
            assert(d@.subrange(2, d@.len() as int) =~= d@.skip(2));
        }
        RuleTarget::DomainSuffix(part(d, 2, d.unicode_len()))
    } else {
        RuleTarget::Domain(d.to_owned())
    }
}

/// Gives a rule with the builder's current settings.
pub fn commit_dest(rb: &mut RuleBuilder, action: ConfigAction, target: &RuleTarget)
    ensures
        rule_state(*final(rb)) == committed(rule_state(*old(rb)), action, target@),
{
    match action {
        ConfigAction::Allow => match target {
            RuleTarget::Any => allow_any(rb),
            RuleTarget::Group(g) => allow_group(rb, *g),
            RuleTarget::Ip(t) => allow_ip(rb, t.as_str()),
            RuleTarget::Cidr(t) => allow_cidr(rb, t.as_str()),
            RuleTarget::Domain(t) => allow_domain(rb, t.as_str()),
            RuleTarget::DomainSuffix(t) => allow_domain_suffix(rb, t.as_str()),
        },
        ConfigAction::Deny => match target {
            RuleTarget::Any => deny_any(rb),
            RuleTarget::Group(g) => deny_group(rb, *g),
            RuleTarget::Ip(t) => deny_ip(rb, t.as_str()),
            RuleTarget::Cidr(t) => deny_cidr(rb, t.as_str()),
            RuleTarget::Domain(t) => deny_domain(rb, t.as_str()),
            RuleTarget::DomainSuffix(t) => deny_domain_suffix(rb, t.as_str()),
        },
    }
}

/// Gives the rule that a sketch stands for.
fn give_rule(rb: &mut RuleBuilder, k: &RuleSketch)
    ensures
        rule_state(*final(rb)) == sketched(rule_state(*old(rb)), *k),
{
    let ghost start = rule_state(*rb);
    match k.direction {
        ConfigDirection::Egress => {
            rb.egress();
        },
        ConfigDirection::Ingress => {
            rb.ingress();
        },
        ConfigDirection::Any => {
            rb.any();
        },
    }
    let mut i: usize = 0;
    while i < k.protocols.len()
        invariant
            i <= k.protocols.len(),
            rule_state(*rb) == (RuleState {
                direction: Some(k.direction),
                protocols: with_protocols(start.protocols, k.protocols@.take(i as int)),
                ..start
            }),
        decreases k.protocols.len() - i,
    {
        assert(k.protocols@.take(i + 1).drop_last() =~= k.protocols@.take(i as int));
        match k.protocols[i] {
            ConfigProtocol::Tcp => {
                rb.tcp();
            },
            ConfigProtocol::Udp => {
                rb.udp();
            },
        }
        i += 1;
    }
    assert(k.protocols@.take(i as int) =~= k.protocols@);
    let mut j: usize = 0;
    while j < k.ports.len()
        invariant
            j <= k.ports.len(),
            rule_state(*rb) == (RuleState {
                direction: Some(k.direction),
                protocols: with_protocols(start.protocols, k.protocols@),
                ports: with_ports(start.ports, k.ports@.take(j as int)),
                ..start
            }),
        decreases k.ports.len() - j,
    {
        assert(k.ports@.take(j + 1).drop_last() =~= k.ports@.take(j as int));
        rb.port(k.ports[j]);
        j += 1;
    }
    assert(k.ports@.take(j as int) =~= k.ports@);
    commit_dest(rb, k.action, &k.target);
}

/// Writes a sketch to a batch.
pub fn write_rule<'a>(rb: &'a mut RuleBuilder, k: &RuleSketch) -> (r: &'a mut RuleBuilder)
    ensures
        rule_state(*r) == sketched(rule_state(*old(rb)), *k),
        *final(rb) == *final(r),
{
    give_rule(rb, k);
    rb
}

/// `NetworkPolicyBuilder::rule`: hands an empty batch to [`write_rule`] and adds what was
/// written to the policy.
#[verifier::external_body]
pub(crate) fn append_rule(b: NetworkPolicyBuilder, k: &RuleSketch) -> (r: NetworkPolicyBuilder)
    ensures
        policy_draft(r) == with_batch(policy_draft(b), sketched(empty_state(), *k)),
{
    b.rule(|rb| write_rule(rb, k))
}

/// Whether a text is an IP address, asked of the policy builder: it reads an address exactly
/// where it can build a rule for it.
pub fn is_ip_address(text: &str) -> (r: bool)
    ensures
        r == is_address(text@),
{
    let k = RuleSketch {
        direction: ConfigDirection::Egress,
        protocols: Vec::new(),
        ports: Vec::new(),
        action: ConfigAction::Allow,
        target: RuleTarget::Ip(text.to_owned()),
    };
    let b = append_rule(NetworkPolicy::builder(), &k);
    proof {
        assert(policy_draft(b).rules =~= seq![sketch_rule(k)]);
        assert(policy_draft(b).rules[0] == sketch_rule(k));
        assert(policy_draft(b).faults =~= Seq::empty());
    }
    finish_policy(b).is_ok()
}

/// The sketch of a configured rule.
pub fn sketch(rule: &NetworkRule) -> (r: RuleSketch)
    ensures
        sketch_rule(r) == rule_draft(*rule),
{
    let mut protocols: Vec<ConfigProtocol> = Vec::new();
    if let Some(p) = rule.protocol {
        protocols.push(p);
    }
    let mut ports: Vec<u16> = Vec::new();
    let mut i: usize = 0;
    while i < rule.ports.len()
        invariant
            i <= rule.ports.len(),
            ports@ == rule.ports@.take(i as int),
        decreases rule.ports.len() - i,
    {
        ports.push(rule.ports[i]);
        i += 1;
    }
    assert(ports@ =~= rule.ports@);
    let address = is_ip_address(rule.destination.as_str());
    let r = RuleSketch {
        direction: rule.direction,
        protocols,
        ports,
        action: rule.action,
        target: classify_destination(rule.destination.as_str(), address),
    };
    proof {
        reveal_with_fuel(with_protocols, 2);
        assert(sketch_rule(r).protocols =~= rule_protocols(*rule));
    }
    r
}

} // verus!
