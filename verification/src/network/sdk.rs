//! The policy builder of `microsandbox-network`: what it holds and what it is assumed to do.
//!
//! A [`NetworkPolicyBuilder`] collects rules and default actions and reads addresses and names
//! only when it is built. The models here say what it has collected.

use crate::config::{ConfigAction, ConfigDirection};
use microsandbox_network::policy::{
    Action, DestinationGroup, NetworkPolicy, NetworkPolicyBuilder, RuleBuilder,
};
use vstd::prelude::*;

verus! {

// ── Outside types ─────────────────────────────────────────────────────────────

/// The action of `microsandbox-network`: `Allow` or `Deny`.
#[verifier::external_type_specification]
pub struct ExAction(Action);

/// The named groups of destinations of `microsandbox-network`.
#[verifier::external_type_specification]
pub struct ExDestinationGroup(DestinationGroup);

/// A policy under construction.
#[verifier::external_type_specification]
#[verifier::external_body]
pub struct ExNetworkPolicyBuilder(NetworkPolicyBuilder);

/// A batch of rules under construction.
#[verifier::external_type_specification]
#[verifier::external_body]
pub struct ExRuleBuilder(RuleBuilder);

/// A finished policy.
#[verifier::external_type_specification]
#[verifier::external_body]
pub struct ExNetworkPolicy(NetworkPolicy);

// ── Models ────────────────────────────────────────────────────────────────────

/// A protocol that a rule can be limited to.
pub ghost enum Transport {
    Tcp,
    Udp,
    Icmpv4,
    Icmpv6,
}

/// What a rule matches, as it was given; addresses and names are still text.
pub ghost enum Target {
    Any,
    Group(DestinationGroup),
    Ip(Seq<char>),
    Cidr(Seq<char>),
    Domain(Seq<char>),
    DomainSuffix(Seq<char>),
}

/// A rule as it was given. Ports are inclusive ranges.
pub ghost struct RuleDraft {
    pub direction: Option<ConfigDirection>,
    pub target: Target,
    pub protocols: Seq<Transport>,
    pub ports: Seq<(u16, u16)>,
    pub action: ConfigAction,
}

/// What a [`RuleBuilder`] holds: the settings for the next rule, the rules given so far, and
/// the texts of the mistakes noted so far.
pub ghost struct RuleState {
    pub direction: Option<ConfigDirection>,
    pub protocols: Seq<Transport>,
    pub ports: Seq<(u16, u16)>,
    pub rules: Seq<RuleDraft>,
    pub faults: Seq<Seq<char>>,
}

/// What a [`NetworkPolicyBuilder`] holds.
pub ghost struct PolicyDraft {
    pub egress: Option<ConfigAction>,
    pub ingress: Option<ConfigAction>,
    pub rules: Seq<RuleDraft>,
    pub faults: Seq<Seq<char>>,
}

/// What a rule of a finished policy matches: networks and names in their printed form.
pub ghost enum Endpoint {
    Any,
    Group(DestinationGroup),
    Network(Seq<char>),
    Domain(Seq<char>),
    DomainSuffix(Seq<char>),
}

/// A rule of a finished policy.
pub ghost struct PolicyRule {
    pub direction: ConfigDirection,
    pub endpoint: Endpoint,
    pub protocols: Seq<Transport>,
    pub ports: Seq<(u16, u16)>,
    pub action: ConfigAction,
}

/// A finished policy: the first rule that matches decides, and else the default.
pub ghost struct PolicyModel {
    pub egress: ConfigAction,
    pub ingress: ConfigAction,
    pub rules: Seq<PolicyRule>,
}

/// What a rule builder holds.
pub uninterp spec fn rule_state(rb: RuleBuilder) -> RuleState;

/// What a policy builder holds.
pub uninterp spec fn policy_draft(b: NetworkPolicyBuilder) -> PolicyDraft;

/// What a finished policy holds.
pub uninterp spec fn policy_model(p: NetworkPolicy) -> PolicyModel;

/// What an address, network or name given as text is read as when a policy is built; `None` if
/// the text cannot be read as what the target says it is.
pub uninterp spec fn read_target(t: Target) -> Option<Endpoint>;

/// What the builder prints when it cannot build what it holds.
pub uninterp spec fn build_complaint(draft: PolicyDraft) -> Seq<char>;

/// The library's name for an action.
pub open spec fn action_model(a: Action) -> ConfigAction {
    match a {
        Action::Allow => ConfigAction::Allow,
        Action::Deny => ConfigAction::Deny,
    }
}

/// A builder that holds nothing yet.
pub open spec fn empty_draft() -> PolicyDraft {
    PolicyDraft { egress: None, ingress: None, rules: Seq::empty(), faults: Seq::empty() }
}

/// A batch without settings or rules.
pub open spec fn empty_state() -> RuleState {
    RuleState {
        direction: None,
        protocols: Seq::empty(),
        ports: Seq::empty(),
        rules: Seq::empty(),
        faults: Seq::empty(),
    }
}

/// `s` with `x` at its end, unless it holds `x` already.
pub open spec fn with_once<T>(s: Seq<T>, x: T) -> Seq<T> {
    if s.contains(x) {
        s
    } else {
        s.push(x)
    }
}

/// The batch after a rule with the current settings was given.
pub open spec fn committed(s: RuleState, action: ConfigAction, target: Target) -> RuleState {
    RuleState {
        rules: s.rules.push(
            RuleDraft {
                direction: s.direction,
                target,
                protocols: s.protocols,
                ports: s.ports,
                action,
            },
        ),
        ..s
    }
}

/// The policy after a batch was added to it.
pub open spec fn with_batch(draft: PolicyDraft, batch: RuleState) -> PolicyDraft {
    PolicyDraft { rules: draft.rules + batch.rules, faults: draft.faults + batch.faults, ..draft }
}

/// What a target turns into when the policy is built; `None` if its text cannot be read.
pub open spec fn endpoint(t: Target) -> Option<Endpoint> {
    match t {
        Target::Any => Some(Endpoint::Any),
        Target::Group(g) => Some(Endpoint::Group(g)),
        _ => read_target(t),
    }
}

/// Whether a text is an IP address.
pub open spec fn is_address(text: Seq<char>) -> bool {
    read_target(Target::Ip(text)) is Some
}

/// Whether a rule can be built: its direction is set, its target can be read, and ICMP is
/// asked for on egress only.
pub open spec fn sound_rule(r: RuleDraft) -> bool {
    &&& r.direction is Some
    &&& endpoint(r.target) is Some
    &&& r.direction == Some(ConfigDirection::Egress) || (!r.protocols.contains(Transport::Icmpv4)
        && !r.protocols.contains(Transport::Icmpv6))
}

/// Whether a policy can be built.
pub open spec fn buildable(draft: PolicyDraft) -> bool {
    &&& draft.faults.len() == 0
    &&& forall|i: int| 0 <= i < draft.rules.len() ==> sound_rule(#[trigger] draft.rules[i])
}

/// The rule that a sound draft is built into.
pub open spec fn built_rule(r: RuleDraft) -> PolicyRule {
    PolicyRule {
        direction: r.direction->0,
        endpoint: endpoint(r.target)->0,
        protocols: r.protocols,
        ports: r.ports,
        action: r.action,
    }
}

/// The policy that a buildable draft is built into: rules in their order, and where no default
/// was set, deny on egress and allow on ingress.
pub open spec fn built(draft: PolicyDraft) -> PolicyModel {
    PolicyModel {
        egress: match draft.egress {
            Some(a) => a,
            None => ConfigAction::Deny,
        },
        ingress: match draft.ingress {
            Some(a) => a,
            None => ConfigAction::Allow,
        },
        rules: Seq::new(draft.rules.len(), |i: int| built_rule(draft.rules[i])),
    }
}

// ── Policies ──────────────────────────────────────────────────────────────────

/// `NetworkPolicy::allow_all`: both defaults are allow, and there are no rules.
pub assume_specification[ NetworkPolicy::allow_all ]() -> (p: NetworkPolicy)
    ensures
        policy_model(p) == (PolicyModel {
            egress: ConfigAction::Allow,
            ingress: ConfigAction::Allow,
            rules: Seq::empty(),
        }),
;

// ── Policy builder ────────────────────────────────────────────────────────────

/// `NetworkPolicy::builder`: a builder that holds nothing.
pub assume_specification[ NetworkPolicy::builder ]() -> (b: NetworkPolicyBuilder)
    ensures
        policy_draft(b) == empty_draft(),
;

/// `NetworkPolicyBuilder::default_allow`: both defaults become allow.
pub assume_specification[ NetworkPolicyBuilder::default_allow ](b: NetworkPolicyBuilder) -> (r:
    NetworkPolicyBuilder)
    ensures
        policy_draft(r) == (PolicyDraft {
            egress: Some(ConfigAction::Allow),
            ingress: Some(ConfigAction::Allow),
            ..policy_draft(b)
        }),
;

/// `NetworkPolicyBuilder::default_deny`: both defaults become deny.
pub assume_specification[ NetworkPolicyBuilder::default_deny ](b: NetworkPolicyBuilder) -> (r:
    NetworkPolicyBuilder)
    ensures
        policy_draft(r) == (PolicyDraft {
            egress: Some(ConfigAction::Deny),
            ingress: Some(ConfigAction::Deny),
            ..policy_draft(b)
        }),
;

/// `NetworkPolicyBuilder::default_egress`: sets the egress default.
pub assume_specification[ NetworkPolicyBuilder::default_egress ](
    b: NetworkPolicyBuilder,
    action: Action,
) -> (r: NetworkPolicyBuilder)
    ensures
        policy_draft(r) == (PolicyDraft { egress: Some(action_model(action)), ..policy_draft(b) }),
;

/// `NetworkPolicyBuilder::default_ingress`: sets the ingress default.
pub assume_specification[ NetworkPolicyBuilder::default_ingress ](
    b: NetworkPolicyBuilder,
    action: Action,
) -> (r: NetworkPolicyBuilder)
    ensures
        policy_draft(r) == (PolicyDraft { ingress: Some(action_model(action)), ..policy_draft(b) }),
;

/// `NetworkPolicyBuilder::build`: reads every address and name, and gives the policy, or the
/// printed form of the first mistake. It fails exactly where a mistake was noted before or a
/// rule is not sound.
#[verifier::external_body]
pub(crate) fn finish_policy(b: NetworkPolicyBuilder) -> (r: Result<NetworkPolicy, String>)
    ensures
        match r {
            Ok(p) => {
                &&& buildable(policy_draft(b))
                &&& policy_model(p) == built(policy_draft(b))
                &&& forall|i: int|
                    0 <= i < policy_draft(b).rules.len() ==> match policy_draft(b).rules[i].target {
                        Target::Any => true,
                        Target::Group(_) => true,
                        t => read_target(t) == Some((#[trigger] policy_model(p).rules[i]).endpoint),
                    }
            },
            Err(text) => !buildable(policy_draft(b)) && text@ == build_complaint(policy_draft(b)),
        },
{
    match b.build() {
        Ok(p) => Ok(p),
        Err(e) => Err(e.to_string()),
    }
}

// ── Rule builder ──────────────────────────────────────────────────────────────

/// `RuleBuilder::egress`: the next rules are for egress.
pub assume_specification[ RuleBuilder::egress ](rb: &mut RuleBuilder) -> (r: &mut RuleBuilder)
    ensures
        rule_state(*r) == (RuleState {
            direction: Some(ConfigDirection::Egress),
            ..rule_state(*old(rb))
        }),
        *final(rb) == *final(r),
;

/// `RuleBuilder::ingress`: the next rules are for ingress.
pub assume_specification[ RuleBuilder::ingress ](rb: &mut RuleBuilder) -> (r: &mut RuleBuilder)
    ensures
        rule_state(*r) == (RuleState {
            direction: Some(ConfigDirection::Ingress),
            ..rule_state(*old(rb))
        }),
        *final(rb) == *final(r),
;

/// `RuleBuilder::any`: the next rules are for both directions.
pub assume_specification[ RuleBuilder::any ](rb: &mut RuleBuilder) -> (r: &mut RuleBuilder)
    ensures
        rule_state(*r) == (RuleState {
            direction: Some(ConfigDirection::Any),
            ..rule_state(*old(rb))
        }),
        *final(rb) == *final(r),
;

/// `RuleBuilder::tcp`: the next rules are for TCP too.
pub assume_specification[ RuleBuilder::tcp ](rb: &mut RuleBuilder) -> (r: &mut RuleBuilder)
    ensures
        rule_state(*r) == (RuleState {
            protocols: with_once(rule_state(*old(rb)).protocols, Transport::Tcp),
            ..rule_state(*old(rb))
        }),
        *final(rb) == *final(r),
;

/// `RuleBuilder::udp`: the next rules are for UDP too.
pub assume_specification[ RuleBuilder::udp ](rb: &mut RuleBuilder) -> (r: &mut RuleBuilder)
    ensures
        rule_state(*r) == (RuleState {
            protocols: with_once(rule_state(*old(rb)).protocols, Transport::Udp),
            ..rule_state(*old(rb))
        }),
        *final(rb) == *final(r),
;

/// `RuleBuilder::port`: the next rules are for this port too.
pub assume_specification[ RuleBuilder::port ](rb: &mut RuleBuilder, port: u16) -> (r:
    &mut RuleBuilder)
    ensures
        rule_state(*r) == (RuleState {
            ports: with_once(rule_state(*old(rb)).ports, (port, port)),
            ..rule_state(*old(rb))
        }),
        *final(rb) == *final(r),
;

// ── Rule destinations ─────────────────────────────────────────────────────────

/// `RuleBuilder::allow` with `RuleDestinationBuilder::any`: gives a rule that allows everything.
#[verifier::external_body]
pub(crate) fn allow_any(rb: &mut RuleBuilder)
    ensures
        rule_state(*final(rb)) == committed(
            rule_state(*old(rb)),
            ConfigAction::Allow,
            Target::Any,
        ),
{
    rb.allow().any();
}

/// `RuleBuilder::deny` with `RuleDestinationBuilder::any`: gives a rule that denies everything.
#[verifier::external_body]
pub(crate) fn deny_any(rb: &mut RuleBuilder)
    ensures
        rule_state(*final(rb)) == committed(rule_state(*old(rb)), ConfigAction::Deny, Target::Any),
{
    rb.deny().any();
}

/// `RuleBuilder::allow` with `RuleDestinationBuilder::group`: gives a rule that allows a group.
#[verifier::external_body]
pub(crate) fn allow_group(rb: &mut RuleBuilder, group: DestinationGroup)
    ensures
        rule_state(*final(rb)) == committed(
            rule_state(*old(rb)),
            ConfigAction::Allow,
            Target::Group(group),
        ),
{
    rb.allow().group(group);
}

/// `RuleBuilder::deny` with `RuleDestinationBuilder::group`: gives a rule that denies a group.
#[verifier::external_body]
pub(crate) fn deny_group(rb: &mut RuleBuilder, group: DestinationGroup)
    ensures
        rule_state(*final(rb)) == committed(
            rule_state(*old(rb)),
            ConfigAction::Deny,
            Target::Group(group),
        ),
{
    rb.deny().group(group);
}

/// `RuleBuilder::allow` with `RuleDestinationBuilder::ip`: gives a rule that allows an IP address,
/// kept as text.
#[verifier::external_body]
pub(crate) fn allow_ip(rb: &mut RuleBuilder, text: &str)
    ensures
        rule_state(*final(rb)) == committed(
            rule_state(*old(rb)),
            ConfigAction::Allow,
            Target::Ip(text@),
        ),
{
    rb.allow().ip(text);
}

/// `RuleBuilder::deny` with `RuleDestinationBuilder::ip`: gives a rule that denies an IP address,
/// kept as text.
#[verifier::external_body]
pub(crate) fn deny_ip(rb: &mut RuleBuilder, text: &str)
    ensures
        rule_state(*final(rb)) == committed(
            rule_state(*old(rb)),
            ConfigAction::Deny,
            Target::Ip(text@),
        ),
{
    rb.deny().ip(text);
}

/// `RuleBuilder::allow` with `RuleDestinationBuilder::cidr`: gives a rule that allows a network in
/// CIDR notation, kept as text.
#[verifier::external_body]
pub(crate) fn allow_cidr(rb: &mut RuleBuilder, text: &str)
    ensures
        rule_state(*final(rb)) == committed(
            rule_state(*old(rb)),
            ConfigAction::Allow,
            Target::Cidr(text@),
        ),
{
    rb.allow().cidr(text);
}

/// `RuleBuilder::deny` with `RuleDestinationBuilder::cidr`: gives a rule that denies a network in
/// CIDR notation, kept as text.
#[verifier::external_body]
pub(crate) fn deny_cidr(rb: &mut RuleBuilder, text: &str)
    ensures
        rule_state(*final(rb)) == committed(
            rule_state(*old(rb)),
            ConfigAction::Deny,
            Target::Cidr(text@),
        ),
{
    rb.deny().cidr(text);
}

/// `RuleBuilder::allow` with `RuleDestinationBuilder::domain`: gives a rule that allows a domain
/// name, kept as text.
#[verifier::external_body]
pub(crate) fn allow_domain(rb: &mut RuleBuilder, text: &str)
    ensures
        rule_state(*final(rb)) == committed(
            rule_state(*old(rb)),
            ConfigAction::Allow,
            Target::Domain(text@),
        ),
{
    rb.allow().domain(text);
}

/// `RuleBuilder::deny` with `RuleDestinationBuilder::domain`: gives a rule that denies a domain
/// name, kept as text.
#[verifier::external_body]
pub(crate) fn deny_domain(rb: &mut RuleBuilder, text: &str)
    ensures
        rule_state(*final(rb)) == committed(
            rule_state(*old(rb)),
            ConfigAction::Deny,
            Target::Domain(text@),
        ),
{
    rb.deny().domain(text);
}

/// `RuleBuilder::allow` with `RuleDestinationBuilder::domain_suffix`: gives a rule that allows a
/// domain name and its subdomains, kept as text.
#[verifier::external_body]
pub(crate) fn allow_domain_suffix(rb: &mut RuleBuilder, text: &str)
    ensures
        rule_state(*final(rb)) == committed(
            rule_state(*old(rb)),
            ConfigAction::Allow,
            Target::DomainSuffix(text@),
        ),
{
    rb.allow().domain_suffix(text);
}

/// `RuleBuilder::deny` with `RuleDestinationBuilder::domain_suffix`: gives a rule that denies a
/// domain name and its subdomains, kept as text.
#[verifier::external_body]
pub(crate) fn deny_domain_suffix(rb: &mut RuleBuilder, text: &str)
    ensures
        rule_state(*final(rb)) == committed(
            rule_state(*old(rb)),
            ConfigAction::Deny,
            Target::DomainSuffix(text@),
        ),
{
    rb.deny().domain_suffix(text);
}

} // verus!
