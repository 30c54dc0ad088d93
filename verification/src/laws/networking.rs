//! Laws of a sandbox's network policy.

use crate::config::{
    rule_models, ConfigAction, ConfigDirection, ConfigProtocol, NamedPolicy, NetworkConfig,
    NetworkRule, RuleModel,
};
use crate::error::{Failure, SodagunError};
use crate::laws::texts::{law_cut, law_cut_back, law_decimal_is_read_back, law_has_char, law_prefix};
use crate::network::flag::{
    action_named, parse_net_rule_spec, protocol_named, rule_after_action, rule_meant, rules_meant,
    values_meant,
};
use crate::network::policy::{
    build_network_policy, dns_rule, drafts, known_name, policy_plan, public_rule, unknown_policy,
    CliNetOptions,
};
use crate::network::rule::{rule_draft, target_meant, with_ports};
use crate::network::sdk::{
    built_rule, is_address, policy_model, read_target, sound_rule, Endpoint, PolicyModel,
    PolicyRule, Target, Transport,
};
use crate::table::Table;
use crate::text::{cut, decimal, opt_str, split, starts_with, trim};
use microsandbox_network::policy::{DestinationGroup, NetworkPolicy};
use vstd::prelude::*;

verus! {

/// Whether a name is none of those that are built in.
pub open spec fn users_own(name: Seq<char>) -> bool {
    name != "none"@ && name != "allow-all"@ && name != "public-only"@
}

// ── Defaults ──────────────────────────────────────────────────────────────────

/// A default of a policy that a user has named is the default of the built policy, unless the
/// configuration or the command line sets another; the two directions are apart from each other.
pub proof fn law_defaults_of_a_named_policy_count(
    net: NetworkConfig,
    cli: CliNetOptions,
    policies: Table<NamedPolicy>,
    dir: Option<&str>,
    network: NetworkPolicy,
    m: PolicyModel,
)
    requires
        call_ensures(build_network_policy, (&net, &cli, &policies, dir), Ok(network)),
        m == policy_model(network),
        net.policy is Some,
        users_own(net.policy->0@),
        policies@.dom().contains(net.policy->0@),
    ensures
        ({
            let p = policies@[net.policy->0@];
            &&& cli.default_egress is None && net.default_egress is None && p.default_egress is Some
                ==> m.egress == p.default_egress->0
            &&& cli.default_ingress is None && net.default_ingress is None && p.default_ingress
                is Some ==> m.ingress == p.default_ingress->0
            &&& cli.default_egress is None && net.default_egress is None && p.default_egress is None
                ==> m.egress == ConfigAction::Deny
            &&& cli.default_ingress is None && net.default_ingress is None && p.default_ingress
                is None ==> m.ingress == ConfigAction::Allow
        }),
{
}

/// A default of the configuration is the default of the built policy, whatever the named policy
/// says, unless the command line sets another.
pub proof fn law_defaults_of_the_configuration_count(
    net: NetworkConfig,
    cli: CliNetOptions,
    policies: Table<NamedPolicy>,
    dir: Option<&str>,
    network: NetworkPolicy,
    m: PolicyModel,
)
    requires
        call_ensures(build_network_policy, (&net, &cli, &policies, dir), Ok(network)),
        m == policy_model(network),
    ensures
        cli.default_egress is None && net.default_egress is Some ==> m.egress
            == net.default_egress->0,
        cli.default_ingress is None && net.default_ingress is Some ==> m.ingress
            == net.default_ingress->0,
{
}

/// A default of the command line is the default of the built policy, whatever else is set.
pub proof fn law_defaults_of_the_command_line_win(
    net: NetworkConfig,
    cli: CliNetOptions,
    policies: Table<NamedPolicy>,
    dir: Option<&str>,
    network: NetworkPolicy,
    m: PolicyModel,
)
    requires
        call_ensures(build_network_policy, (&net, &cli, &policies, dir), Ok(network)),
        m == policy_model(network),
    ensures
        cli.default_egress is Some ==> m.egress == cli.default_egress->0,
        cli.default_ingress is Some ==> m.ingress == cli.default_ingress->0,
{
}

/// Where nothing sets a default, what goes out is denied and what comes in is allowed.
pub proof fn law_defaults_without_any_setting(
    net: NetworkConfig,
    cli: CliNetOptions,
    policies: Table<NamedPolicy>,
    dir: Option<&str>,
    network: NetworkPolicy,
    m: PolicyModel,
)
    requires
        call_ensures(build_network_policy, (&net, &cli, &policies, dir), Ok(network)),
        m == policy_model(network),
        net.policy is None,
    ensures
        cli.default_egress is None && net.default_egress is None ==> m.egress
            == ConfigAction::Deny,
        cli.default_ingress is None && net.default_ingress is None ==> m.ingress
            == ConfigAction::Allow,
{
}

// ── Built-in policies ─────────────────────────────────────────────────────────

/// The built-in policies, whatever policies a user has: `none` denies everything, `allow-all`
/// allows everything, and neither has rules; `public-only` denies what goes out except for name
/// resolution at the host and the public internet, and allows what comes in. A default that is set
/// beside one of them wins in its direction, and leaves the other alone; rules that are set beside
/// it come behind its own, those of the configuration before those of the command line.
pub proof fn law_builtin_policies(
    net: NetworkConfig,
    cli: CliNetOptions,
    policies: Table<NamedPolicy>,
    dir: Option<&str>,
    network: NetworkPolicy,
    m: PolicyModel,
) -> (own: nat)
    requires
        call_ensures(build_network_policy, (&net, &cli, &policies, dir), Ok(network)),
        m == policy_model(network),
        net.policy is Some,
        !users_own(net.policy->0@),
    ensures
        ({
            let name = net.policy->0@;
            let egress = net.default_egress is None && cli.default_egress is None;
            let ingress = net.default_ingress is None && cli.default_ingress is None;
            &&& name == "none"@ ==> {
                &&& egress ==> m.egress == ConfigAction::Deny
                &&& ingress ==> m.ingress == ConfigAction::Deny
                &&& own == 0
            }
            &&& name == "allow-all"@ ==> {
                &&& egress ==> m.egress == ConfigAction::Allow
                &&& ingress ==> m.ingress == ConfigAction::Allow
                &&& own == 0
            }
            &&& name == "public-only"@ ==> {
                &&& egress ==> m.egress == ConfigAction::Deny
                &&& ingress ==> m.ingress == ConfigAction::Allow
                &&& own == 2
                &&& m.rules[0].direction == ConfigDirection::Egress
                &&& m.rules[0].action == ConfigAction::Allow
                &&& m.rules[0].endpoint == Endpoint::Group(DestinationGroup::Host)
                &&& m.rules[0].protocols.to_set() == set![Transport::Udp, Transport::Tcp]
                &&& m.rules[0].ports == seq![(53u16, 53u16)]
                &&& m.rules[1].direction == ConfigDirection::Egress
                &&& m.rules[1].action == ConfigAction::Allow
                &&& m.rules[1].endpoint == Endpoint::Group(DestinationGroup::Public)
                &&& m.rules[1].protocols.len() == 0
                &&& m.rules[1].ports.len() == 0
            }
        }),
        m.rules.len() == own + net.rules@.len() + cli.rules@.len(),
        forall|i: int|
            0 <= i < net.rules@.len() ==> does_what_is_asked(
                m.rules[own + i],
                #[trigger] net.rules@[i],
            ),
        forall|i: int|
            0 <= i < cli.rules@.len() ==> does_what_is_asked(
                m.rules[own + net.rules@.len() + i],
                #[trigger] cli.rules@[i],
            ),
{
    reveal_strlit("none");
    reveal_strlit("allow-all");
    reveal_strlit("public-only");
    assert("none"@.len() == 4 && "allow-all"@.len() == 9 && "public-only"@.len() == 11);
    let plan = policy_plan(net, cli, policies@);
    let first = if net.policy->0@ == "public-only"@ {
        seq![dns_rule(), public_rule()]
    } else {
        Seq::empty()
    };
    let set = net.rules@;
    assert(plan.rules =~= first + drafts(set) + drafts(cli.rules@));
    if net.policy->0@ == "public-only"@ {
        assert(plan.rules[0] == dns_rule() && plan.rules[1] == public_rule());
        let p = dns_rule().protocols;
        assert(p[0] == Transport::Udp && p[1] == Transport::Tcp);
        assert(p.to_set() =~= set![Transport::Udp, Transport::Tcp]);
    }
    let own = first.len();
    assert forall|i: int| 0 <= i < set.len() implies does_what_is_asked(
        m.rules[own + i],
        #[trigger] set[i],
    ) by {
        law_rule_does_what_is_asked(set[i]);
        assert(plan.rules[own + i] == drafts(set)[i]);
    }
    assert forall|i: int| 0 <= i < cli.rules@.len() implies does_what_is_asked(
        m.rules[own + set.len() + i],
        #[trigger] cli.rules@[i],
    ) by {
        law_rule_does_what_is_asked(cli.rules@[i]);
        assert(plan.rules[own + set.len() + i] == drafts(cli.rules@)[i]);
    }
    own
}

proof fn lemma_unknown_text(name: Seq<char>, dir: Option<Seq<char>>)
    ensures
        starts_with(
            unknown_policy(name, dir).message,
            "unknown network policy '"@ + name + "'; "@,
        ),
{
    let head = "unknown network policy '"@ + name + "'; "@;
    reveal_strlit("'; ");
    reveal_strlit("'; create ");
    reveal_strlit(
        "'; no network-policy.d/ directory found; built-ins are: none, allow-all, public-only",
    );
    let message = unknown_policy(name, dir).message;
    assert(message.take(head.len() as int) =~= head);
}

/// A policy that is named and is neither built in nor among the user's own is refused, with what
/// to do: make the file in the policy directory, where there is one. Without rules nothing else
/// can be wrong.
pub proof fn law_unknown_policies_are_refused(
    net: NetworkConfig,
    cli: CliNetOptions,
    policies: Table<NamedPolicy>,
    dir: Option<&str>,
    r: Result<NetworkPolicy, SodagunError>,
)
    requires
        call_ensures(build_network_policy, (&net, &cli, &policies, dir), r),
    ensures
        net.policy is Some && users_own(net.policy->0@) && !policies@.dom().contains(
            net.policy->0@,
        ) ==> {
            &&& r is Err
            &&& r->Err_0@.code == "CONFIG_INVALID"@
            &&& starts_with(
                r->Err_0@.message,
                "unknown network policy '"@ + net.policy->0@ + "'; "@,
            )
            &&& dir is Some ==> r->Err_0@.message == "unknown network policy '"@ + net.policy->0@
                + "'; create "@ + dir->0@ + "/"@ + net.policy->0@
                + ".toml with the policy definition"@
        },
        net.policy is None && net.rules@.len() == 0 && cli.rules@.len() == 0 ==> r is Ok,
        net.policy is Some && !users_own(net.policy->0@) && net.rules@.len() == 0
            && cli.rules@.len() == 0 ==> r is Ok,
        r is Err ==> r->Err_0@.code == "CONFIG_INVALID"@,
{
    let plan = policy_plan(net, cli, policies@);
    if net.policy is Some && !known_name(net.policy->0@, policies@) {
        lemma_unknown_text(net.policy->0@, opt_str(dir));
    }
    if net.rules@.len() == 0 && cli.rules@.len() == 0 && (net.policy is None || !users_own(
        net.policy->0@,
    )) {
        assert forall|i: int| 0 <= i < plan.rules.len() implies sound_rule(
            #[trigger] plan.rules[i],
        ) by {
            assert(plan.rules =~= seq![dns_rule(), public_rule()]);
            assert(!dns_rule().protocols.contains(Transport::Icmpv4));
        }
        assert(plan.faults.len() == 0);
    }
}

// ── Rules ─────────────────────────────────────────────────────────────────────

/// Whether `m` is what the configured rule `r` asks for: the same direction and the same action,
/// the same protocol or all of them, and the same ports, each once, or all of them.
pub open spec fn does_what_is_asked(m: PolicyRule, r: NetworkRule) -> bool {
    &&& m.direction == r.direction
    &&& m.action == r.action
    &&& r.protocol is None ==> m.protocols.len() == 0
    &&& r.protocol == Some(ConfigProtocol::Tcp) ==> m.protocols == seq![Transport::Tcp]
    &&& r.protocol == Some(ConfigProtocol::Udp) ==> m.protocols == seq![Transport::Udp]
    &&& m.ports.no_duplicates()
    &&& forall|p: u16| m.ports.contains((p, p)) <==> #[trigger] r.ports@.contains(p)
    &&& forall|k: int| 0 <= k < m.ports.len() ==> (#[trigger] m.ports[k]).0 == m.ports[k].1
    &&& r.destination@ == "any"@ ==> m.endpoint == Endpoint::Any
    &&& r.destination@ == "public"@ ==> m.endpoint == Endpoint::Group(DestinationGroup::Public)
    &&& r.destination@ == "private"@ ==> m.endpoint == Endpoint::Group(DestinationGroup::Private)
    &&& r.destination@ == "host"@ ==> m.endpoint == Endpoint::Group(DestinationGroup::Host)
    &&& r.destination@ == "loopback"@ ==> m.endpoint == Endpoint::Group(DestinationGroup::Loopback)
    &&& r.destination@ == "link_local"@ ==> m.endpoint == Endpoint::Group(
        DestinationGroup::LinkLocal,
    )
    &&& r.destination@ == "metadata"@ ==> m.endpoint == Endpoint::Group(DestinationGroup::Metadata)
    &&& r.destination@ == "multicast"@ ==> m.endpoint == Endpoint::Group(
        DestinationGroup::Multicast,
    )
    &&& no_word(r.destination@) ==> {
        let d = r.destination@;
        &&& d.contains('/') ==> m.endpoint == read_target(Target::Cidr(d))->0
        &&& !d.contains('/') && is_address(d) ==> m.endpoint == read_target(Target::Ip(d))->0
        &&& !d.contains('/') && !is_address(d) && below_domain(d) ==> m.endpoint == read_target(
            Target::DomainSuffix(d.skip(2)),
        )->0
        &&& !d.contains('/') && !is_address(d) && !below_domain(d) ==> m.endpoint == read_target(
            Target::Domain(d),
        )->0
    }
}

/// Whether a destination is none of the words for everything and for groups.
pub open spec fn no_word(d: Seq<char>) -> bool {
    &&& d != "any"@
    &&& d != "public"@
    &&& d != "private"@
    &&& d != "host"@
    &&& d != "loopback"@
    &&& d != "link_local"@
    &&& d != "metadata"@
    &&& d != "multicast"@
}

/// Whether a destination is `*.` and something behind it.
pub open spec fn below_domain(d: Seq<char>) -> bool {
    d.len() >= 2 && d[0] == '*' && d[1] == '.'
}

proof fn lemma_ports(ports: Seq<u16>)
    ensures
        with_ports(Seq::empty(), ports).no_duplicates(),
        forall|p: u16|
            with_ports(Seq::empty(), ports).contains((p, p)) <==> #[trigger] ports.contains(p),
        forall|k: int|
            0 <= k < with_ports(Seq::empty(), ports).len() ==> (#[trigger] with_ports(
                Seq::empty(),
                ports,
            )[k]).0 == with_ports(Seq::empty(), ports)[k].1,
    decreases ports.len(),
{
    let all = with_ports(Seq::empty(), ports);
    if ports.len() > 0 {
        let init = ports.drop_last();
        let last = ports.last();
        lemma_ports(init);
        let before = with_ports(Seq::empty(), init);
        assert forall|p: u16| all.contains((p, p)) == #[trigger] ports.contains(p) by {
            assert(ports =~= init.push(last));
            if init.contains(p) {
                let k = choose|k: int| 0 <= k < init.len() && init[k] == p;
                assert(ports[k] == p);
            }
            assert(ports[ports.len() - 1] == last);
            assert(before.contains((last, last)) ==> init.contains(last));
            assert(before.contains((p, p)) <==> init.contains(p));
            if before.contains((last, last)) {
                assert(all == before);
            } else {
                assert(all == before.push((last, last)));
                if before.contains((p, p)) {
                    let k = choose|k: int| 0 <= k < before.len() && before[k] == (p, p);
                    assert(all[k] == (p, p));
                }
                assert(all[before.len() as int] == (last, last));
            }
        }
    }
}

proof fn lemma_words()
    ensures
        "any"@.len() == 3,
        "public"@.len() == 6,
        "private"@.len() == 7,
        "host"@.len() == 4,
        "loopback"@.len() == 8,
        "link_local"@.len() == 10,
        "metadata"@.len() == 8,
        "multicast"@.len() == 9,
        "loopback"@ != "metadata"@,
{
    reveal_strlit("any");
    reveal_strlit("public");
    reveal_strlit("private");
    reveal_strlit("host");
    reveal_strlit("loopback");
    reveal_strlit("link_local");
    reveal_strlit("metadata");
    reveal_strlit("multicast");
    assert("loopback"@[0] == 'l' && "metadata"@[0] == 'm');
}

/// A configured rule is built into one that does what is asked.
pub proof fn law_rule_does_what_is_asked(rule: NetworkRule)
    ensures
        does_what_is_asked(built_rule(rule_draft(rule)), rule),
{
    lemma_words();
    lemma_ports(rule.ports@);
    let d = rule.destination@;
    law_has_char(d, '/');
    reveal_strlit("*.");
    assert("*."@ =~= seq!['*', '.']);
    if d.len() >= 2 {
        assert(d.take(2) =~= seq![d[0], d[1]]);
        if starts_with(d, "*."@) {
            assert(d.take(2)[0] == '*' && d.take(2)[1] == '.');
        }
    }
}

/// The rules of the built policy are those of the user's named policy, then those of the
/// configuration, then those of the command line, each in its order and none left out; each does
/// what is asked.
pub proof fn law_every_rule_is_built_in_order(
    net: NetworkConfig,
    cli: CliNetOptions,
    policies: Table<NamedPolicy>,
    dir: Option<&str>,
    network: NetworkPolicy,
    m: PolicyModel,
)
    requires
        call_ensures(build_network_policy, (&net, &cli, &policies, dir), Ok(network)),
        m == policy_model(network),
        net.policy is Some,
        users_own(net.policy->0@),
        policies@.dom().contains(net.policy->0@),
    ensures
        ({
            let own = policies@[net.policy->0@].rules@;
            let set = net.rules@;
            &&& m.rules.len() == own.len() + set.len() + cli.rules@.len()
            &&& forall|i: int|
                0 <= i < own.len() ==> does_what_is_asked(#[trigger] m.rules[i], own[i])
            &&& forall|i: int|
                0 <= i < set.len() ==> does_what_is_asked(
                    m.rules[own.len() + i],
                    #[trigger] set[i],
                )
            &&& forall|i: int|
                0 <= i < cli.rules@.len() ==> does_what_is_asked(
                    m.rules[own.len() + set.len() + i],
                    #[trigger] cli.rules@[i],
                )
        }),
{
    let own = policies@[net.policy->0@].rules@;
    let set = net.rules@;
    let plan = policy_plan(net, cli, policies@);
    assert(plan.rules =~= drafts(own) + drafts(set) + drafts(cli.rules@));
    assert forall|i: int| 0 <= i < own.len() implies does_what_is_asked(
        #[trigger] m.rules[i],
        own[i],
    ) by {
        law_rule_does_what_is_asked(own[i]);
        assert(plan.rules[i] == drafts(own)[i]);
    }
    assert forall|i: int| 0 <= i < set.len() implies does_what_is_asked(
        m.rules[own.len() + i],
        #[trigger] set[i],
    ) by {
        law_rule_does_what_is_asked(set[i]);
        assert(plan.rules[own.len() + i] == drafts(set)[i]);
    }
    assert forall|i: int| 0 <= i < cli.rules@.len() implies does_what_is_asked(
        m.rules[own.len() + set.len() + i],
        #[trigger] cli.rules@[i],
    ) by {
        law_rule_does_what_is_asked(cli.rules@[i]);
        assert(plan.rules[own.len() + set.len() + i] == drafts(cli.rules@)[i]);
    }
}

/// Without a named policy the rules of the built policy are those of the configuration and then
/// those of the command line.
pub proof fn law_every_rule_is_built_without_a_policy(
    net: NetworkConfig,
    cli: CliNetOptions,
    policies: Table<NamedPolicy>,
    dir: Option<&str>,
    network: NetworkPolicy,
    m: PolicyModel,
)
    requires
        call_ensures(build_network_policy, (&net, &cli, &policies, dir), Ok(network)),
        m == policy_model(network),
        net.policy is None,
    ensures
        m.rules.len() == net.rules@.len() + cli.rules@.len(),
        forall|i: int|
            0 <= i < net.rules@.len() ==> does_what_is_asked(#[trigger] m.rules[i], net.rules@[i]),
        forall|i: int|
            0 <= i < cli.rules@.len() ==> does_what_is_asked(
                m.rules[net.rules@.len() + i],
                #[trigger] cli.rules@[i],
            ),
{
    let set = net.rules@;
    let plan = policy_plan(net, cli, policies@);
    assert(plan.rules =~= drafts(set) + drafts(cli.rules@));
    assert forall|i: int| 0 <= i < set.len() implies does_what_is_asked(
        #[trigger] m.rules[i],
        set[i],
    ) by {
        law_rule_does_what_is_asked(set[i]);
        assert(plan.rules[i] == drafts(set)[i]);
    }
    assert forall|i: int| 0 <= i < cli.rules@.len() implies does_what_is_asked(
        m.rules[set.len() + i],
        #[trigger] cli.rules@[i],
    ) by {
        law_rule_does_what_is_asked(cli.rules@[i]);
        assert(plan.rules[set.len() + i] == drafts(cli.rules@)[i]);
    }
}

/// A destination that is no word of ours is a network where it holds a `/`, and else an address
/// where it can be read as one; of the rest, `*.` and a domain is all below the domain, and
/// anything else is a domain.
pub proof fn law_destinations(d: Seq<char>)
    requires
        no_word(d),
    ensures
        d.contains('/') ==> target_meant(d, is_address(d)) == Target::Cidr(d),
        !d.contains('/') && is_address(d) ==> target_meant(d, is_address(d)) == Target::Ip(d),
        !d.contains('/') && !is_address(d) ==> {
            ||| target_meant(d, is_address(d)) == Target::Domain(d)
            ||| exists|domain: Seq<char>|
                d == #[trigger] ("*."@ + domain) && target_meant(d, is_address(d))
                    == Target::DomainSuffix(domain)
        },
        forall|domain: Seq<char>|
            d == #[trigger] ("*."@ + domain) && !d.contains('/') && !is_address(d) ==> target_meant(
                d,
                is_address(d),
            ) == Target::DomainSuffix(domain),
{
    reveal_strlit("*.");
    law_has_char(d, '/');
    law_prefix(d, "*."@);
    if starts_with(d, "*."@) {
        assert(d =~= "*."@ + d.skip(2));
    }
    assert forall|domain: Seq<char>|
        d == #[trigger] ("*."@ + domain) && !d.contains('/') && !is_address(d) implies target_meant(
        d,
        is_address(d),
    ) == Target::DomainSuffix(domain) by {
        assert(d.skip(2) =~= domain);
    }
}

// ── Rules on the command line ─────────────────────────────────────────────────

proof fn lemma_word_characters()
    ensures
        !"allow"@.contains('@'),
        !"deny"@.contains('@'),
        !"tcp"@.contains(':'),
        !"udp"@.contains(':'),
        "allow"@ != "deny"@,
        "tcp"@ != "udp"@,
        "@"@ == seq!['@'],
        ":"@ == seq![':'],
{
    reveal_strlit("allow");
    reveal_strlit("deny");
    reveal_strlit("tcp");
    reveal_strlit("udp");
    reveal_strlit("@");
    reveal_strlit(":");
    assert("tcp"@[0] == 't' && "udp"@[0] == 'u');
    assert("@"@ =~= seq!['@']);
    assert(":"@ =~= seq![':']);
}

/// The words for actions and protocols.
pub proof fn law_words()
    ensures
        action_named("allow"@) == Some(ConfigAction::Allow),
        action_named("deny"@) == Some(ConfigAction::Deny),
        forall|w: Seq<char>|
            #[trigger] action_named(w) is Some ==> w == "allow"@ || w == "deny"@,
        protocol_named("tcp"@) == Some(ConfigProtocol::Tcp),
        protocol_named("udp"@) == Some(ConfigProtocol::Udp),
        forall|w: Seq<char>| #[trigger] protocol_named(w) is Some ==> w == "tcp"@ || w == "udp"@,
{
    lemma_word_characters();
}

/// The word for an action.
pub open spec fn action_word(a: ConfigAction) -> Seq<char> {
    match a {
        ConfigAction::Allow => "allow"@,
        ConfigAction::Deny => "deny"@,
    }
}

/// The word for a protocol.
pub open spec fn protocol_word(p: ConfigProtocol) -> Seq<char> {
    match p {
        ConfigProtocol::Tcp => "tcp"@,
        ConfigProtocol::Udp => "udp"@,
    }
}

proof fn lemma_word(action: ConfigAction, rest: Seq<char>)
    ensures
        rule_meant(action_word(action) + seq!['@'] + rest) == rule_after_action(
            action,
            rest,
            action_word(action) + seq!['@'] + rest,
        ),
{
    lemma_word_characters();
    law_cut(action_word(action), '@', rest);
}

proof fn lemma_plain_rest(action: ConfigAction, destination: Seq<char>, spec: Seq<char>)
    requires
        !destination.contains(':'),
    ensures
        rule_after_action(action, destination, spec) == Ok::<RuleModel, Failure>(
            RuleModel {
                direction: ConfigDirection::Egress,
                action,
                destination,
                protocol: None,
                ports: Seq::empty(),
            },
        ),
{
    law_cut(destination, ':', Seq::empty());
}

proof fn lemma_limited_rest(
    action: ConfigAction,
    destination: Seq<char>,
    protocol: ConfigProtocol,
    spec: Seq<char>,
)
    requires
        !destination.contains(':'),
    ensures
        rule_after_action(
            action,
            destination + seq![':'] + protocol_word(protocol),
            spec,
        ) == Ok::<RuleModel, Failure>(
            RuleModel {
                direction: ConfigDirection::Egress,
                action,
                destination,
                protocol: Some(protocol),
                ports: Seq::empty(),
            },
        ),
{
    lemma_word_characters();
    let p = protocol_word(protocol);
    law_cut(destination, ':', p);
    law_cut(p, ':', Seq::empty());
}

proof fn lemma_exact_rest(
    action: ConfigAction,
    destination: Seq<char>,
    protocol: ConfigProtocol,
    port: u16,
    spec: Seq<char>,
)
    requires
        !destination.contains(':'),
    ensures
        rule_after_action(
            action,
            destination + seq![':'] + (protocol_word(protocol) + seq![':'] + decimal(port as nat)),
            spec,
        ) == Ok::<RuleModel, Failure>(
            RuleModel {
                direction: ConfigDirection::Egress,
                action,
                destination,
                protocol: Some(protocol),
                ports: seq![port],
            },
        ),
{
    lemma_word_characters();
    let p = protocol_word(protocol);
    let n = decimal(port as nat);
    law_cut(destination, ':', p + seq![':'] + n);
    law_cut(p, ':', n);
    law_decimal_is_read_back(port as nat, 65535);
}

proof fn lemma_regroup(a: Seq<char>, d: Seq<char>, p: Seq<char>, n: Seq<char>)
    ensures
        a + "@"@ + d == a + seq!['@'] + d,
        a + "@"@ + d + ":"@ + p == a + seq!['@'] + (d + seq![':'] + p),
        a + "@"@ + d + ":"@ + p + ":"@ + n == a + seq!['@'] + (d + seq![':'] + (p + seq![':'] + n)),
{
    lemma_word_characters();
    assert(a + "@"@ + d + ":"@ + p =~= a + seq!['@'] + (d + seq![':'] + p));
    assert(a + "@"@ + d + ":"@ + p + ":"@ + n =~= a + seq!['@'] + (d + seq![':'] + (p + seq![':']
        + n)));
}

proof fn lemma_plain_rule(action: ConfigAction, destination: Seq<char>)
    requires
        !destination.contains(':'),
    ensures
        rule_meant(action_word(action) + "@"@ + destination) == Ok::<RuleModel, Failure>(
            RuleModel {
                direction: ConfigDirection::Egress,
                action,
                destination,
                protocol: None,
                ports: Seq::empty(),
            },
        ),
{
    let a = action_word(action);
    lemma_regroup(a, destination, Seq::empty(), Seq::empty());
    lemma_word(action, destination);
    lemma_plain_rest(action, destination, a + seq!['@'] + destination);
}

proof fn lemma_limited_rule(
    action: ConfigAction,
    destination: Seq<char>,
    protocol: ConfigProtocol,
)
    requires
        !destination.contains(':'),
    ensures
        rule_meant(action_word(action) + "@"@ + destination + ":"@ + protocol_word(protocol))
            == Ok::<RuleModel, Failure>(
            RuleModel {
                direction: ConfigDirection::Egress,
                action,
                destination,
                protocol: Some(protocol),
                ports: Seq::empty(),
            },
        ),
{
    let a = action_word(action);
    let p = protocol_word(protocol);
    let rest = destination + seq![':'] + p;
    lemma_regroup(a, destination, p, Seq::empty());
    lemma_word(action, rest);
    lemma_limited_rest(action, destination, protocol, a + seq!['@'] + rest);
}

proof fn lemma_exact_rule(
    action: ConfigAction,
    destination: Seq<char>,
    protocol: ConfigProtocol,
    port: u16,
)
    requires
        !destination.contains(':'),
    ensures
        rule_meant(
            action_word(action) + "@"@ + destination + ":"@ + protocol_word(protocol) + ":"@
                + decimal(port as nat),
        ) == Ok::<RuleModel, Failure>(
            RuleModel {
                direction: ConfigDirection::Egress,
                action,
                destination,
                protocol: Some(protocol),
                ports: seq![port],
            },
        ),
{
    let a = action_word(action);
    let p = protocol_word(protocol);
    let n = decimal(port as nat);
    let rest = destination + seq![':'] + (p + seq![':'] + n);
    lemma_regroup(a, destination, p, n);
    lemma_word(action, rest);
    lemma_exact_rest(action, destination, protocol, port, a + seq!['@'] + rest);
}

/// A rule written as `action@destination`, with `:protocol` or `:protocol:port` behind it, is read
/// as an outgoing rule with just these parts.
pub proof fn law_written_rule_is_read_back(
    action: ConfigAction,
    destination: Seq<char>,
    protocol: ConfigProtocol,
    port: u16,
)
    requires
        !destination.contains(':'),
    ensures
        ({
            let head = action_word(action) + "@"@ + destination;
            let limited = head + ":"@ + protocol_word(protocol);
            &&& rule_meant(head) == Ok::<RuleModel, Failure>(
                RuleModel {
                    direction: ConfigDirection::Egress,
                    action,
                    destination,
                    protocol: None,
                    ports: Seq::empty(),
                },
            )
            &&& rule_meant(limited) == Ok::<RuleModel, Failure>(
                RuleModel {
                    direction: ConfigDirection::Egress,
                    action,
                    destination,
                    protocol: Some(protocol),
                    ports: Seq::empty(),
                },
            )
            &&& rule_meant(limited + ":"@ + decimal(port as nat)) == Ok::<RuleModel, Failure>(
                RuleModel {
                    direction: ConfigDirection::Egress,
                    action,
                    destination,
                    protocol: Some(protocol),
                    ports: seq![port],
                },
            )
        }),
{
    lemma_plain_rule(action, destination);
    lemma_limited_rule(action, destination, protocol);
    lemma_exact_rule(action, destination, protocol, port);
}

/// A rule that is read on the command line has the parts that are written there.
pub proof fn law_read_rule_has_the_written_parts(
    action: ConfigAction,
    destination: Seq<char>,
    protocol: ConfigProtocol,
    port: u16,
    spec: &str,
    r: Result<NetworkRule, SodagunError>,
)
    requires
        call_ensures(parse_net_rule_spec, (spec,), r),
        !destination.contains(':'),
    ensures
        ({
            let head = action_word(action) + "@"@ + destination;
            let limited = head + ":"@ + protocol_word(protocol);
            let exact = limited + ":"@ + decimal(port as nat);
            &&& spec@ == head || spec@ == limited || spec@ == exact ==> {
                &&& r is Ok
                &&& r->Ok_0.direction == ConfigDirection::Egress
                &&& r->Ok_0.action == action
                &&& r->Ok_0.destination@ == destination
            }
            &&& spec@ == head ==> r->Ok_0.protocol is None && r->Ok_0.ports@.len() == 0
            &&& spec@ == limited ==> r->Ok_0.protocol == Some(protocol) && r->Ok_0.ports@.len() == 0
            &&& spec@ == exact ==> r->Ok_0.protocol == Some(protocol) && r->Ok_0.ports@
                == seq![port]
        }),
{
    law_written_rule_is_read_back(action, destination, protocol, port);
}

/// A rule with a port that is too large, with a word that is no protocol, or with one that is no
/// action, is refused, and so is what holds no `@`.
pub proof fn law_rules_that_are_refused(
    action: ConfigAction,
    destination: Seq<char>,
    protocol: ConfigProtocol,
    port: nat,
    word: Seq<char>,
    rest: Seq<char>,
    spec: &str,
    r: Result<NetworkRule, SodagunError>,
)
    requires
        call_ensures(parse_net_rule_spec, (spec,), r),
        !destination.contains(':'),
        !word.contains(':'),
        !word.contains('@'),
    ensures
        port > 65535 && spec@ == action_word(action) + "@"@ + destination + ":"@ + protocol_word(
            protocol,
        ) + ":"@ + decimal(port) ==> r is Err,
        word != "tcp"@ && word != "udp"@ && spec@ == action_word(action) + "@"@ + destination
            + ":"@ + word ==> r is Err,
        word != "allow"@ && word != "deny"@ && spec@ == word + seq!['@'] + rest ==> r is Err,
        spec@ == word ==> r is Err,
        r is Err ==> r->Err_0@.code == "CONFIG_INVALID"@,
{
    let a = action_word(action);
    let p = protocol_word(protocol);
    let n = decimal(port);
    lemma_word_characters();
    lemma_regroup(a, destination, p, n);
    lemma_regroup(a, destination, word, Seq::empty());
    let exact = destination + seq![':'] + (p + seq![':'] + n);
    let other = destination + seq![':'] + word;
    lemma_word(action, exact);
    lemma_word(action, other);
    law_cut(destination, ':', p + seq![':'] + n);
    law_cut(p, ':', n);
    law_cut(destination, ':', word);
    law_cut(word, ':', Seq::empty());
    law_cut(word, '@', rest);
    law_decimal_is_read_back(port, 65535);
}

proof fn lemma_after_action(action: ConfigAction, rest: Seq<char>, spec: Seq<char>)
    requires
        rule_after_action(action, rest, spec) is Ok,
    ensures
        ({
            let r = rule_after_action(action, rest, spec)->Ok_0;
            &&& r.direction == ConfigDirection::Egress
            &&& r.action == action
            &&& !r.destination.contains(':')
            &&& r.ports.len() <= 1
            &&& r.protocol is None ==> r.ports.len() == 0 && rest == r.destination
            &&& r.protocol is Some ==> starts_with(
                rest,
                r.destination + ":"@ + protocol_word(r.protocol->0),
            )
            &&& r.protocol is Some && r.ports.len() == 0 ==> rest == r.destination + ":"@
                + protocol_word(r.protocol->0)
        }),
{
    lemma_word_characters();
    law_cut_back(rest, ':');
    let r = rule_after_action(action, rest, spec)->Ok_0;
    if let Some((destination, limits)) = cut(rest, ':') {
        law_cut_back(limits, ':');
        let written = r.destination + ":"@ + protocol_word(r.protocol->0);
        match cut(limits, ':') {
            None => {
                assert(rest =~= written + Seq::<char>::empty());
                assert(rest =~= written);
            },
            Some((word, port)) => {
                assert(rest =~= written + (seq![':'] + port));
            },
        }
        law_prefix(rest, written);
    }
}

/// Only what is written so is accepted: the specification of a rule that is read is its action,
/// `@` and its destination, and behind them its protocol where it has one; a rule without a
/// protocol has no ports, one with a protocol at most one.
pub proof fn law_only_written_rules_are_read(spec: Seq<char>) -> (rest: Seq<char>)
    requires
        rule_meant(spec) is Ok,
    ensures
        ({
            let r = rule_meant(spec)->Ok_0;
            &&& spec == action_word(r.action) + "@"@ + rest
            &&& r.direction == ConfigDirection::Egress
            &&& !r.destination.contains(':')
            &&& r.ports.len() <= 1
            &&& r.protocol is None ==> r.ports.len() == 0 && rest == r.destination
            &&& r.protocol is Some ==> exists|port: Seq<char>|
                rest == #[trigger] (r.destination + ":"@ + protocol_word(r.protocol->0) + port)
            &&& r.protocol is Some && r.ports.len() == 0 ==> rest == r.destination + ":"@
                + protocol_word(r.protocol->0)
        }),
{
    lemma_word_characters();
    law_cut_back(spec, '@');
    let (word, rest) = cut(spec, '@')->0;
    let action = action_named(word)->0;
    lemma_after_action(action, rest, spec);
    let r = rule_meant(spec)->Ok_0;
    if r.protocol is Some {
        law_prefix(rest, r.destination + ":"@ + protocol_word(r.protocol->0));
    }
    rest
}

proof fn lemma_rules(specs: Seq<Seq<char>>)
    ensures
        rules_meant(specs) is Ok <==> forall|i: int|
            0 <= i < specs.len() ==> rule_meant(trim(#[trigger] specs[i])) is Ok,
        rules_meant(specs) matches Ok(rules) ==> rules.len() == specs.len() && forall|i: int|
            0 <= i < specs.len() ==> #[trigger] rules[i] == rule_meant(trim(specs[i]))->Ok_0,
    decreases specs.len(),
{
    if specs.len() > 0 {
        let init = specs.drop_last();
        lemma_rules(init);
        assert(forall|i: int| 0 <= i < init.len() ==> init[i] == specs[i]);
        if rules_meant(init) is Err {
            let k = choose|i: int|
                0 <= i < init.len() && rule_meant(trim(#[trigger] init[i])) is Err;
            assert(specs[k] == init[k]);
        }
    }
}

/// The rules of one option are read one by one, in their order, each without the white space
/// around it; one that is wrong spoils them all.
pub proof fn law_every_specification_gives_its_rule(specs: Seq<Seq<char>>, rules: Seq<NetworkRule>)
    requires
        rules_meant(specs) == Ok::<Seq<RuleModel>, Failure>(rule_models(rules)),
    ensures
        rules.len() == specs.len(),
        forall|i: int|
            0 <= i < specs.len() ==> rule_meant(trim(specs[i])) == Ok::<RuleModel, Failure>(
                RuleModel {
                    direction: (#[trigger] rules[i]).direction,
                    action: rules[i].action,
                    destination: rules[i].destination@,
                    protocol: rules[i].protocol,
                    ports: rules[i].ports@,
                },
            ),
{
    lemma_rules(specs);
    assert(rule_models(rules).len() == rules.len());
    assert forall|i: int| 0 <= i < specs.len() implies rule_meant(trim(specs[i])) == Ok::<
        RuleModel,
        Failure,
    >(
        RuleModel {
            direction: (#[trigger] rules[i]).direction,
            action: rules[i].action,
            destination: rules[i].destination@,
            protocol: rules[i].protocol,
            ports: rules[i].ports@,
        },
    ) by {
        assert(rule_models(rules)[i] == rules[i]@);
        assert(specs[i] == specs[i]);
    }
}

/// The options are read in their order: the rules of two lots of options are the rules of the
/// first and then those of the second. The specifications of one option are separated by commas.
pub proof fn law_options_are_read_in_order(
    first: Seq<Seq<char>>,
    second: Seq<Seq<char>>,
    one: Seq<char>,
)
    requires
        values_meant(first) is Ok,
        values_meant(second) is Ok,
    ensures
        values_meant(first + second) == Ok::<Seq<RuleModel>, Failure>(
            values_meant(first)->Ok_0 + values_meant(second)->Ok_0,
        ),
        values_meant(seq![one]) == rules_meant(split(one, ',')),
    decreases second.len(),
{
    reveal_with_fuel(values_meant, 2);
    assert(seq![one].drop_last() =~= Seq::empty());
    if let Ok(more) = rules_meant(split(one, ',')) {
        assert(Seq::<RuleModel>::empty() + more =~= more);
    }
    if second.len() == 0 {
        assert(first + second =~= first);
        assert(values_meant(first)->Ok_0 + values_meant(second)->Ok_0 =~= values_meant(
            first,
        )->Ok_0);
    } else {
        law_options_are_read_in_order(first, second.drop_last(), one);
        assert((first + second).drop_last() =~= first + second.drop_last());
        assert((first + second).last() == second.last());
        assert(values_meant(first + second)->Ok_0 =~= values_meant(first)->Ok_0 + values_meant(
            second,
        )->Ok_0);
    }
}

} // verus!
