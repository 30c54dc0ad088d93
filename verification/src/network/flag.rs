//! Network rules on the command line: `action@destination[:proto[:port]]`.

use crate::config::{
    rule_models, ConfigAction, ConfigDirection, ConfigProtocol, NetworkRule, RuleModel,
};
use crate::error::{failure, fault, Failure, SodagunError};
use crate::text::{
    cut, cut_text, parse_unsigned, read_unsigned, same_text, split, split_text, texts, trim,
    trim_text,
};
use vstd::prelude::*;

verus! {

/// The action that a word names.
pub open spec fn action_named(word: Seq<char>) -> Option<ConfigAction> {
    if word == "allow"@ {
        Some(ConfigAction::Allow)
    } else if word == "deny"@ {
        Some(ConfigAction::Deny)
    } else {
        None
    }
}

/// The protocol that a word names.
pub open spec fn protocol_named(word: Seq<char>) -> Option<ConfigProtocol> {
    if word == "tcp"@ {
        Some(ConfigProtocol::Tcp)
    } else if word == "udp"@ {
        Some(ConfigProtocol::Udp)
    } else {
        None
    }
}

/// What a rule without `@` is answered with.
pub open spec fn bad_shape(spec: Seq<char>) -> Failure {
    failure(
        "CONFIG_INVALID"@,
        "--net-rule '"@ + spec + "' must be in action@destination[:proto[:port]] format"@,
    )
}

/// What a rule with an unknown word is answered with; `what` says what the word stands for.
pub open spec fn bad_word(
    what: Seq<char>,
    word: Seq<char>,
    spec: Seq<char>,
    known: Seq<char>,
) -> Failure {
    failure(
        "CONFIG_INVALID"@,
        "unknown "@ + what + " '"@ + word + "' in --net-rule '"@ + spec + "'; expected "@ + known,
    )
}

/// The egress rule with these parts.
pub open spec fn egress_rule(
    action: ConfigAction,
    destination: Seq<char>,
    protocol: Option<ConfigProtocol>,
    ports: Seq<u16>,
) -> RuleModel {
    RuleModel { direction: ConfigDirection::Egress, action, destination, protocol, ports }
}

/// The rule that `rest`, the part of `spec` after the `@`, stands for with this action.
pub open spec fn rule_after_action(
    action: ConfigAction,
    rest: Seq<char>,
    spec: Seq<char>,
) -> Result<RuleModel, Failure> {
    match cut(rest, ':') {
        None => Ok(egress_rule(action, rest, None, Seq::empty())),
        Some((destination, limits)) => {
            let (word, port) = match cut(limits, ':') {
                None => (limits, None),
                Some((w, p)) => (w, Some(p)),
            };
            match protocol_named(word) {
                None => Err(bad_word("protocol"@, word, spec, "'tcp' or 'udp'"@)),
                Some(protocol) => match port {
                    None => Ok(egress_rule(action, destination, Some(protocol), Seq::empty())),
                    Some(p) => match parse_unsigned(p, 65535) {
                        None => Err(bad_word("port"@, p, spec, "a number from 0 to 65535"@)),
                        Some(n) => Ok(
                            egress_rule(action, destination, Some(protocol), seq![n as u16]),
                        ),
                    },
                },
            }
        },
    }
}

/// The rule that one specification stands for.
pub open spec fn rule_meant(spec: Seq<char>) -> Result<RuleModel, Failure> {
    match cut(spec, '@') {
        None => Err(bad_shape(spec)),
        Some((word, rest)) => match action_named(word) {
            None => Err(bad_word("action"@, word, spec, "'allow' or 'deny'"@)),
            Some(action) => rule_after_action(action, rest, spec),
        },
    }
}

/// The rules that several specifications stand for; the first one that is wrong decides.
pub open spec fn rules_meant(specs: Seq<Seq<char>>) -> Result<Seq<RuleModel>, Failure>
    decreases specs.len(),
{
    if specs.len() == 0 {
        Ok(Seq::empty())
    } else {
        match rules_meant(specs.drop_last()) {
            Err(e) => Err(e),
            Ok(before) => match rule_meant(trim(specs.last())) {
                Err(e) => Err(e),
                Ok(rule) => Ok(before.push(rule)),
            },
        }
    }
}

/// `bad_word` as an error.
fn word_error(what: &str, word: &str, spec: &str, known: &str) -> (e: SodagunError)
    ensures
        e@ == bad_word(what@, word@, spec@, known@),
{
    fault(
        "CONFIG_INVALID",
        "unknown ".to_owned().concat(what).concat(" '").concat(word).concat(
            "' in --net-rule '",
        ).concat(spec).concat("'; expected ").concat(known),
    )
}

/// Reads one specification.
pub fn parse_net_rule_spec(spec: &str) -> (r: Result<NetworkRule, SodagunError>)
    ensures
        match r {
            Ok(rule) => rule_meant(spec@) == Ok::<RuleModel, Failure>(rule@),
            Err(e) => rule_meant(spec@) == Err::<RuleModel, Failure>(e@),
        },
{
    let (word, rest) = match cut_text(spec, '@') {
        Some(pair) => pair,
        None => {
            return Err(
                fault(
                    "CONFIG_INVALID",
                    "--net-rule '".to_owned().concat(spec).concat(
                        "' must be in action@destination[:proto[:port]] format",
                    ),
                ),
            );
        },
    };
    let action = if same_text(word.as_str(), "allow") {
        ConfigAction::Allow
    } else if same_text(word.as_str(), "deny") {
        ConfigAction::Deny
    } else {
        return Err(word_error("action", word.as_str(), spec, "'allow' or 'deny'"));
    };
    let (destination, limits) = match cut_text(rest.as_str(), ':') {
        Some(pair) => pair,
        None => {
            let ports: Vec<u16> = Vec::new();
            assert(ports@ =~= Seq::empty());
            return Ok(
                NetworkRule {
                    direction: ConfigDirection::Egress,
                    action,
                    destination: rest,
                    protocol: None,
                    ports,
                },
            );
        },
    };
    let (word, port) = match cut_text(limits.as_str(), ':') {
        Some((w, p)) => (w, Some(p)),
        None => (limits, None),
    };
    let protocol = if same_text(word.as_str(), "tcp") {
        ConfigProtocol::Tcp
    } else if same_text(word.as_str(), "udp") {
        ConfigProtocol::Udp
    } else {
        return Err(word_error("protocol", word.as_str(), spec, "'tcp' or 'udp'"));
    };
    let mut ports: Vec<u16> = Vec::new();
    assert(ports@ =~= Seq::empty());
    if let Some(p) = port {
        match read_unsigned(p.as_str(), 65535) {
            Some(n) => {
                ports.push(n as u16);
                assert(ports@ =~= seq![n as u16]);
            },
            None => {
                return Err(word_error("port", p.as_str(), spec, "a number from 0 to 65535"));
            },
        }
    }
    Ok(
        NetworkRule {
            direction: ConfigDirection::Egress,
            action,
            destination,
            protocol: Some(protocol),
            ports,
        },
    )
}

/// Reads the value of one `--net-rule` option: specifications separated by commas, white space
/// around them ignored.
pub fn parse_net_rule_value(value: &str) -> (r: Result<Vec<NetworkRule>, SodagunError>)
    ensures
        match r {
            Ok(rules) => rules_meant(split(value@, ',')) == Ok::<Seq<RuleModel>, Failure>(
                rule_models(rules@),
            ),
            Err(e) => rules_meant(split(value@, ',')) == Err::<Seq<RuleModel>, Failure>(e@),
        },
{
    let specs = split_text(value, ',');
    let mut rules: Vec<NetworkRule> = Vec::new();
    let r = append_rules(&specs, &mut rules);
    assert(Seq::<RuleModel>::empty() + rule_models(rules@) =~= rule_models(rules@));
    match r {
        Ok(()) => Ok(rules),
        Err(e) => Err(e),
    }
}

/// Reads specifications and appends their rules to `rules`.
fn append_rules(specs: &Vec<String>, rules: &mut Vec<NetworkRule>) -> (r: Result<
    (),
    SodagunError,
>)
    ensures
        match r {
            Ok(()) => {
                &&& rules_meant(texts(specs@)) is Ok
                &&& rule_models(final(rules)@) == rule_models(old(rules)@) + rules_meant(
                    texts(specs@),
                )->Ok_0
            },
            Err(e) => rules_meant(texts(specs@)) == Err::<Seq<RuleModel>, Failure>(e@),
        },
{
    let ghost all = texts(specs@);
    let ghost start = rule_models(rules@);
    let mut i: usize = 0;
    while i < specs.len()
        invariant
            i <= specs.len(),
            all == texts(specs@),
            rules_meant(all.take(i as int)) is Ok,
            rule_models(rules@) == start + rules_meant(all.take(i as int))->Ok_0,
        decreases specs.len() - i,
    {
        let spec = trim_text(specs[i].as_str());
        proof {
            assert(all.take(i + 1).drop_last() =~= all.take(i as int));
            assert(all.take(i + 1).last() == specs@[i as int]@);
        }
        match parse_net_rule_spec(spec.as_str()) {
            Ok(rule) => {
                let ghost before = rules@;
                rules.push(rule);
                assert(rule_models(rules@) =~= rule_models(before).push(rule@));
                assert(start + rules_meant(all.take(i as int))->Ok_0.push(rule@) =~= (start
                    + rules_meant(all.take(i as int))->Ok_0).push(rule@));
            },
            Err(e) => {
                proof {
                    lemma_first_error(all, i + 1);
                }
                return Err(e);
            },
        }
        i += 1;
    }
    assert(all.take(i as int) =~= all);
    Ok(())
}

/// An error in the first `n` specifications is the error of all.
proof fn lemma_first_error(specs: Seq<Seq<char>>, n: int)
    requires
        0 <= n <= specs.len(),
        rules_meant(specs.take(n)) is Err,
    ensures
        rules_meant(specs) == rules_meant(specs.take(n)),
    decreases specs.len(),
{
    if n < specs.len() {
        assert(specs.drop_last().take(n) =~= specs.take(n));
        lemma_first_error(specs.drop_last(), n);
    } else {
        assert(specs.take(n) =~= specs);
    }
}

/// Reads the values of all `--net-rule` options, in their order.
pub fn parse_net_rules(values: &Vec<String>) -> (r: Result<Vec<NetworkRule>, SodagunError>)
    ensures
        match r {
            Ok(rules) => values_meant(texts(values@)) == Ok::<Seq<RuleModel>, Failure>(
                rule_models(rules@),
            ),
            Err(e) => values_meant(texts(values@)) == Err::<Seq<RuleModel>, Failure>(e@),
        },
{
    let ghost all = texts(values@);
    let mut rules: Vec<NetworkRule> = Vec::new();
    assert(rule_models(rules@) =~= Seq::empty());
    let mut i: usize = 0;
    while i < values.len()
        invariant
            i <= values.len(),
            all == texts(values@),
            values_meant(all.take(i as int)) == Ok::<Seq<RuleModel>, Failure>(rule_models(rules@)),
        decreases values.len() - i,
    {
        proof {
            assert(all.take(i + 1).drop_last() =~= all.take(i as int));
            assert(all.take(i + 1).last() == values@[i as int]@);
        }
        match parse_net_rule_value(values[i].as_str()) {
            Ok(more) => {
                let mut more = more;
                let ghost before = rules@;
                let ghost added = more@;
                rules.append(&mut more);
                assert(rule_models(rules@) =~= rule_models(before) + rule_models(added));
            },
            Err(e) => {
                proof {
                    lemma_first_value_error(all, i + 1);
                }
                return Err(e);
            },
        }
        i += 1;
    }
    assert(all.take(i as int) =~= all);
    Ok(rules)
}

/// The rules that the values of several options stand for; the first that is wrong decides.
pub open spec fn values_meant(values: Seq<Seq<char>>) -> Result<Seq<RuleModel>, Failure>
    decreases values.len(),
{
    if values.len() == 0 {
        Ok(Seq::empty())
    } else {
        match values_meant(values.drop_last()) {
            Err(e) => Err(e),
            Ok(before) => match rules_meant(split(values.last(), ',')) {
                Err(e) => Err(e),
                Ok(more) => Ok(before + more),
            },
        }
    }
}

/// An error in the first `n` values is the error of all.
proof fn lemma_first_value_error(values: Seq<Seq<char>>, n: int)
    requires
        0 <= n <= values.len(),
        values_meant(values.take(n)) is Err,
    ensures
        values_meant(values) == values_meant(values.take(n)),
    decreases values.len(),
{
    if n < values.len() {
        assert(values.drop_last().take(n) =~= values.take(n));
        lemma_first_value_error(values.drop_last(), n);
    } else {
        assert(values.take(n) =~= values);
    }
}

/// Every specification that is accepted gives one rule, and every rule is for egress.
pub proof fn law_one_egress_rule_each(specs: Seq<Seq<char>>)
    requires
        rules_meant(specs) is Ok,
    ensures
        rules_meant(specs)->Ok_0.len() == specs.len(),
        forall|i: int|
            0 <= i < specs.len() ==> (#[trigger] rules_meant(specs)->Ok_0[i]).direction
                == ConfigDirection::Egress,
    decreases specs.len(),
{
    if specs.len() > 0 {
        law_one_egress_rule_each(specs.drop_last());
        let before = rules_meant(specs.drop_last())->Ok_0;
        let rule = rule_meant(trim(specs.last()))->Ok_0;
        assert(rules_meant(specs)->Ok_0 == before.push(rule));
    }
}

/// The action that the option for a default names; the option's values are `allow` and `deny`.
pub fn parse_action(word: &str) -> (r: ConfigAction)
    requires
        action_named(word@) is Some,
    ensures
        Some(r) == action_named(word@),
{
    if same_text(word, "allow") {
        ConfigAction::Allow
    } else {
        ConfigAction::Deny
    }
}

} // verus!
