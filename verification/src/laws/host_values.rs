//! Laws of variables and secrets: where their values come from.

use crate::config::{EnvValue, SecretConfig, ValueSource};
use crate::error::SodagunError;
use crate::laws::running::printable;
use crate::laws::texts::law_trim_end;
use crate::text::is_white_space;
use crate::values::{
    answers, env_value_question, lemma_first_control, question_of, resolve_env_value,
    resolve_secret_value, secret_question, secret_source, source_value, CommandOutcome, HostAnswer,
    HostQuestion,
};
use vstd::prelude::*;
use vstd::utf8::{decode_utf8, valid_utf8};

verus! {

/// Whether exactly one of the three places for a value is named.
pub open spec fn one_place(
    value: Option<String>,
    from_env: Option<String>,
    from_cmd: Option<String>,
) -> bool {
    ||| value is Some && from_env is None && from_cmd is None
    ||| value is None && from_env is Some && from_cmd is None
    ||| value is None && from_env is None && from_cmd is Some
}

/// Whether `text` is what a value from these places is, if the host answers `answer`: the value
/// itself, what the host's variable holds, or what the command printed, without the white space
/// at its end.
pub open spec fn comes_from(
    text: Seq<char>,
    value: Option<String>,
    from_env: Option<String>,
    from_cmd: Option<String>,
    answer: HostAnswer,
) -> bool {
    &&& one_place(value, from_env, from_cmd)
    &&& value is Some ==> text == value->0@
    &&& from_env is Some ==> match answer {
        HostAnswer::Variable(Some(v)) => v@ == text,
        _ => false,
    }
    &&& from_cmd is Some ==> match answer {
        HostAnswer::Command(CommandOutcome::Ended { success, code: _, stdout }) => {
            &&& success
            &&& valid_utf8(stdout@)
            &&& ends_in_space(decode_utf8(stdout@), text)
        },
        _ => false,
    }
}

/// Whether `printed` is `text` with white space behind it, and `text` does not end in white space.
pub open spec fn ends_in_space(printed: Seq<char>, text: Seq<char>) -> bool {
    &&& text.len() > 0 ==> !is_white_space(text.last())
    &&& exists|space: Seq<char>|
        printed == #[trigger] (text + space) && forall|i: int|
            0 <= i < space.len() ==> is_white_space(#[trigger] space[i])
}

proof fn lemma_trim_end_is(printed: Seq<char>, text: Seq<char>)
    ensures
        ends_in_space(printed, text) <==> crate::text::trim_end(printed) == text,
    decreases printed.len(),
{
    if ends_in_space(printed, text) {
        let space = choose|space: Seq<char>|
            printed == #[trigger] (text + space) && forall|i: int|
                0 <= i < space.len() ==> is_white_space(#[trigger] space[i]);
        law_trim_end(text, space);
    }
    if crate::text::trim_end(printed) == text {
        if printed.len() > 0 && is_white_space(printed.last()) {
            lemma_trim_end_is(printed.drop_last(), text);
            let space = choose|space: Seq<char>|
                printed.drop_last() == #[trigger] (text + space) && forall|i: int|
                    0 <= i < space.len() ==> is_white_space(#[trigger] space[i]);
            let more = space.push(printed.last());
            assert(ends_in_space(printed.drop_last(), text));
            assert(printed.drop_last() == text + space);
            assert(printed =~= printed.drop_last().push(printed.last()));
            assert(printed =~= text + more);
            assert forall|i: int| 0 <= i < more.len() implies is_white_space(
                #[trigger] more[i],
            ) by {
                if i < space.len() {
                    assert(more[i] == space[i]);
                }
            }
        } else {
            assert(printed =~= text + Seq::<char>::empty());
        }
    }
}

pub proof fn lemma_source(
    owner: Seq<char>,
    name: Seq<char>,
    src: ValueSource,
    answer: HostAnswer,
    text: Seq<char>,
)
    requires
        answers(question_of(src), answer),
    ensures
        comes_from(text, src.value, src.value_from_env, src.value_from_cmd, answer) <==> (
        source_value(owner, name, src, answer) is Ok && source_value(
            owner,
            name,
            src,
            answer,
        )->Ok_0 == text),
{
    if let HostAnswer::Command(CommandOutcome::Ended { success, code, stdout }) = answer {
        lemma_trim_end_is(decode_utf8(stdout@), text);
    }
}

/// A variable with a literal value has that value, unless it holds a control character.
pub proof fn law_literal_is_kept(
    name: &str,
    literal: String,
    answer: HostAnswer,
    r: Result<String, SodagunError>,
)
    requires
        call_ensures(resolve_env_value, (name, &EnvValue::Literal(literal), answer), r),
    ensures
        r is Ok <==> printable(literal@),
        r matches Ok(v) ==> v@ == literal@,
{
    lemma_first_control(literal@);
}

/// A variable has the value that its source gives: it is resolved exactly where just one source is
/// named, that source has a value, and the value holds no control character.
pub proof fn law_variable_has_its_sources_value(
    name: &str,
    src: ValueSource,
    answer: HostAnswer,
    r: Result<String, SodagunError>,
)
    requires
        answers(question_of(src), answer),
        call_ensures(resolve_env_value, (name, &EnvValue::Dynamic(src), answer), r),
    ensures
        r matches Ok(v) ==> printable(v@) && comes_from(
            v@,
            src.value,
            src.value_from_env,
            src.value_from_cmd,
            answer,
        ),
        r is Err ==> forall|text: Seq<char>|
            #[trigger] comes_from(
                text,
                src.value,
                src.value_from_env,
                src.value_from_cmd,
                answer,
            ) ==> !printable(text),
{
    let owner = crate::values::variable_owner(name@);
    if let Ok(v) = r {
        lemma_source(owner, name@, src, answer, v@);
        lemma_first_control(v@);
    } else {
        assert forall|text: Seq<char>|
            #[trigger] comes_from(
                text,
                src.value,
                src.value_from_env,
                src.value_from_cmd,
                answer,
            ) implies !printable(text) by {
            lemma_source(owner, name@, src, answer, text);
            lemma_first_control(text);
        }
    }
}

/// The same of a secret.
pub proof fn law_secret_has_its_sources_value(
    name: &str,
    secret: SecretConfig,
    answer: HostAnswer,
    r: Result<String, SodagunError>,
)
    requires
        answers(question_of(secret_source(secret)), answer),
        call_ensures(resolve_secret_value, (name, &secret, answer), r),
    ensures
        r matches Ok(v) ==> printable(v@) && comes_from(
            v@,
            secret.value,
            secret.value_from_env,
            secret.value_from_cmd,
            answer,
        ),
        r is Err ==> forall|text: Seq<char>|
            #[trigger] comes_from(
                text,
                secret.value,
                secret.value_from_env,
                secret.value_from_cmd,
                answer,
            ) ==> !printable(text),
{
    let owner = crate::values::secret_owner(name@);
    let src = secret_source(secret);
    if let Ok(v) = r {
        lemma_source(owner, name@, src, answer, v@);
        lemma_first_control(v@);
    } else {
        assert forall|text: Seq<char>|
            #[trigger] comes_from(
                text,
                secret.value,
                secret.value_from_env,
                secret.value_from_cmd,
                answer,
            ) implies !printable(text) by {
            lemma_source(owner, name@, src, answer, text);
            lemma_first_control(text);
        }
    }
}

/// The host is asked for what a value needs: the variable that is named, or the command that is to
/// be run, and for nothing where the value is there or its source is wrong.
pub proof fn law_host_is_asked_for_what_is_named(
    val: EnvValue,
    asked: Option<HostQuestion>,
    secret: SecretConfig,
    asked_for_secret: Option<HostQuestion>,
)
    requires
        call_ensures(env_value_question, (&val,), asked),
        call_ensures(secret_question, (&secret,), asked_for_secret),
    ensures
        val is Literal ==> asked == Some(HostQuestion::Nothing),
        val matches EnvValue::Dynamic(src) ==> {
            &&& asked is None <==> !one_place(src.value, src.value_from_env, src.value_from_cmd)
            &&& asked matches Some(HostQuestion::Variable(v)) ==> src.value_from_env == Some(v)
            &&& asked matches Some(HostQuestion::Command(c)) ==> src.value_from_cmd == Some(c)
            &&& asked == Some(HostQuestion::Nothing) ==> src.value is Some
        },
        asked_for_secret is None <==> !one_place(
            secret.value,
            secret.value_from_env,
            secret.value_from_cmd,
        ),
        asked_for_secret matches Some(HostQuestion::Variable(v)) ==> secret.value_from_env == Some(
            v,
        ),
        asked_for_secret matches Some(HostQuestion::Command(c)) ==> secret.value_from_cmd == Some(
            c,
        ),
        asked_for_secret == Some(HostQuestion::Nothing) ==> secret.value is Some,
{
}

} // verus!
