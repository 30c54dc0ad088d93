//! Values of environment variables and secrets: where they come from and what they may hold.

use crate::config::{EnvValue, SecretConfig, ValueSource};
use crate::error::{failure, fault, Failure, SodagunError};
use crate::host::{read_utf8, show_char, show_text, shown_char, shown_text};
use crate::text::{
    chars_of, control_char, is_control_char, signed_decimal, signed_decimal_text, trim_end,
    trim_end_text,
};
use vstd::pervasive::unreached;
use vstd::prelude::*;
use vstd::utf8::{decode_utf8, valid_utf8};

verus! {

/// What became of a command that was run for a value.
#[derive(Debug)]
pub enum CommandOutcome {
    /// It could not be run, and this is why.
    NotRun(String),
    /// It ended. There is no code where a signal ended it.
    Ended { success: bool, code: Option<i32>, stdout: Vec<u8> },
}

/// What the host is asked for to find a value.
#[derive(Debug)]
pub enum HostQuestion {
    /// Nothing: the value is known.
    Nothing,
    /// The value of an environment variable.
    Variable(String),
    /// The output of a shell command.
    Command(String),
}

/// What the host answers.
#[derive(Debug)]
pub enum HostAnswer {
    Nothing,
    /// The variable's value, if it is set to valid text.
    Variable(Option<String>),
    Command(CommandOutcome),
}

// ── Models ────────────────────────────────────────────────────────────────────

/// The first control character of a text.
pub open spec fn first_control(s: Seq<char>) -> Option<char>
    decreases s.len(),
{
    if s.len() == 0 {
        None
    } else if is_control_char(s[0]) {
        Some(s[0])
    } else {
        first_control(s.drop_first())
    }
}

/// What a value with a control character is answered with; `bad` and `value` are character and
/// value in quotes.
pub open spec fn control_failure(label: Seq<char>, bad: Seq<char>, value: Seq<char>) -> Failure {
    failure(
        "CONFIG_INVALID"@,
        "'"@ + label + "': value contains a control character ("@ + bad
            + "); values must be single-line plain text; got: "@ + value,
    )
}

/// What a value with a control character is answered with.
pub open spec fn control_complaint(label: Seq<char>, bad: char, value: Seq<char>) -> Failure {
    control_failure(label, shown_char(bad), shown_text(value))
}

/// `value`, provided that it holds no control character.
pub open spec fn checked_value(label: Seq<char>, value: Seq<char>) -> Result<Seq<char>, Failure> {
    match first_control(value) {
        Some(bad) => Err(control_complaint(label, bad, value)),
        None => Ok(value),
    }
}

/// The code that a command's failure is reported with.
pub open spec fn reported_code(code: Option<i32>) -> int {
    match code {
        Some(c) => c as int,
        None => -1,
    }
}

/// The value that a command gives: its output without the white space at its end.
pub open spec fn command_value(
    var_name: Seq<char>,
    cmd: Seq<char>,
    outcome: CommandOutcome,
) -> Result<Seq<char>, Failure> {
    match outcome {
        CommandOutcome::NotRun(why) => Err(
            failure(
                "CONFIG_INVALID"@,
                "'"@ + var_name + "': failed to run value_from_cmd: "@ + why@,
            ),
        ),
        CommandOutcome::Ended { success, code, stdout } => if !success {
            Err(
                failure(
                    "CONFIG_INVALID"@,
                    "'"@ + var_name + "': value_from_cmd exited with code "@ + signed_decimal(
                        reported_code(code),
                    ) + ": "@ + cmd,
                ),
            )
        } else if !valid_utf8(stdout@) {
            Err(
                failure(
                    "CONFIG_INVALID"@,
                    "'"@ + var_name + "': value_from_cmd output is not valid UTF-8"@,
                ),
            )
        } else {
            Ok(trim_end(decode_utf8(stdout@)))
        },
    }
}

/// What a source asks the host for; `None` unless exactly one of its fields is set.
pub open spec fn question_of(src: ValueSource) -> Option<HostQuestion> {
    match (src.value, src.value_from_env, src.value_from_cmd) {
        (Some(_), None, None) => Some(HostQuestion::Nothing),
        (None, Some(name), None) => Some(HostQuestion::Variable(name)),
        (None, None, Some(cmd)) => Some(HostQuestion::Command(cmd)),
        _ => None,
    }
}

/// Whether an answer answers a question.
pub open spec fn answers(question: Option<HostQuestion>, answer: HostAnswer) -> bool {
    match question {
        Some(HostQuestion::Variable(_)) => answer is Variable,
        Some(HostQuestion::Command(_)) => answer is Command,
        _ => true,
    }
}

/// The value of a source, given the host's answer; `owner` is how messages call the entry.
pub open spec fn source_value(
    owner: Seq<char>,
    var_name: Seq<char>,
    src: ValueSource,
    answer: HostAnswer,
) -> Result<Seq<char>, Failure> {
    match question_of(src) {
        Some(HostQuestion::Nothing) => Ok(src.value->0@),
        Some(HostQuestion::Variable(name)) => match answer->Variable_0 {
            Some(v) => Ok(v@),
            None => Err(
                failure(
                    "CONFIG_INVALID"@,
                    owner + " references env var '"@ + name@ + "' which is not set"@,
                ),
            ),
        },
        Some(HostQuestion::Command(cmd)) => command_value(var_name, cmd@, answer->Command_0),
        None => Err(
            failure(
                "CONFIG_INVALID"@,
                owner
                    + " must set exactly one of 'value', 'value_from_env', or 'value_from_cmd'"@,
            ),
        ),
    }
}

/// How messages call a variable.
pub open spec fn variable_owner(name: Seq<char>) -> Seq<char> {
    "'"@ + name + "'"@
}

/// How messages call a secret.
pub open spec fn secret_owner(name: Seq<char>) -> Seq<char> {
    "secret '"@ + name + "'"@
}

/// `r`, unless its value holds a control character.
pub open spec fn checked(label: Seq<char>, r: Result<Seq<char>, Failure>) -> Result<
    Seq<char>,
    Failure,
> {
    match r {
        Ok(v) => checked_value(label, v),
        Err(e) => Err(e),
    }
}

/// What an environment entry asks the host for.
pub open spec fn env_question(val: EnvValue) -> Option<HostQuestion> {
    match val {
        EnvValue::Literal(_) => Some(HostQuestion::Nothing),
        EnvValue::Dynamic(src) => question_of(src),
    }
}

/// The value of an environment entry.
pub open spec fn env_value(var_name: Seq<char>, val: EnvValue, answer: HostAnswer) -> Result<
    Seq<char>,
    Failure,
> {
    checked(
        var_name,
        match val {
            EnvValue::Literal(s) => Ok(s@),
            EnvValue::Dynamic(src) => source_value(
                variable_owner(var_name),
                var_name,
                src,
                answer,
            ),
        },
    )
}

/// The source of a secret.
pub open spec fn secret_source(secret: SecretConfig) -> ValueSource {
    ValueSource {
        value: secret.value,
        value_from_env: secret.value_from_env,
        value_from_cmd: secret.value_from_cmd,
    }
}

/// The value of a secret.
pub open spec fn secret_value(name: Seq<char>, secret: SecretConfig, answer: HostAnswer) -> Result<
    Seq<char>,
    Failure,
> {
    checked(name, source_value(secret_owner(name), name, secret_source(secret), answer))
}

/// Whether a result is the one that a model says.
pub open spec fn gives(r: Result<String, SodagunError>, m: Result<Seq<char>, Failure>) -> bool {
    match r {
        Ok(v) => m == Ok::<Seq<char>, Failure>(v@),
        Err(e) => m == Err::<Seq<char>, Failure>(e@),
    }
}

// ── Code ──────────────────────────────────────────────────────────────────────

/// The first control character of a text.
fn find_control(s: &str) -> (r: Option<char>)
    ensures
        r == first_control(s@),
{
    let chars = chars_of(s);
    let mut i: usize = 0;
    assert(s@.skip(0) =~= s@);
    while i < chars.len()
        invariant
            i <= chars.len(),
            chars@ == s@,
            first_control(s@.skip(i as int)) == first_control(s@),
        decreases chars.len() - i,
    {
        if control_char(chars[i]) {
            return Some(chars[i]);
        }
        assert(s@.skip(i as int).drop_first() =~= s@.skip(i + 1));
        i += 1;
    }
    None
}

/// The error for a value with a control character; `bad` and `value` are character and value in
/// quotes.
pub fn control_error(label: &str, bad: &str, value: &str) -> (e: SodagunError)
    ensures
        e@ == control_failure(label@, bad@, value@),
{
    fault(
        "CONFIG_INVALID",
        "'".to_owned().concat(label).concat("': value contains a control character (").concat(
            bad,
        ).concat("); values must be single-line plain text; got: ").concat(value),
    )
}

/// Rejects a value with a control character: values are single-line plain text.
pub fn validate_value_str(label: &str, value: &str) -> (r: Result<(), SodagunError>)
    ensures
        match r {
            Ok(()) => first_control(value@) is None,
            Err(e) => first_control(value@) is Some && e@ == control_complaint(
                label@,
                first_control(value@)->0,
                value@,
            ),
        },
{
    match find_control(value) {
        Some(bad) => {
            let bad = show_char(bad);
            let shown = show_text(value);
            Err(control_error(label, bad.as_str(), shown.as_str()))
        },
        None => Ok(()),
    }
}

/// What is logged before a command is run for a value.
pub fn command_note(var_name: &str, cmd: &str) -> (r: String)
    ensures
        r@ == "'"@ + var_name@ + "': running value_from_cmd: "@ + cmd@,
{
    "'".to_owned().concat(var_name).concat("': running value_from_cmd: ").concat(cmd)
}

/// The value that a command gives.
pub fn run_value_cmd(var_name: &str, cmd: &str, outcome: CommandOutcome) -> (r: Result<
    String,
    SodagunError,
>)
    ensures
        gives(r, command_value(var_name@, cmd@, outcome)),
{
    let start = "'".to_owned().concat(var_name);
    match outcome {
        CommandOutcome::NotRun(why) => Err(
            fault(
                "CONFIG_INVALID",
                start.concat("': failed to run value_from_cmd: ").concat(why.as_str()),
            ),
        ),
        CommandOutcome::Ended { success, code, stdout } => {
            if !success {
                let code = match code {
                    Some(c) => c,
                    None => -1,
                };
                let number = signed_decimal_text(code);
                return Err(
                    fault(
                        "CONFIG_INVALID",
                        start.concat("': value_from_cmd exited with code ").concat(
                            number.as_str(),
                        ).concat(": ").concat(cmd),
                    ),
                );
            }
            match read_utf8(stdout) {
                Some(text) => Ok(trim_end_text(text.as_str())),
                None => Err(
                    fault(
                        "CONFIG_INVALID",
                        start.concat("': value_from_cmd output is not valid UTF-8"),
                    ),
                ),
            }
        },
    }
}

/// Copies an optional text.
fn copy_text(o: &Option<String>) -> (r: Option<String>)
    ensures
        r == *o,
{
    match o {
        Some(s) => Some(s.clone()),
        None => None,
    }
}

/// What a source asks the host for.
pub fn source_question(src: &ValueSource) -> (r: Option<HostQuestion>)
    ensures
        r == question_of(*src),
{
    match (&src.value, &src.value_from_env, &src.value_from_cmd) {
        (Some(_), None, None) => Some(HostQuestion::Nothing),
        (None, Some(name), None) => Some(HostQuestion::Variable(name.clone())),
        (None, None, Some(cmd)) => Some(HostQuestion::Command(cmd.clone())),
        _ => None,
    }
}

/// The value of a source, given the host's answer.
fn resolve_source(owner: String, var_name: &str, src: &ValueSource, answer: HostAnswer) -> (r:
    Result<String, SodagunError>)
    requires
        answers(question_of(*src), answer),
    ensures
        gives(r, source_value(owner@, var_name@, *src, answer)),
{
    match source_question(src) {
        Some(HostQuestion::Nothing) => match &src.value {
            Some(v) => Ok(v.clone()),
            None => unreached(),
        },
        Some(HostQuestion::Variable(name)) => match answer {
            HostAnswer::Variable(Some(v)) => Ok(v),
            HostAnswer::Variable(None) => Err(
                fault(
                    "CONFIG_INVALID",
                    owner.concat(" references env var '").concat(name.as_str()).concat(
                        "' which is not set",
                    ),
                ),
            ),
            _ => unreached(),
        },
        Some(HostQuestion::Command(cmd)) => match answer {
            HostAnswer::Command(outcome) => run_value_cmd(var_name, cmd.as_str(), outcome),
            _ => unreached(),
        },
        None => Err(
            fault(
                "CONFIG_INVALID",
                owner.concat(
                    " must set exactly one of 'value', 'value_from_env', or 'value_from_cmd'",
                ),
            ),
        ),
    }
}

/// The value of a variable's source, given the host's answer.
pub fn resolve_value_source(var_name: &str, src: &ValueSource, answer: HostAnswer) -> (r: Result<
    String,
    SodagunError,
>)
    requires
        answers(question_of(*src), answer),
    ensures
        gives(r, source_value(variable_owner(var_name@), var_name@, *src, answer)),
{
    resolve_source("'".to_owned().concat(var_name).concat("'"), var_name, src, answer)
}

/// What an environment entry asks the host for.
pub fn env_value_question(val: &EnvValue) -> (r: Option<HostQuestion>)
    ensures
        r == env_question(*val),
{
    match val {
        EnvValue::Literal(_) => Some(HostQuestion::Nothing),
        EnvValue::Dynamic(src) => source_question(src),
    }
}

/// The value of an environment entry, given the host's answer.
pub fn resolve_env_value(var_name: &str, val: &EnvValue, answer: HostAnswer) -> (r: Result<
    String,
    SodagunError,
>)
    requires
        answers(env_question(*val), answer),
    ensures
        gives(r, env_value(var_name@, *val, answer)),
{
    let resolved = match val {
        EnvValue::Literal(s) => s.clone(),
        EnvValue::Dynamic(src) => match resolve_value_source(var_name, src, answer) {
            Ok(v) => v,
            Err(e) => return Err(e),
        },
    };
    match validate_value_str(var_name, resolved.as_str()) {
        Ok(()) => Ok(resolved),
        Err(e) => Err(e),
    }
}

/// The source of a secret.
fn source_of_secret(secret: &SecretConfig) -> (r: ValueSource)
    ensures
        r == secret_source(*secret),
{
    ValueSource {
        value: copy_text(&secret.value),
        value_from_env: copy_text(&secret.value_from_env),
        value_from_cmd: copy_text(&secret.value_from_cmd),
    }
}

/// What a secret asks the host for.
pub fn secret_question(secret: &SecretConfig) -> (r: Option<HostQuestion>)
    ensures
        r == question_of(secret_source(*secret)),
{
    source_question(&source_of_secret(secret))
}

/// The value of a secret, given the host's answer.
pub fn resolve_secret_value(name: &str, secret: &SecretConfig, answer: HostAnswer) -> (r: Result<
    String,
    SodagunError,
>)
    requires
        answers(question_of(secret_source(*secret)), answer),
    ensures
        gives(r, secret_value(name@, *secret, answer)),
{
    let owner = "secret '".to_owned().concat(name).concat("'");
    let v = match resolve_source(owner, name, &source_of_secret(secret), answer) {
        Ok(v) => v,
        Err(e) => return Err(e),
    };
    match validate_value_str(name, v.as_str()) {
        Ok(()) => Ok(v),
        Err(e) => Err(e),
    }
}

// ── Laws ──────────────────────────────────────────────────────────────────────

/// A text has no control character exactly where none of its characters is one.
pub proof fn lemma_first_control(s: Seq<char>)
    ensures
        first_control(s) is None <==> forall|i: int|
            0 <= i < s.len() ==> !is_control_char(#[trigger] s[i]),
    decreases s.len(),
{
    if s.len() > 0 {
        let rest = s.drop_first();
        lemma_first_control(rest);
        if !is_control_char(s[0]) {
            if first_control(rest) is None {
                assert forall|i: int| 0 <= i < s.len() implies !is_control_char(
                    #[trigger] s[i],
                ) by {
                    if i > 0 {
                        assert(s[i] == rest[i - 1]);
                    }
                }
            } else {
                let j = choose|j: int| 0 <= j < rest.len() && is_control_char(#[trigger] rest[j]);
                assert(s[j + 1] == rest[j]);
            }
        }
    }
}

/// Whatever the host answers, a value that reaches a sandbox is plain text on one line: no
/// variable and no secret ever holds a control character.
pub proof fn law_values_are_plain(
    name: Seq<char>,
    val: EnvValue,
    secret: SecretConfig,
    answer: HostAnswer,
)
    ensures
        env_value(name, val, answer) matches Ok(v) ==> forall|i: int|
            0 <= i < v.len() ==> !is_control_char(#[trigger] v[i]),
        secret_value(name, secret, answer) matches Ok(v) ==> forall|i: int|
            0 <= i < v.len() ==> !is_control_char(#[trigger] v[i]),
{
    if let Ok(v) = env_value(name, val, answer) {
        lemma_first_control(v);
    }
    if let Ok(v) = secret_value(name, secret, answer) {
        lemma_first_control(v);
    }
}

/// A source of which not exactly one field is set is refused whatever the host answers.
pub proof fn law_one_source(
    owner: Seq<char>,
    name: Seq<char>,
    src: ValueSource,
    answer: HostAnswer,
)
    requires
        ({
            let a: int = if src.value is Some { 1 } else { 0 };
            let b: int = if src.value_from_env is Some { 1 } else { 0 };
            let c: int = if src.value_from_cmd is Some { 1 } else { 0 };
            a + b + c != 1
        }),
    ensures
        source_value(owner, name, src, answer) is Err,
{
}

} // verus!
