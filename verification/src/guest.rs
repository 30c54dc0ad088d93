//! Commands in the guest: their program and arguments, and the variables given with `--env`.

use crate::error::{failure, fault, Failure, SodagunError};
use crate::table::Table;
use crate::text::{chars_of, cut, cut_text, texts};
use crate::values::{control_complaint, first_control, validate_value_str};
use vstd::prelude::*;

verus! {

// ── Shell quoting ─────────────────────────────────────────────────────────────

/// `s` with every single quote replaced by `'\''`, which ends a quotation, adds a quote and
/// begins a quotation.
pub open spec fn quotes_escaped(s: Seq<char>) -> Seq<char>
    decreases s.len(),
{
    if s.len() == 0 {
        Seq::empty()
    } else if s.last() == '\'' {
        quotes_escaped(s.drop_last()) + seq!['\'', '\\', '\'', '\'']
    } else {
        quotes_escaped(s.drop_last()).push(s.last())
    }
}

/// `s` in POSIX single quotes.
pub open spec fn single_quoted(s: Seq<char>) -> Seq<char> {
    seq!['\''] + quotes_escaped(s) + seq!['\'']
}

/// What a POSIX shell reads a word as that is made of single-quoted parts and of characters
/// after a backslash; `None` for any other text. `quoted` says whether the word begins inside
/// quotes.
pub open spec fn shell_word(word: Seq<char>, quoted: bool) -> Option<Seq<char>>
    decreases word.len(),
{
    if word.len() == 0 {
        if quoted {
            None
        } else {
            Some(Seq::empty())
        }
    } else if word[0] == '\'' {
        shell_word(word.skip(1), !quoted)
    } else if quoted {
        match shell_word(word.skip(1), true) {
            Some(rest) => Some(seq![word[0]] + rest),
            None => None,
        }
    } else if word[0] == '\\' && word.len() > 1 {
        match shell_word(word.skip(2), false) {
            Some(rest) => Some(seq![word[1]] + rest),
            None => None,
        }
    } else {
        None
    }
}

/// Wraps `s` in POSIX single quotes.
pub fn shell_single_quote(s: &str) -> (r: String)
    ensures
        r@ == single_quoted(s@),
{
    let chars = chars_of(s);
    let mut r = String::new();
    r.push('\'');
    let mut i: usize = 0;
    assert(r@ =~= seq!['\''] + quotes_escaped(s@.take(0)));
    while i < chars.len()
        invariant
            i <= chars.len(),
            chars@ == s@,
            r@ == seq!['\''] + quotes_escaped(s@.take(i as int)),
        decreases chars.len() - i,
    {
        let ghost before = r@;
        assert(s@.take(i + 1).drop_last() =~= s@.take(i as int));
        if chars[i] == '\'' {
            r.push('\'');
            r.push('\\');
            r.push('\'');
            r.push('\'');
        } else {
            r.push(chars[i]);
        }
        assert(r@ =~= seq!['\''] + quotes_escaped(s@.take(i + 1)));
        i += 1;
    }
    assert(s@.take(i as int) =~= s@);
    r.push('\'');
    assert(r@ =~= single_quoted(s@));
    r
}

/// Inside quotes, an escaped text and what follows it read as the text and what follows it.
proof fn lemma_escaped_word(s: Seq<char>, tail: Seq<char>)
    ensures
        shell_word(quotes_escaped(s) + tail, true) == match shell_word(tail, true) {
            Some(rest) => Some(s + rest),
            None => None,
        },
    decreases s.len(),
{
    if s.len() == 0 {
        assert(quotes_escaped(s) + tail =~= tail);
        if let Some(rest) = shell_word(tail, true) {
            assert(s + rest =~= rest);
        }
    } else {
        let init = s.drop_last();
        let last = s.last();
        if last == '\'' {
            let piece = seq!['\'', '\\', '\'', '\''];
            let more = piece + tail;
            assert(quotes_escaped(s) + tail =~= quotes_escaped(init) + more);
            lemma_escaped_word(init, more);
            // Out of the quotes, one escaped quote, back into the quotes.
            let m1 = more.skip(1);
            let m3 = m1.skip(2);
            assert(more[0] == '\'' && m1[0] == '\\' && m1[1] == '\'' && m3[0] == '\'');
            assert(m3.skip(1) =~= tail);
            assert(shell_word(m3, false) == shell_word(tail, true));
            assert(shell_word(more, true) == shell_word(m1, false));
            if let Some(rest) = shell_word(tail, true) {
                assert(shell_word(more, true) == Some(seq!['\''] + rest));
                assert(init + (seq!['\''] + rest) =~= s + rest);
            }
        } else {
            let more = seq![last] + tail;
            assert(quotes_escaped(s) + tail =~= quotes_escaped(init) + more);
            lemma_escaped_word(init, more);
            assert(more.skip(1) =~= tail);
            if let Some(rest) = shell_word(tail, true) {
                assert(init + (seq![last] + rest) =~= s + rest);
            }
        }
    }
}

/// A shell reads a quoted text as the text itself, whatever it holds.
pub proof fn law_quoting_is_undone_by_the_shell(s: Seq<char>)
    ensures
        shell_word(single_quoted(s), false) == Some(s),
{
    let close = seq!['\''];
    let inner = quotes_escaped(s) + close;
    assert(single_quoted(s).skip(1) =~= inner);
    lemma_escaped_word(s, close);
    assert(close.skip(1) =~= Seq::empty());
    assert(shell_word(close.skip(1), false) == Some(Seq::<char>::empty()));
    assert(shell_word(close, true) == Some(Seq::<char>::empty()));
    assert(s + Seq::<char>::empty() =~= s);
}

// ── Invocation ────────────────────────────────────────────────────────────────

/// The shell commands that export variables.
pub open spec fn exports(env: Seq<(Seq<char>, String)>) -> Seq<char>
    decreases env.len(),
{
    if env.len() == 0 {
        Seq::empty()
    } else {
        exports(env.drop_last()) + "export "@ + env.last().0 + "="@ + single_quoted(
            env.last().1@,
        ) + "; "@
    }
}

/// The program that a command runs, or a shell if there is no command.
pub open spec fn effective_program(cmd: Seq<Seq<char>>) -> Seq<char> {
    if cmd.len() == 0 {
        "/bin/sh"@
    } else {
        cmd[0]
    }
}

/// The arguments of a command.
pub open spec fn effective_args(cmd: Seq<Seq<char>>) -> Seq<Seq<char>> {
    if cmd.len() == 0 {
        Seq::empty()
    } else {
        cmd.skip(1)
    }
}

/// The program and arguments that run `cmd`: itself where there is nothing to set up, and else a
/// shell that exports the variables and is replaced by the command.
pub open spec fn guest_invocation(
    cmd: Seq<Seq<char>>,
    env: Seq<(Seq<char>, String)>,
    login: bool,
) -> (Seq<char>, Seq<Seq<char>>) {
    if env.len() == 0 && !login {
        (effective_program(cmd), effective_args(cmd))
    } else {
        let options = if login {
            seq!["-l"@, "-c"@]
        } else {
            seq!["-c"@]
        };
        (
            "/bin/sh"@,
            options + seq![exports(env) + "exec \"$0\" \"$@\""@, effective_program(cmd)]
                + effective_args(cmd),
        )
    }
}

/// The program and arguments for running `cmd` in the guest.
pub fn build_guest_invocation(cmd: &[String], env: &Table<String>, login: bool) -> (r: (
    String,
    Vec<String>,
))
    ensures
        r.0@ == guest_invocation(texts(cmd@), env.pairs(), login).0,
        texts(r.1@) == guest_invocation(texts(cmd@), env.pairs(), login).1,
{
    let program = if cmd.len() == 0 {
        "/bin/sh".to_owned()
    } else {
        cmd[0].clone()
    };
    if env.is_empty() && !login {
        let mut args: Vec<String> = Vec::new();
        push_args(&mut args, cmd);
        assert(texts(args@) =~= effective_args(texts(cmd@)));
        return (program, args);
    }
    let script = export_script(env).concat("exec \"$0\" \"$@\"");
    let mut args: Vec<String> = Vec::new();
    if login {
        args.push("-l".to_owned());
    }
    args.push("-c".to_owned());
    args.push(script);
    args.push(program);
    let ghost before = args@;
    push_args(&mut args, cmd);
    proof {
        let g = guest_invocation(texts(cmd@), env.pairs(), login).1;
        assert(texts(args@) =~= texts(before) + effective_args(texts(cmd@)));
        if login {
            assert(texts(before) =~= seq!["-l"@, "-c"@] + seq![
                exports(env.pairs()) + "exec \"$0\" \"$@\""@,
                effective_program(texts(cmd@)),
            ]);
        } else {
            assert(texts(before) =~= seq!["-c"@] + seq![
                exports(env.pairs()) + "exec \"$0\" \"$@\""@,
                effective_program(texts(cmd@)),
            ]);
        }
    }
    ("/bin/sh".to_owned(), args)
}

/// Appends the arguments of a command.
fn push_args(args: &mut Vec<String>, cmd: &[String])
    ensures
        texts(final(args)@) == texts(old(args)@) + effective_args(texts(cmd@)),
{
    let ghost start = texts(args@);
    let ghost rest = effective_args(texts(cmd@));
    let mut i: usize = 1;
    assert(start + rest.take(0) =~= start);
    while i < cmd.len()
        invariant
            1 <= i,
            cmd.len() > 0 ==> i <= cmd.len(),
            rest == effective_args(texts(cmd@)),
            cmd.len() > 0 ==> texts(args@) == start + rest.take(i - 1),
            cmd.len() == 0 ==> texts(args@) == start,
        decreases cmd.len() - i,
    {
        let ghost before = args@;
        args.push(cmd[i].clone());
        assert(texts(args@) =~= texts(before).push(cmd@[i as int]@));
        assert(rest.take(i as int) =~= rest.take(i - 1).push(cmd@[i as int]@));
        assert(start + rest.take(i as int) =~= (start + rest.take(i - 1)).push(cmd@[i as int]@));
        i += 1;
    }
    if cmd.len() > 0 {
        assert(rest.take(i - 1) =~= rest);
    } else {
        assert(start + rest =~= start);
    }
}

/// The shell commands that export variables.
fn export_script(env: &Table<String>) -> (r: String)
    ensures
        r@ == exports(env.pairs()),
{
    let n = env.len();
    let mut script = String::new();
    let mut i: usize = 0;
    assert(script@ =~= exports(env.pairs().take(0)));
    while i < n
        invariant
            i <= n,
            n == env.pairs().len(),
            script@ == exports(env.pairs().take(i as int)),
        decreases n - i,
    {
        let quoted = shell_single_quote(env.value_at(i).as_str());
        script = script.concat("export ").concat(env.key_at(i)).concat("=").concat(
            quoted.as_str(),
        ).concat("; ");
        assert(env.pairs().take(i + 1).drop_last() =~= env.pairs().take(i as int));
        i += 1;
    }
    assert(env.pairs().take(i as int) =~= env.pairs());
    script
}

// ── Variables of the command line ─────────────────────────────────────────────

/// How messages call the name in an `--env` option.
pub open spec fn key_label(key: Seq<char>) -> Seq<char> {
    "--env key '"@ + key + "'"@
}

/// How messages call the value in an `--env` option.
pub open spec fn value_label(key: Seq<char>) -> Seq<char> {
    "--env value for '"@ + key + "'"@
}

/// The name and value in an `--env` option: what stands before and after the first `=`, neither
/// with a control character.
pub open spec fn env_pair(kv: Seq<char>) -> Result<(Seq<char>, Seq<char>), Failure> {
    match cut(kv, '=') {
        None => Err(
            failure("CONFIG_INVALID"@, "--env value '"@ + kv + "' must be in KEY=VALUE format"@),
        ),
        Some((key, value)) => match first_control(key) {
            Some(bad) => Err(control_complaint(key_label(key), bad, key)),
            None => match first_control(value) {
                Some(bad) => Err(control_complaint(value_label(key), bad, value)),
                None => Ok((key, value)),
            },
        },
    }
}

/// Splits a `KEY=VALUE` option and rejects control characters in either part.
pub fn validate_and_extract_env_kv(kv: &str) -> (r: Result<(String, String), SodagunError>)
    ensures
        match r {
            Ok((key, value)) => env_pair(kv@) == Ok::<(Seq<char>, Seq<char>), Failure>(
                (key@, value@),
            ),
            Err(e) => env_pair(kv@) == Err::<(Seq<char>, Seq<char>), Failure>(e@),
        },
{
    let (key, value) = match cut_text(kv, '=') {
        Some(pair) => pair,
        None => {
            return Err(
                fault(
                    "CONFIG_INVALID",
                    "--env value '".to_owned().concat(kv).concat("' must be in KEY=VALUE format"),
                ),
            );
        },
    };
    let label = "--env key '".to_owned().concat(key.as_str()).concat("'");
    if let Err(e) = validate_value_str(label.as_str(), key.as_str()) {
        return Err(e);
    }
    let label = "--env value for '".to_owned().concat(key.as_str()).concat("'");
    if let Err(e) = validate_value_str(label.as_str(), value.as_str()) {
        return Err(e);
    }
    Ok((key, value))
}

/// The variables that several `--env` options give: the last one wins where a name occurs more
/// than once, and the first option that is wrong decides.
pub open spec fn env_options(kvs: Seq<Seq<char>>) -> Result<Map<Seq<char>, Seq<char>>, Failure>
    decreases kvs.len(),
{
    if kvs.len() == 0 {
        Ok(Map::empty())
    } else {
        match env_options(kvs.drop_last()) {
            Err(e) => Err(e),
            Ok(m) => match env_pair(kvs.last()) {
                Err(e) => Err(e),
                Ok((key, value)) => Ok(m.insert(key, value)),
            },
        }
    }
}

/// The texts that a map of strings holds.
pub open spec fn text_map(m: Map<Seq<char>, String>) -> Map<Seq<char>, Seq<char>> {
    m.map_values(|s: String| s@)
}

/// Reads all `--env` options.
pub fn collect_env(kvs: &Vec<String>) -> (r: Result<Table<String>, SodagunError>)
    ensures
        match r {
            Ok(t) => env_options(texts(kvs@)) == Ok::<Map<Seq<char>, Seq<char>>, Failure>(
                text_map(t@),
            ),
            Err(e) => env_options(texts(kvs@)) == Err::<Map<Seq<char>, Seq<char>>, Failure>(e@),
        },
{
    let ghost all = texts(kvs@);
    let mut t: Table<String> = Table::new();
    assert(text_map(t@) =~= Map::empty());
    let mut i: usize = 0;
    while i < kvs.len()
        invariant
            i <= kvs.len(),
            all == texts(kvs@),
            env_options(all.take(i as int)) == Ok::<Map<Seq<char>, Seq<char>>, Failure>(
                text_map(t@),
            ),
        decreases kvs.len() - i,
    {
        proof {
            assert(all.take(i + 1).drop_last() =~= all.take(i as int));
            assert(all.take(i + 1).last() == kvs@[i as int]@);
        }
        match validate_and_extract_env_kv(kvs[i].as_str()) {
            Ok((key, value)) => {
                let ghost before = t@;
                let ghost k = key@;
                let ghost v = value@;
                t.insert(key, value);
                assert(text_map(t@) =~= text_map(before).insert(k, v));
            },
            Err(e) => {
                proof {
                    lemma_first_option_error(all, i + 1);
                }
                return Err(e);
            },
        }
        i += 1;
    }
    assert(all.take(i as int) =~= all);
    Ok(t)
}

/// An error in the first `n` options is the error of all.
proof fn lemma_first_option_error(kvs: Seq<Seq<char>>, n: int)
    requires
        0 <= n <= kvs.len(),
        env_options(kvs.take(n)) is Err,
    ensures
        env_options(kvs) == env_options(kvs.take(n)),
    decreases kvs.len(),
{
    if n < kvs.len() {
        assert(kvs.drop_last().take(n) =~= kvs.take(n));
        lemma_first_option_error(kvs.drop_last(), n);
    } else {
        assert(kvs.take(n) =~= kvs);
    }
}

/// An `--env` option that is accepted is its name, `=` and its value, and the name holds no `=`.
pub proof fn law_env_pair_is_the_option(kv: Seq<char>)
    requires
        env_pair(kv) is Ok,
    ensures
        kv == env_pair(kv)->Ok_0.0 + "="@ + env_pair(kv)->Ok_0.1,
        !crate::text::has_char(env_pair(kv)->Ok_0.0, '='),
{
    reveal_strlit("=");
    crate::text::lemma_find_char(kv, '=');
    let i = crate::text::find_char(kv, '=') as int;
    assert(kv =~= kv.take(i) + "="@ + kv.skip(i + 1));
}

} // verus!
