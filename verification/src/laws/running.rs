//! Laws of `sandbox exec` and `sandbox attach`: what is run in the guest, and with which variables.

use crate::commands::sandbox::{attach_invocation, exec_invocation, AttachArgs, ExecArgs};
use crate::error::SodagunError;
use crate::guest::{
    build_guest_invocation, collect_env, effective_args, env_options, env_pair, exports,
    guest_invocation, law_quoting_is_undone_by_the_shell, shell_word, single_quoted, text_map,
    validate_and_extract_env_kv,
};
use crate::laws::texts::law_cut;
use crate::table::Table;
use crate::text::{is_control_char, texts};
use crate::values::lemma_first_control;
use vstd::prelude::*;

verus! {

/// Program and arguments as one list.
pub open spec fn whole(program: String, args: Seq<String>) -> Seq<Seq<char>> {
    seq![program@] + Seq::new(args.len(), |i: int| args[i]@)
}

/// Whether a list ends in another.
pub open spec fn ends_in(list: Seq<Seq<char>>, end: Seq<Seq<char>>) -> bool {
    end.len() <= list.len() && forall|i: int|
        0 <= i < end.len() ==> #[trigger] list[list.len() - end.len() + i] == end[i]
}

proof fn lemma_ends_in(cmd: Seq<Seq<char>>, env: Seq<(Seq<char>, String)>, login: bool)
    requires
        cmd.len() > 0,
    ensures
        ({
            let g = guest_invocation(cmd, env, login);
            ends_in(seq![g.0] + g.1, cmd)
        }),
{
    let g = guest_invocation(cmd, env, login);
    let all = seq![g.0] + g.1;
    let n = all.len() - cmd.len();
    assert(effective_args(cmd) =~= cmd.skip(1));
    assert forall|i: int| 0 <= i < cmd.len() implies #[trigger] all[n + i] == cmd[i] by {
        if i > 0 {
            assert(cmd.skip(1)[i - 1] == cmd[i]);
        }
    }
}

/// A command is run whole: program and arguments, taken as one list, end in the command, argument
/// for argument, whatever the variables are and whether or not there is a login shell.
pub proof fn law_whole_command_is_run(
    cmd: &[String],
    env: Table<String>,
    login: bool,
    r: (String, Vec<String>),
)
    requires
        call_ensures(build_guest_invocation, (cmd, &env, login), r),
        cmd@.len() > 0,
    ensures
        ends_in(whole(r.0, r.1@), texts(cmd@)),
{
    lemma_ends_in(texts(cmd@), env.pairs(), login);
    let g = guest_invocation(texts(cmd@), env.pairs(), login);
    assert(texts(r.1@) =~= Seq::new(r.1@.len(), |i: int| r.1@[i]@));
    assert(whole(r.0, r.1@) =~= seq![g.0] + g.1);
}

/// The same of `sandbox exec`: what is run ends in the program that was given and all of its
/// arguments.
pub proof fn law_exec_runs_the_whole_command(
    args: ExecArgs,
    env: Table<String>,
    r: (String, Vec<String>),
)
    requires
        call_ensures(exec_invocation, (&args, &env), r),
    ensures
        ends_in(whole(r.0, r.1@), whole(args.cmd, args.args@)),
{
    let cmd = seq![args.cmd@] + texts(args.args@);
    lemma_ends_in(cmd, env.pairs(), !args.no_login);
    let g = guest_invocation(cmd, env.pairs(), !args.no_login);
    assert(texts(r.1@) =~= Seq::new(r.1@.len(), |i: int| r.1@[i]@));
    assert(whole(r.0, r.1@) =~= seq![g.0] + g.1);
    assert(whole(args.cmd, args.args@) =~= cmd);
}

/// The same of `sandbox attach`; without a command it runs a shell.
pub proof fn law_attach_runs_the_whole_command(
    args: AttachArgs,
    env: Table<String>,
    r: (String, Vec<String>),
)
    requires
        call_ensures(attach_invocation, (&args, &env), r),
    ensures
        args.cmd@.len() > 0 ==> ends_in(
            whole(r.0, r.1@),
            Seq::new(args.cmd@.len(), |i: int| args.cmd@[i]@),
        ),
        args.cmd@.len() == 0 ==> whole(r.0, r.1@).last() == "/bin/sh"@,
{
    let cmd = texts(args.cmd@);
    let g = guest_invocation(cmd, env.pairs(), !args.no_login);
    assert(texts(r.1@) =~= Seq::new(r.1@.len(), |i: int| r.1@[i]@));
    assert(whole(r.0, r.1@) =~= seq![g.0] + g.1);
    assert(cmd =~= Seq::new(args.cmd@.len(), |i: int| args.cmd@[i]@));
    if cmd.len() > 0 {
        lemma_ends_in(cmd, env.pairs(), !args.no_login);
    }
}

/// A command that needs neither variables nor a login shell is run as it is. Any other is run by a
/// shell, which is a login shell exactly where one is asked for, and which gets a script that ends
/// by handing over to the command.
pub proof fn law_shell_only_where_needed(
    cmd: &[String],
    env: Table<String>,
    login: bool,
    r: (String, Vec<String>),
)
    requires
        call_ensures(build_guest_invocation, (cmd, &env, login), r),
        cmd@.len() > 0,
    ensures
        env.pairs().len() == 0 && !login ==> whole(r.0, r.1@) == texts(cmd@),
        env.pairs().len() > 0 || login ==> {
            let at: int = if login {
                2
            } else {
                1
            };
            &&& r.0@ == "/bin/sh"@
            &&& r.1@.len() == at + 1 + cmd@.len()
            &&& login ==> r.1@[0]@ == "-l"@
            &&& r.1@[at - 1]@ == "-c"@
            &&& r.1@[at]@ == exports(env.pairs()) + "exec \"$0\" \"$@\""@
            &&& r.1@[at + 1]@ == cmd@[0]@
        },
{
    let t = texts(r.1@);
    assert(t.len() == r.1@.len());
    assert(texts(cmd@).len() == cmd@.len());
    assert(texts(cmd@)[0] == cmd@[0]@);
    if env.pairs().len() == 0 && !login {
        assert(whole(r.0, r.1@) =~= texts(cmd@)) by {
            assert(t =~= Seq::new(r.1@.len(), |i: int| r.1@[i]@));
            assert(texts(cmd@) =~= seq![texts(cmd@)[0]] + texts(cmd@).skip(1));
        }
    } else if login {
        assert(t[0] == r.1@[0]@ && t[1] == r.1@[1]@ && t[2] == r.1@[2]@ && t[3] == r.1@[3]@);
    } else {
        assert(t[0] == r.1@[0]@ && t[1] == r.1@[1]@ && t[2] == r.1@[2]@);
    }
}

/// `sandbox exec` and `sandbox attach` use a login shell unless they are told not to.
pub proof fn law_login_shell_is_the_default(
    args: ExecArgs,
    attach: AttachArgs,
    env: Table<String>,
    r: (String, Vec<String>),
    s: (String, Vec<String>),
)
    requires
        call_ensures(exec_invocation, (&args, &env), r),
        call_ensures(attach_invocation, (&attach, &env), s),
    ensures
        !args.no_login ==> r.0@ == "/bin/sh"@ && r.1@.len() > 0 && r.1@[0]@ == "-l"@,
        args.no_login && env.pairs().len() == 0 ==> r.0@ == args.cmd@ && r.1@.len()
            == args.args@.len(),
        !attach.no_login ==> s.0@ == "/bin/sh"@ && s.1@.len() > 0 && s.1@[0]@ == "-l"@,
        attach.no_login && env.pairs().len() == 0 && attach.cmd@.len() > 0 ==> s.0@
            == attach.cmd@[0]@,
{
    assert(texts(r.1@).len() == r.1@.len());
    assert(texts(s.1@).len() == s.1@.len());
    if !args.no_login {
        assert(texts(r.1@)[0] == r.1@[0]@);
    }
    if !attach.no_login {
        assert(texts(s.1@)[0] == s.1@[0]@);
    }
}

/// Every variable is exported, in its order: the commands for two lots are those for the first and
/// then those for the second, and the command for one variable sets its name to a word that the
/// shell reads as its value, whatever that holds.
pub proof fn law_every_variable_is_exported(
    first: Seq<(Seq<char>, String)>,
    second: Seq<(Seq<char>, String)>,
    one: (Seq<char>, String),
) -> (word: Seq<char>)
    ensures
        exports(first + second) == exports(first) + exports(second),
        exports(seq![one]) == "export "@ + one.0 + "="@ + word + "; "@,
        shell_word(word, false) == Some(one.1@),
    decreases second.len(),
{
    reveal_with_fuel(exports, 2);
    law_quoting_is_undone_by_the_shell(one.1@);
    let word = single_quoted(one.1@);
    assert(seq![one].drop_last() =~= Seq::empty());
    assert(exports(seq![one]) =~= "export "@ + one.0 + "="@ + word + "; "@);
    if second.len() == 0 {
        assert(first + second =~= first);
        assert(exports(first) + exports(second) =~= exports(first));
    } else {
        law_every_variable_is_exported(first, second.drop_last(), one);
        assert((first + second).drop_last() =~= first + second.drop_last());
        assert((first + second).last() == second.last());
        assert(exports(first + second) =~= exports(first) + exports(second));
    }
    word
}

/// A shell word outside quotes that begins with a quote is read up to the next quote as it stands:
/// what the shell makes of quoted text is that text.
pub proof fn law_shell_reads_quoted_text(s: Seq<char>)
    requires
        !s.contains('\''),
    ensures
        shell_word(seq!['\''] + s + seq!['\''], false) == Some(s),
{
    let inner = s + seq!['\''];
    assert((seq!['\''] + s + seq!['\'']).skip(1) =~= inner);
    lemma_quoted_text(s);
}

proof fn lemma_quoted_text(s: Seq<char>)
    requires
        !s.contains('\''),
    ensures
        shell_word(s + seq!['\''], true) == Some(s),
    decreases s.len(),
{
    let w = s + seq!['\''];
    if s.len() == 0 {
        assert(w =~= seq!['\'']);
        assert(w.skip(1) =~= Seq::empty());
        assert(shell_word(w.skip(1), false) == Some(Seq::<char>::empty()));
        assert(s =~= Seq::empty());
    } else {
        let rest = s.skip(1);
        assert(s.contains(s[0]));
        assert(!rest.contains('\'')) by {
            if rest.contains('\'') {
                let k = choose|k: int| 0 <= k < rest.len() && rest[k] == '\'';
                assert(s[k + 1] == '\'');
            }
        }
        lemma_quoted_text(rest);
        assert(w.skip(1) =~= rest + seq!['\'']);
        assert(seq![s[0]] + rest =~= s);
    }
}

// ── Variables of the command line ─────────────────────────────────────────────

/// Whether a text holds no control character.
pub open spec fn printable(s: Seq<char>) -> bool {
    forall|i: int| 0 <= i < s.len() ==> !is_control_char(#[trigger] s[i])
}

/// An option `NAME=value` gives the name and the value: cut at the first `=`, both as they stand,
/// and accepted exactly where neither holds a control character. An option without `=` is refused.
pub proof fn law_env_option(
    name: Seq<char>,
    value: Seq<char>,
    kv: &str,
    r: Result<(String, String), SodagunError>,
)
    requires
        call_ensures(validate_and_extract_env_kv, (kv,), r),
        !name.contains('='),
    ensures
        kv@ == name + "="@ + value ==> (r is Ok <==> printable(name) && printable(value)),
        kv@ == name + "="@ + value && r is Ok ==> (r->Ok_0).0@ == name && (r->Ok_0).1@ == value,
        kv@ == name ==> r is Err,
        r is Err ==> r->Err_0@.code == "CONFIG_INVALID"@,
{
    reveal_strlit("=");
    assert("="@ =~= seq!['=']);
    law_cut(name, '=', value);
    lemma_first_control(name);
    lemma_first_control(value);
}

proof fn lemma_options(kvs: Seq<Seq<char>>)
    ensures
        env_options(kvs) is Ok <==> forall|i: int|
            0 <= i < kvs.len() ==> env_pair(#[trigger] kvs[i]) is Ok,
        env_options(kvs) matches Ok(m) ==> {
            &&& forall|i: int|
                0 <= i < kvs.len() ==> m.dom().contains((env_pair(#[trigger] kvs[i])->Ok_0).0)
            &&& forall|k: Seq<char>| #[trigger]
                m.dom().contains(k) ==> exists|i: int|
                    {
                        &&& 0 <= i < kvs.len()
                        &&& env_pair(#[trigger] kvs[i])->Ok_0 == (k, m[k])
                        &&& forall|j: int|
                            i < j < kvs.len() ==> (env_pair(#[trigger] kvs[j])->Ok_0).0 != k
                    }
        },
    decreases kvs.len(),
{
    if kvs.len() > 0 {
        let init = kvs.drop_last();
        let n = init.len() as int;
        lemma_options(init);
        assert(forall|i: int| 0 <= i < n ==> init[i] == kvs[i]);
        if env_options(init) is Err {
            let k = choose|i: int| 0 <= i < n && env_pair(#[trigger] init[i]) is Err;
            assert(kvs[k] == init[k]);
        }
        if env_options(kvs) is Ok {
            let before = env_options(init)->Ok_0;
            let m = env_options(kvs)->Ok_0;
            let (key, value) = env_pair(kvs.last())->Ok_0;
            assert(m == before.insert(key, value));
            assert forall|i: int| 0 <= i < kvs.len() implies m.dom().contains(
                (env_pair(#[trigger] kvs[i])->Ok_0).0,
            ) by {
                if i < n {
                    assert(before.dom().contains((env_pair(init[i])->Ok_0).0));
                }
            }
            assert forall|k: Seq<char>| #[trigger] m.dom().contains(k) implies exists|i: int|
                {
                    &&& 0 <= i < kvs.len()
                    &&& env_pair(#[trigger] kvs[i])->Ok_0 == (k, m[k])
                    &&& forall|j: int|
                        i < j < kvs.len() ==> (env_pair(#[trigger] kvs[j])->Ok_0).0 != k
                } by {
                if k == key {
                    assert(env_pair(kvs[n])->Ok_0 == (k, m[k]));
                } else {
                    assert(before.dom().contains(k));
                    let i = choose|i: int|
                        {
                            &&& 0 <= i < init.len()
                            &&& env_pair(#[trigger] init[i])->Ok_0 == (k, before[k])
                            &&& forall|j: int|
                                i < j < init.len() ==> (env_pair(#[trigger] init[j])->Ok_0).0 != k
                        };
                    assert(env_pair(kvs[i])->Ok_0 == (k, m[k]));
                    assert forall|j: int| i < j < kvs.len() implies (env_pair(
                        #[trigger] kvs[j],
                    )->Ok_0).0 != k by {
                        if j < n {
                            assert(init[j] == kvs[j]);
                        }
                    }
                }
            }
        }
    }
}

/// The options are accepted exactly where each is. Each gives a variable, and a variable that is
/// given more than once has the value of its last option.
pub proof fn law_last_option_wins(kvs: Vec<String>, r: Result<Table<String>, SodagunError>)
    requires
        call_ensures(collect_env, (&kvs,), r),
    ensures
        r is Ok <==> forall|i: int| 0 <= i < kvs@.len() ==> env_pair((#[trigger] kvs@[i])@) is Ok,
        r matches Ok(t) ==> {
            &&& forall|i: int|
                0 <= i < kvs@.len() ==> t@.dom().contains(
                    (env_pair((#[trigger] kvs@[i])@)->Ok_0).0,
                )
            &&& forall|k: Seq<char>| #[trigger]
                t@.dom().contains(k) ==> exists|i: int|
                    {
                        &&& 0 <= i < kvs@.len()
                        &&& env_pair((#[trigger] kvs@[i])@)->Ok_0 == (k, t@[k]@)
                        &&& forall|j: int|
                            i < j < kvs@.len() ==> (env_pair((#[trigger] kvs@[j])@)->Ok_0).0 != k
                    }
        },
{
    let all = texts(kvs@);
    lemma_options(all);
    assert(all.len() == kvs@.len());
    assert(forall|i: int| 0 <= i < kvs@.len() ==> all[i] == (#[trigger] kvs@[i])@);
    if r is Err {
        let k = choose|i: int| 0 <= i < all.len() && env_pair(#[trigger] all[i]) is Err;
        assert(env_pair(kvs@[k]@) is Err);
    }
    if let Ok(t) = r {
        let m = text_map(t@);
        assert forall|k: Seq<char>| #[trigger] t@.dom().contains(k) implies exists|i: int|
            {
                &&& 0 <= i < kvs@.len()
                &&& env_pair((#[trigger] kvs@[i])@)->Ok_0 == (k, t@[k]@)
                &&& forall|j: int|
                    i < j < kvs@.len() ==> (env_pair((#[trigger] kvs@[j])@)->Ok_0).0 != k
            } by {
            assert(m.dom().contains(k));
            let i = choose|i: int|
                {
                    &&& 0 <= i < all.len()
                    &&& env_pair(#[trigger] all[i])->Ok_0 == (k, m[k])
                    &&& forall|j: int|
                        i < j < all.len() ==> (env_pair(#[trigger] all[j])->Ok_0).0 != k
                };
            assert(env_pair(kvs@[i]@)->Ok_0 == (k, t@[k]@));
            assert forall|j: int| i < j < kvs@.len() implies (env_pair(
                (#[trigger] kvs@[j])@,
            )->Ok_0).0 != k by {
                assert(all[j] == kvs@[j]@);
            }
        }
    }
}

} // verus!
