//! Volumes: `host:guest[:options]`.

use crate::error::{failure, fault, Failure, SodagunError};
use crate::text::{
    cut, cut_text, has_char, has_prefix, lemma_find_char_at, opt_str, part, same_text, split,
    split_text, starts_with, texts,
};
use vstd::prelude::*;

verus! {

/// The options of a mount.
#[derive(Debug, Clone, Copy, PartialEq, Eq, Structural)]
pub struct MountFlags {
    /// Nothing can be written through the mount (`ro`).
    pub readonly: bool,
    /// Nothing can be executed from the mount (`noexec`).
    pub noexec: bool,
}

impl Default for MountFlags {
    fn default() -> (r: Self)
        ensures
            r == (MountFlags { readonly: false, noexec: false }),
    {
        MountFlags { readonly: false, noexec: false }
    }
}

/// Whether a word is a mount option; the empty word is none, and is ignored.
pub open spec fn known_option(word: Seq<char>) -> bool {
    word.len() == 0 || word == "ro"@ || word == "rw"@ || word == "noexec"@
}

/// The first of some words that is no mount option.
pub open spec fn unknown_option(words: Seq<Seq<char>>) -> Option<Seq<char>>
    decreases words.len(),
{
    if words.len() == 0 {
        None
    } else {
        match unknown_option(words.drop_last()) {
            Some(w) => Some(w),
            None => if known_option(words.last()) {
                None
            } else {
                Some(words.last())
            },
        }
    }
}

/// The mount that a list of options stands for; reading and writing is what a mount does anyway.
pub open spec fn flags_meant(opts: Seq<char>) -> MountFlags {
    MountFlags {
        readonly: split(opts, ',').contains("ro"@),
        noexec: split(opts, ',').contains("noexec"@),
    }
}

/// What an unknown option is answered with.
pub open spec fn bad_option(word: Seq<char>, volume: Seq<char>) -> Failure {
    failure("CONFIG_INVALID"@, "unknown mount option '"@ + word + "' in volume '"@ + volume + "'"@)
}

/// The host path of a volume: a leading `~` stands for the home directory.
pub open spec fn host_meant(host: Seq<char>, home: Option<Seq<char>>) -> Result<
    Seq<char>,
    Failure,
> {
    if starts_with(host, "~"@) {
        match home {
            Some(h) => Ok(h + host.skip(1)),
            None => Err(
                failure("CONFIG_INVALID"@, "cannot expand '~' in volume: $HOME is not set"@),
            ),
        }
    } else {
        Ok(host)
    }
}

/// Host path, guest path and options of a volume.
pub open spec fn volume_parts(s: Seq<char>) -> Option<(Seq<char>, Seq<char>, Seq<char>)> {
    match cut(s, ':') {
        None => None,
        Some((host, rest)) => match cut(rest, ':') {
            None => Some((host, rest, Seq::empty())),
            Some((guest, opts)) => Some((host, guest, opts)),
        },
    }
}

/// What a volume stands for.
pub open spec fn volume_meant(s: Seq<char>, home: Option<Seq<char>>) -> Result<
    (Seq<char>, Seq<char>, MountFlags),
    Failure,
> {
    match volume_parts(s) {
        None => Err(
            failure(
                "CONFIG_INVALID"@,
                "volume '"@ + s + "' must be 'host:guest' or 'host:guest:OPTIONS'"@,
            ),
        ),
        Some((host, guest, opts)) => match unknown_option(split(opts, ',')) {
            Some(word) => Err(bad_option(word, s)),
            None => match host_meant(host, home) {
                Err(e) => Err(e),
                Ok(h) => Ok((h, guest, flags_meant(opts))),
            },
        },
    }
}

/// Reads a comma-separated list of mount options; `vol` is the volume that it is part of.
pub fn parse_mount_flags(opts: &str, vol: &str) -> (r: Result<MountFlags, SodagunError>)
    ensures
        match r {
            Ok(flags) => unknown_option(split(opts@, ',')) is None && flags == flags_meant(opts@),
            Err(e) => {
                &&& unknown_option(split(opts@, ',')) is Some
                &&& e@ == bad_option(unknown_option(split(opts@, ','))->0, vol@)
            },
        },
{
    let words = split_text(opts, ',');
    let ghost all = texts(words@);
    let mut flags = MountFlags { readonly: false, noexec: false };
    let mut i: usize = 0;
    while i < words.len()
        invariant
            i <= words.len(),
            all == texts(words@),
            all == split(opts@, ','),
            unknown_option(all.take(i as int)) is None,
            flags.readonly == all.take(i as int).contains("ro"@),
            flags.noexec == all.take(i as int).contains("noexec"@),
        decreases words.len() - i,
    {
        let word = words[i].as_str();
        proof {
            let now = all.take(i + 1);
            let before = all.take(i as int);
            assert(now.drop_last() =~= before);
            assert(now.last() == word@);
            lemma_contains_last(now, "ro"@);
            lemma_contains_last(now, "noexec"@);
            reveal_strlit("ro");
            reveal_strlit("rw");
            reveal_strlit("noexec");
            assert("ro"@.len() == 2 && "rw"@.len() == 2 && "noexec"@.len() == 6);
            assert("ro"@[1] == 'o' && "rw"@[1] == 'w');
        }
        if same_text(word, "ro") {
            flags.readonly = true;
        } else if same_text(word, "noexec") {
            flags.noexec = true;
        } else if !word.is_empty() && !same_text(word, "rw") {
            proof {
                lemma_first_unknown(all, i + 1);
            }
            return Err(
                fault(
                    "CONFIG_INVALID",
                    "unknown mount option '".to_owned().concat(word).concat(
                        "' in volume '",
                    ).concat(vol).concat("'"),
                ),
            );
        }
        i += 1;
    }
    assert(all.take(i as int) =~= all);
    Ok(flags)
}

/// A list holds a word exactly where its last word is it or the words before hold it.
proof fn lemma_contains_last(words: Seq<Seq<char>>, w: Seq<char>)
    requires
        words.len() > 0,
    ensures
        words.contains(w) <==> words.last() == w || words.drop_last().contains(w),
{
    if words.contains(w) {
        let k = choose|k: int| 0 <= k < words.len() && words[k] == w;
        if k < words.len() - 1 {
            assert(words.drop_last()[k] == w);
        }
    }
    if words.last() == w {
        assert(words[words.len() - 1] == w);
    }
    if words.drop_last().contains(w) {
        let k = choose|k: int|
            0 <= k < words.drop_last().len() && words.drop_last()[k] == w;
        assert(words[k] == w);
    }
}

/// The first unknown word of the first `n` words is the first of all.
proof fn lemma_first_unknown(words: Seq<Seq<char>>, n: int)
    requires
        0 <= n <= words.len(),
        unknown_option(words.take(n)) is Some,
    ensures
        unknown_option(words) == unknown_option(words.take(n)),
    decreases words.len(),
{
    if n < words.len() {
        assert(words.drop_last().take(n) =~= words.take(n));
        lemma_first_unknown(words.drop_last(), n);
    } else {
        assert(words.take(n) =~= words);
    }
}

/// Reads a volume; `home` is the user's home directory, if it is known.
pub fn parse_volume(s: &str, home: Option<&str>) -> (r: Result<
    (String, String, MountFlags),
    SodagunError,
>)
    ensures
        ({
            let m = volume_meant(
                s@,
                opt_str(home),
            );
            match r {
                Ok((host, guest, flags)) => m == Ok::<
                    (Seq<char>, Seq<char>, MountFlags),
                    Failure,
                >((host@, guest@, flags)),
                Err(e) => m == Err::<(Seq<char>, Seq<char>, MountFlags), Failure>(e@),
            }
        }),
{
    let (host, rest) = match cut_text(s, ':') {
        Some(pair) => pair,
        None => {
            return Err(
                fault(
                    "CONFIG_INVALID",
                    "volume '".to_owned().concat(s).concat(
                        "' must be 'host:guest' or 'host:guest:OPTIONS'",
                    ),
                ),
            );
        },
    };
    let (guest, opts) = match cut_text(rest.as_str(), ':') {
        Some(pair) => pair,
        None => {
            let none = String::new();
            assert(none@ =~= Seq::empty());
            (rest, none)
        },
    };
    let flags = match parse_mount_flags(opts.as_str(), s) {
        Ok(f) => f,
        Err(e) => return Err(e),
    };
    if has_prefix(host.as_str(), "~") {
        match home {
            Some(h) => {
                proof {
                    reveal_strlit("~");
                    assert(host@.subrange(1, host@.len() as int) =~= host@.skip(1));
                }
                let tail = part(host.as_str(), 1, host.as_str().unicode_len());
                Ok((h.to_owned().concat(tail.as_str()), guest, flags))
            },
            None => Err(
                fault(
                    "CONFIG_INVALID",
                    "cannot expand '~' in volume: $HOME is not set".to_owned(),
                ),
            ),
        }
    } else {
        Ok((host, guest, flags))
    }
}

/// A volume without options mounts its host path at its guest path, to read and write, wherever
/// neither path holds a `:` and the host path does not begin with `~`.
pub proof fn law_plain_volume(host: Seq<char>, guest: Seq<char>, home: Option<Seq<char>>)
    requires
        !has_char(host, ':'),
        !has_char(guest, ':'),
        !starts_with(host, "~"@),
    ensures
        volume_meant(host + ":"@ + guest, home) == Ok::<
            (Seq<char>, Seq<char>, MountFlags),
            Failure,
        >((host, guest, MountFlags { readonly: false, noexec: false })),
{
    reveal_strlit(":");
    let s = host + ":"@ + guest;
    assert forall|j: int| 0 <= j < host.len() implies s[j] != ':' by {
        assert(s[j] == host[j]);
    }
    lemma_find_char_at(s, ':', host.len() as int);
    assert(s.take(host.len() as int) =~= host);
    assert(s.skip(host.len() as int + 1) =~= guest);
    lemma_find_char_at(guest, ':', guest.len() as int);
    let none = Seq::<char>::empty();
    lemma_find_char_at(none, ',', 0);
    assert(split(none, ',') =~= seq![none]);
    assert(split(none, ',').drop_last() =~= Seq::empty());
    assert(unknown_option(split(none, ',').drop_last()) is None);
    reveal_strlit("ro");
    reveal_strlit("noexec");
    assert("ro"@.len() == 2 && "noexec"@.len() == 6);
    assert(!split(none, ',').contains("ro"@));
    assert(!split(none, ',').contains("noexec"@));
}

} // verus!
