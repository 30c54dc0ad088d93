//! Laws of volumes.

use crate::config::volume::{parse_volume, unknown_option, MountFlags};
use crate::error::SodagunError;
use crate::laws::texts::law_cut;
use crate::text::{split, starts_with};
use vstd::prelude::*;

verus! {

/// Whether each of some words is an option of a mount, or empty.
pub open spec fn all_options(words: Seq<Seq<char>>) -> bool {
    forall|i: int|
        0 <= i < words.len() ==> {
            ||| (#[trigger] words[i]).len() == 0
            ||| words[i] == "ro"@
            ||| words[i] == "rw"@
            ||| words[i] == "noexec"@
        }
}

proof fn lemma_unknown(words: Seq<Seq<char>>)
    ensures
        unknown_option(words) is None <==> all_options(words),
        unknown_option(words) matches Some(w) ==> words.contains(w),
    decreases words.len(),
{
    if words.len() > 0 {
        let init = words.drop_last();
        lemma_unknown(init);
        assert(forall|i: int| 0 <= i < init.len() ==> init[i] == words[i]);
        assert(words[words.len() - 1] == words.last());
        if !all_options(init) {
            let k = choose|i: int|
                0 <= i < init.len() && !({
                    ||| (#[trigger] init[i]).len() == 0
                    ||| init[i] == "ro"@
                    ||| init[i] == "rw"@
                    ||| init[i] == "noexec"@
                });
            assert(words[k] == init[k]);
            let w = unknown_option(init)->0;
            let j = choose|j: int| 0 <= j < init.len() && init[j] == w;
            assert(words[j] == w);
        }
    }
}

/// A volume `host:guest` mounts the host path at the guest path, to read, write and execute. It is
/// always accepted, unless its host path begins with `~` and there is no home directory.
pub proof fn law_volume_without_options(
    host: Seq<char>,
    guest: Seq<char>,
    s: &str,
    home: Option<&str>,
    r: Result<(String, String, MountFlags), SodagunError>,
)
    requires
        call_ensures(parse_volume, (s, home), r),
        !host.contains(':'),
        !guest.contains(':'),
        s@ == host + ":"@ + guest,
    ensures
        r is Ok <==> !(host.len() > 0 && host[0] == '~') || home is Some,
        r matches Ok(v) ==> {
            &&& v.0@ == (if host.len() > 0 && host[0] == '~' {
                home->0@ + host.skip(1)
            } else {
                host
            })
            &&& v.1@ == guest
            &&& !v.2.readonly
            &&& !v.2.noexec
        },
{
    reveal_strlit(":");
    reveal_strlit("ro");
    reveal_strlit("rw");
    reveal_strlit("noexec");
    assert(":"@ =~= seq![':']);
    law_cut(host, ':', guest);
    law_cut(guest, ':', Seq::empty());
    let none = Seq::<char>::empty();
    law_cut(none, ',', none);
    crate::text::lemma_find_char(none, ',');
    assert(split(none, ',') =~= seq![none]);
    lemma_unknown(split(none, ','));
    assert("ro"@.len() == 2 && "noexec"@.len() == 6);
    lemma_tilde(host);
}

proof fn lemma_tilde(host: Seq<char>)
    ensures
        starts_with(host, "~"@) <==> host.len() > 0 && host[0] == '~',
{
    reveal_strlit("~");
    assert("~"@ =~= seq!['~']);
    if host.len() > 0 {
        assert(host.take(1) =~= seq![host[0]]);
    }
    if starts_with(host, "~"@) {
        assert(host.take(1)[0] == '~');
    }
}

/// A volume `host:guest:options` mounts the host path at the guest path, read-only exactly where
/// `ro` is among the options, and without programs exactly where `noexec` is. It is accepted
/// exactly where every option is known and a `~` in front of the host path can be replaced by the
/// home directory.
pub proof fn law_volume_with_options(
    host: Seq<char>,
    guest: Seq<char>,
    options: Seq<char>,
    s: &str,
    home: Option<&str>,
    r: Result<(String, String, MountFlags), SodagunError>,
)
    requires
        call_ensures(parse_volume, (s, home), r),
        !host.contains(':'),
        !guest.contains(':'),
        s@ == host + ":"@ + guest + ":"@ + options,
    ensures
        r is Ok <==> all_options(split(options, ',')) && (!(host.len() > 0 && host[0] == '~')
            || home is Some),
        r matches Ok(v) ==> {
            &&& v.0@ == (if host.len() > 0 && host[0] == '~' {
                home->0@ + host.skip(1)
            } else {
                host
            })
            &&& v.1@ == guest
            &&& v.2.readonly <==> split(options, ',').contains("ro"@)
            &&& v.2.noexec <==> split(options, ',').contains("noexec"@)
        },
        r is Err ==> r->Err_0@.code == "CONFIG_INVALID"@,
{
    reveal_strlit(":");
    assert(":"@ =~= seq![':']);
    assert(s@ =~= host + seq![':'] + (guest + seq![':'] + options));
    law_cut(host, ':', guest + seq![':'] + options);
    law_cut(guest, ':', options);
    lemma_unknown(split(options, ','));
    lemma_tilde(host);
}

/// What holds no `:` is no volume.
pub proof fn law_volume_needs_two_paths(
    s: &str,
    home: Option<&str>,
    r: Result<(String, String, MountFlags), SodagunError>,
)
    requires
        call_ensures(parse_volume, (s, home), r),
        !s@.contains(':'),
    ensures
        r is Err,
        r->Err_0@.code == "CONFIG_INVALID"@,
{
    law_cut(s@, ':', Seq::empty());
}

} // verus!
