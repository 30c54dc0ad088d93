//! Laws of text: what cutting, trimming, replacing and reading numbers do to it.

use crate::text::{
    all_digits, cut, decimal, digit_char, digit_value, digits_value, find_char, has_char,
    is_control_char, is_digit, is_white_space, lemma_find_char, lemma_find_char_at, parse_unsigned,
    replace_chars, second_word, signed_decimal, split, starts_with, text_le, trim, trim_end,
    trim_end_char, trim_start, word_end,
};
use vstd::prelude::*;

verus! {

/// A text begins with another exactly where it is the other and something behind it.
pub proof fn law_prefix(s: Seq<char>, prefix: Seq<char>)
    ensures
        starts_with(s, prefix) <==> exists|rest: Seq<char>| s == #[trigger] (prefix + rest),
{
    if starts_with(s, prefix) {
        let rest = s.skip(prefix.len() as int);
        assert(s =~= prefix + rest);
    }
    if exists|rest: Seq<char>| s == #[trigger] (prefix + rest) {
        let rest = choose|rest: Seq<char>| s == #[trigger] (prefix + rest);
        assert(s.take(prefix.len() as int) =~= prefix);
    }
}

/// A text that holds `c` is cut into what stands before the first `c` and all that stands behind
/// it; one that holds none is not cut.
pub proof fn law_cut(before: Seq<char>, c: char, after: Seq<char>)
    requires
        !before.contains(c),
    ensures
        cut(before + seq![c] + after, c) == Some((before, after)),
        cut(before, c) is None,
{
    let s = before + seq![c] + after;
    assert forall|j: int| 0 <= j < before.len() implies before[j] != c by {
        assert(before.contains(before[j]));
    }
    assert forall|j: int| 0 <= j < before.len() implies s[j] != c by {
        assert(s[j] == before[j]);
    }
    lemma_find_char_at(s, c, before.len() as int);
    lemma_find_char_at(before, c, before.len() as int);
    assert(s.take(before.len() as int) =~= before);
    assert(s.skip(before.len() as int + 1) =~= after);
}

/// A text that is cut is what stands before the cut, the `c`, and what stands behind it, and no
/// `c` stands before the cut.
pub proof fn law_cut_back(s: Seq<char>, c: char)
    ensures
        match cut(s, c) {
            Some((before, after)) => s == before + seq![c] + after && !before.contains(c),
            None => !s.contains(c),
        },
{
    lemma_find_char(s, c);
    let i = find_char(s, c) as int;
    if i < s.len() {
        assert(s =~= s.take(i) + seq![c] + s.skip(i + 1));
        assert(!s.take(i).contains(c)) by {
            if s.take(i).contains(c) {
                let j = choose|j: int| 0 <= j < i && s.take(i)[j] == c;
                assert(s[j] == c);
            }
        }
    } else if s.contains(c) {
        let j = choose|j: int| 0 <= j < s.len() && s[j] == c;
        assert(s[j] != c);
    }
}

/// A text holds a character exactly where one of its characters is that character.
pub proof fn law_has_char(s: Seq<char>, c: char)
    ensures
        has_char(s, c) <==> s.contains(c),
{
    if s.contains(c) {
        let j = choose|j: int| 0 <= j < s.len() && s[j] == c;
        assert(has_char(s, c));
    }
}

/// Pieces with `c` between them.
pub open spec fn joined(pieces: Seq<Seq<char>>, c: char) -> Seq<char>
    decreases pieces.len(),
{
    if pieces.len() == 0 {
        Seq::empty()
    } else if pieces.len() == 1 {
        pieces[0]
    } else {
        pieces[0] + seq![c] + joined(pieces.skip(1), c)
    }
}

/// A text is its pieces with `c` between them; there is at least one, and none holds a `c`.
pub proof fn law_split(s: Seq<char>, c: char)
    ensures
        split(s, c).len() >= 1,
        joined(split(s, c), c) == s,
        forall|i: int| 0 <= i < split(s, c).len() ==> !(#[trigger] split(s, c)[i]).contains(c),
    decreases s.len(),
{
    law_cut_back(s, c);
    lemma_find_char(s, c);
    let k = find_char(s, c) as int;
    let pieces = split(s, c);
    if k < s.len() {
        let rest = s.skip(k + 1);
        law_split(rest, c);
        assert(pieces == seq![s.take(k)] + split(rest, c));
        assert(pieces.skip(1) =~= split(rest, c));
        assert(pieces[0] == s.take(k));
        assert forall|i: int| 0 <= i < pieces.len() implies !(#[trigger] pieces[i]).contains(c) by {
            if i > 0 {
                assert(pieces[i] == split(rest, c)[i - 1]);
            }
        }
        assert(s =~= s.take(k) + seq![c] + rest);
    } else {
        assert(pieces == seq![s]);
    }
}

/// A text without white space at its ends is what is left when white space, and nothing else, is
/// taken from both ends.
pub proof fn law_trim(before: Seq<char>, s: Seq<char>, after: Seq<char>)
    requires
        forall|i: int| 0 <= i < before.len() ==> is_white_space(#[trigger] before[i]),
        forall|i: int| 0 <= i < after.len() ==> is_white_space(#[trigger] after[i]),
        s.len() > 0,
        !is_white_space(s[0]),
        !is_white_space(s.last()),
    ensures
        trim(before + s + after) == s,
{
    lemma_trim_start(before, s + after);
    assert(before + s + after =~= before + (s + after));
    lemma_trim_end(s, after);
}

proof fn lemma_trim_start(before: Seq<char>, s: Seq<char>)
    requires
        forall|i: int| 0 <= i < before.len() ==> is_white_space(#[trigger] before[i]),
        s.len() > 0 ==> !is_white_space(s[0]),
    ensures
        trim_start(before + s) == s,
    decreases before.len(),
{
    if before.len() > 0 {
        assert((before + s).drop_first() =~= before.drop_first() + s);
        assert((before + s)[0] == before[0]);
        lemma_trim_start(before.drop_first(), s);
    } else {
        assert(before + s =~= s);
    }
}

proof fn lemma_trim_end(s: Seq<char>, after: Seq<char>)
    requires
        forall|i: int| 0 <= i < after.len() ==> is_white_space(#[trigger] after[i]),
        s.len() > 0 ==> !is_white_space(s.last()),
    ensures
        trim_end(s + after) == s,
    decreases after.len(),
{
    if after.len() > 0 {
        assert((s + after).drop_last() =~= s + after.drop_last());
        assert((s + after).last() == after.last());
        lemma_trim_end(s, after.drop_last());
    } else {
        assert(s + after =~= s);
    }
}

/// Trimming the end takes white space there, all of it, and nothing else.
pub proof fn law_trim_end(s: Seq<char>, after: Seq<char>)
    requires
        forall|i: int| 0 <= i < after.len() ==> is_white_space(#[trigger] after[i]),
        s.len() > 0 ==> !is_white_space(s.last()),
    ensures
        trim_end(s + after) == s,
{
    lemma_trim_end(s, after);
}

/// Trimming a character takes its copies at the end, all of them, and nothing else.
pub proof fn law_trim_end_char(s: Seq<char>, c: char, n: nat)
    requires
        s.len() > 0 ==> s.last() != c,
    ensures
        trim_end_char(s + Seq::new(n, |i: int| c), c) == s,
    decreases n,
{
    let tail = Seq::new(n, |i: int| c);
    if n > 0 {
        let less = Seq::new((n - 1) as nat, |i: int| c);
        assert((s + tail).drop_last() =~= s + less);
        assert((s + tail).last() == c);
        law_trim_end_char(s, c, (n - 1) as nat);
    } else {
        assert(s + tail =~= s);
    }
}

/// Space, tab and the ends of lines are white space; no letter, digit or mark of ASCII is. Beyond
/// ASCII there are nineteen more, which leave blank space too.
pub proof fn law_white_space(c: char)
    ensures
        is_white_space(' '),
        is_white_space('\t'),
        is_white_space('\n'),
        is_white_space('\r'),
        0x21 <= c as u32 <= 0x7e ==> !is_white_space(c),
        c as u32 > 0x7e ==> (is_white_space(c) <==> seq![
            0x85u32,
            0xa0,
            0x1680,
            0x2000,
            0x2001,
            0x2002,
            0x2003,
            0x2004,
            0x2005,
            0x2006,
            0x2007,
            0x2008,
            0x2009,
            0x200a,
            0x2028,
            0x2029,
            0x202f,
            0x205f,
            0x3000,
        ].contains(c as u32)),
        (c as u32) < 0x09 || 0x0d < (c as u32) < 0x20 ==> !is_white_space(c),
        c as u32 == 0x0b || c as u32 == 0x0c ==> is_white_space(c),
{
    let blanks = seq![
        0x85u32,
        0xa0,
        0x1680,
        0x2000,
        0x2001,
        0x2002,
        0x2003,
        0x2004,
        0x2005,
        0x2006,
        0x2007,
        0x2008,
        0x2009,
        0x200a,
        0x2028,
        0x2029,
        0x202f,
        0x205f,
        0x3000,
    ];
    let u = c as u32;
    assert(blanks[0] == 0x85 && blanks[1] == 0xa0 && blanks[2] == 0x1680 && blanks[3] == 0x2000);
    assert(blanks[4] == 0x2001 && blanks[5] == 0x2002 && blanks[6] == 0x2003);
    assert(blanks[7] == 0x2004 && blanks[8] == 0x2005 && blanks[9] == 0x2006);
    assert(blanks[10] == 0x2007 && blanks[11] == 0x2008 && blanks[12] == 0x2009);
    assert(blanks[13] == 0x200a && blanks[14] == 0x2028 && blanks[15] == 0x2029);
    assert(blanks[16] == 0x202f && blanks[17] == 0x205f && blanks[18] == 0x3000);
    if blanks.contains(u) {
        let k = choose|k: int| 0 <= k < blanks.len() && blanks[k] == u;
    }
}

/// What cannot be printed is a control character: everything below the space, and delete with the
/// 32 characters behind it. No other character is one.
pub proof fn law_control_characters(c: char)
    ensures
        (c as u32) < 0x20 || 0x7f <= c as u32 <= 0x9f ==> is_control_char(c),
        0x20 <= c as u32 <= 0x7e ==> !is_control_char(c),
        c as u32 >= 0xa0 ==> !is_control_char(c),
{
}

/// Replacing characters changes those and no others, and moves none.
pub proof fn law_replace(s: Seq<char>, from: Seq<char>, to: char)
    ensures
        replace_chars(s, from, to).len() == s.len(),
        forall|i: int|
            0 <= i < s.len() ==> #[trigger] replace_chars(s, from, to)[i] == (if from.contains(
                s[i],
            ) {
                to
            } else {
                s[i]
            }),
{
}

proof fn lemma_word_end(word: Seq<char>, rest: Seq<char>)
    requires
        forall|i: int| 0 <= i < word.len() ==> !is_white_space(#[trigger] word[i]),
        rest.len() > 0 ==> is_white_space(rest[0]),
    ensures
        word_end(word + rest) == word.len(),
    decreases word.len(),
{
    if word.len() > 0 {
        assert((word + rest).drop_first() =~= word.drop_first() + rest);
        assert((word + rest)[0] == word[0]);
        lemma_word_end(word.drop_first(), rest);
    } else {
        assert(word + rest =~= rest);
    }
}

/// The second word of a text is what stands between the white space behind the first word and the
/// white space behind it.
pub proof fn law_second_word(
    lead: Seq<char>,
    first: Seq<char>,
    gap: Seq<char>,
    second: Seq<char>,
    rest: Seq<char>,
)
    requires
        forall|i: int| 0 <= i < lead.len() ==> is_white_space(#[trigger] lead[i]),
        forall|i: int| 0 <= i < gap.len() ==> is_white_space(#[trigger] gap[i]),
        forall|i: int| 0 <= i < first.len() ==> !is_white_space(#[trigger] first[i]),
        forall|i: int| 0 <= i < second.len() ==> !is_white_space(#[trigger] second[i]),
        first.len() > 0,
        gap.len() > 0,
        second.len() > 0,
        rest.len() > 0 ==> is_white_space(rest[0]),
    ensures
        second_word(lead + first + gap + second + rest) == Some(second),
        second_word(lead + first + gap) is None,
        second_word(lead + first) is None,
{
    let from_first = first + (gap + (second + rest));
    assert(lead + first + gap + second + rest =~= lead + from_first);
    lemma_trim_start(lead, from_first);
    lemma_word_end(first, gap + (second + rest));
    assert(from_first.skip(first.len() as int) =~= gap + (second + rest));
    lemma_trim_start(gap, second + rest);
    lemma_word_end(second, rest);
    assert((second + rest).take(second.len() as int) =~= second);

    assert(lead + first + gap =~= lead + (first + gap));
    lemma_trim_start(lead, first + gap);
    lemma_word_end(first, gap);
    assert((first + gap).skip(first.len() as int) =~= gap + Seq::<char>::empty());
    lemma_trim_start(gap, Seq::empty());

    lemma_trim_start(lead, first);
    assert(first + Seq::<char>::empty() =~= first);
    lemma_word_end(first, Seq::empty());
    assert(first.skip(first.len() as int) =~= Seq::<char>::empty());
}

proof fn lemma_digit(d: nat)
    requires
        d < 10,
    ensures
        is_digit(digit_char(d)),
        digit_value(digit_char(d)) == d,
        digit_char(d) == '0' <==> d == 0,
{
}

proof fn lemma_decimal(n: nat)
    ensures
        decimal(n).len() > 0,
        all_digits(decimal(n)),
        digits_value(decimal(n)) == n,
        decimal(n)[0] == '0' <==> n == 0,
    decreases n,
{
    lemma_digit(n % 10);
    if n < 10 {
        lemma_digit(n);
        let one = seq![digit_char(n)];
        assert(decimal(n) == one);
        reveal_with_fuel(digits_value, 2);
        assert(one.drop_last() =~= Seq::empty());
        assert(digits_value(Seq::<char>::empty()) == 0);
        assert(digits_value(one) == n);
    } else {
        lemma_decimal(n / 10);
        let front = decimal(n / 10);
        assert(decimal(n).drop_last() =~= front);
        assert(decimal(n)[0] == front[0]);
        assert(n / 10 * 10 + n % 10 == n);
        assert forall|i: int| 0 <= i < decimal(n).len() implies is_digit(
            #[trigger] decimal(n)[i],
        ) by {
            if i < front.len() {
                assert(decimal(n)[i] == front[i]);
            }
        }
    }
}

/// A number in decimal form is read back, also behind a `+`, exactly where it is not too large.
/// The form holds digits only and no zero in front.
pub proof fn law_decimal_is_read_back(n: nat, max: nat)
    ensures
        n <= max ==> parse_unsigned(decimal(n), max) == Some(n),
        n <= max ==> parse_unsigned(seq!['+'] + decimal(n), max) == Some(n),
        n > max ==> parse_unsigned(decimal(n), max) is None,
        forall|i: int| 0 <= i < decimal(n).len() ==> 0x30 <= (
            #[trigger] decimal(n)[i]) as u32 <= 0x39,
        decimal(n)[0] == '0' <==> n == 0,
{
    lemma_decimal(n);
    let d = decimal(n);
    assert(is_digit(d[0]));
    assert((seq!['+'] + d).skip(1) =~= d);
}

/// Only digits behind an optional `+` are read as a number.
pub proof fn law_only_digits_are_a_number(s: Seq<char>, max: nat, i: int)
    requires
        parse_unsigned(s, max) is Some,
        0 <= i < s.len(),
    ensures
        0x30 <= s[i] as u32 <= 0x39 || (i == 0 && s[0] == '+' && s.len() > 1),
        parse_unsigned(s, max)->0 <= max,
{
    if s[0] == '+' {
        if i > 0 {
            assert(s.skip(1)[i - 1] == s[i]);
        }
    }
}

/// A text that is empty or a lone `+` is no number.
pub proof fn law_nothing_is_no_number(max: nat)
    ensures
        parse_unsigned(Seq::empty(), max) is None,
        parse_unsigned(seq!['+'], max) is None,
{
    assert(seq!['+'].skip(1) =~= Seq::empty());
}

/// A negative number has a `-` in front of the form of its positive counterpart, and no other has.
pub proof fn law_signed_decimal(n: nat)
    ensures
        n > 0 ==> signed_decimal(-(n as int)) == seq!['-'] + decimal(n),
        signed_decimal(n as int) == decimal(n),
{
}

/// Of two texts the one comes first that has the smaller character where they first differ, or
/// that ends there.
pub proof fn law_dictionary_order(front: Seq<char>, a: Seq<char>, b: Seq<char>)
    requires
        b.len() > 0,
        a.len() > 0 ==> (a[0] as u32) < (b[0] as u32),
    ensures
        text_le(front + a, front + b),
        !text_le(front + b, front + a),
        text_le(front, front),
    decreases front.len(),
{
    if front.len() > 0 {
        assert((front + a).drop_first() =~= front.drop_first() + a);
        assert((front + b).drop_first() =~= front.drop_first() + b);
        assert((front + a)[0] == (front + b)[0]);
        law_dictionary_order(front.drop_first(), a, b);
    } else {
        assert(front + a =~= a);
        assert(front + b =~= b);
    }
}

} // verus!
