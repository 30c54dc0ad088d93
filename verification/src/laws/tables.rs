//! Laws of tables, and of how errors are reported.

use crate::context::{Context, OutputFormat};
use crate::error::{handle_error, ErrorReport, SodagunError};
use crate::table::{
    has_key, key_position, keys_distinct, pairs_extend, pairs_insert, pairs_map, Table,
};
use vstd::prelude::*;

verus! {

/// Setting an entry changes the value of the entry of that name where there is one, and else adds
/// one at the end; every other entry stays where it is and as it is.
pub proof fn law_setting_an_entry<V>(pairs: Seq<(Seq<char>, V)>, key: Seq<char>, value: V, i: int)
    requires
        keys_distinct(pairs),
        0 <= i < pairs.len(),
    ensures
        pairs_insert(pairs, key, value)[i].0 == pairs[i].0,
        pairs[i].0 == key ==> pairs_insert(pairs, key, value)[i].1 == value && pairs_insert(
            pairs,
            key,
            value,
        ).len() == pairs.len(),
        pairs[i].0 != key ==> pairs_insert(pairs, key, value)[i] == pairs[i],
        (forall|j: int| 0 <= j < pairs.len() ==> (#[trigger] pairs[j]).0 != key) ==> pairs_insert(
            pairs,
            key,
            value,
        ) == pairs.push((key, value)),
{
    if has_key(pairs, key) {
        let k = key_position(pairs, key);
        assert(pairs[k].0 == key);
    }
}

/// A table as a map has just the names of its entries, each with its entry's value.
pub proof fn law_table_is_a_map<V>(pairs: Seq<(Seq<char>, V)>, i: int, key: Seq<char>)
    requires
        keys_distinct(pairs),
        0 <= i < pairs.len(),
    ensures
        pairs_map(pairs).dom().contains(pairs[i].0),
        pairs_map(pairs)[pairs[i].0] == pairs[i].1,
        pairs_map(pairs).dom().contains(key) ==> exists|j: int|
            0 <= j < pairs.len() && (#[trigger] pairs[j]).0 == key,
{
    let k = key_position(pairs, pairs[i].0);
    assert(has_key(pairs, pairs[i].0));
    assert(pairs[k].0 == pairs[i].0);
}

/// Adding a table to another sets its entries one after the other.
pub proof fn law_adding_a_table<V>(
    base: Seq<(Seq<char>, V)>,
    more: Seq<(Seq<char>, V)>,
    key: Seq<char>,
    value: V,
)
    ensures
        pairs_extend(base, Seq::empty()) == base,
        pairs_extend(base, more.push((key, value))) == pairs_insert(
            pairs_extend(base, more),
            key,
            value,
        ),
{
    assert(more.push((key, value)).drop_last() =~= more);
}

/// What a table has under a name is what is found there, and what it does not have is not.
pub proof fn law_looking_up(
    t: Table<String>,
    key: &str,
    there: bool,
    found: Option<&String>,
    n: usize,
    none: bool,
)
    requires
        call_ensures(Table::<String>::contains_key, (&t, key), there),
        call_ensures(Table::<String>::get, (&t, key), found),
        call_ensures(Table::<String>::len, (&t,), n),
        call_ensures(Table::<String>::is_empty, (&t,), none),
    ensures
        there <==> t@.dom().contains(key@),
        found is Some <==> there,
        found is Some ==> *found->0 == t@[key@],
        n == t.pairs().len(),
        none <==> n == 0,
{
}

/// An error is reported in the form that is asked for: as JSON by its code, and as text by its code
/// in brackets and its message.
pub proof fn law_error_report(ctx: Context, err: SodagunError, r: ErrorReport)
    requires
        call_ensures(handle_error, (ctx, &err), r),
    ensures
        ctx.output == OutputFormat::Json ==> r is Json && r->code@ == err.code@,
        ctx.output == OutputFormat::Text ==> r is Text && r->detail@ == " ["@ + err.code@ + "]: "@
            + err.message@,
{
}

} // verus!
