//! Laws of the builder and serializer: properties that hold of every
//! query, stated over the query model and proved once and for all.
use vstd::prelude::*;

use crate::render::spec_serialize;
use crate::text::comma_free;
use crate::text::join_commas;
use crate::text::lemma_split_commas_prepend;
use crate::text::split_commas;
use crate::with_field;
use crate::with_limit;
use crate::with_sort;
use crate::QueryModel;
use crate::SortModel;

verus! {

/// A query with every optional component absent and both name lists empty
/// serializes to the empty string.
pub proof fn lemma_empty_query_serializes_empty(m: QueryModel)
    requires
        m.fields.len() == 0,
        m.exclude.len() == 0,
        m.where_raw is None,
        m.limit is None,
        m.offset is None,
        m.sort is None,
        m.search is None,
    ensures
        spec_serialize(m) == Seq::<char>::empty(),
{
    assert(spec_serialize(m) =~= Seq::<char>::empty());
}

/// The comma-joined name list rendered inside a `fields` (or `exclude`)
/// clause can be read back token by token: splitting it on commas yields
/// exactly the original names, in insertion order. In particular, for n
/// names the list holds exactly n comma-separated tokens and no trailing
/// comma (a trailing comma would split into one extra, empty token).
pub proof fn lemma_join_commas_round_trip(elems: Seq<Seq<char>>)
    requires
        elems.len() >= 1,
        forall|i: int| 0 <= i < elems.len() ==> comma_free(#[trigger] elems[i]),
    ensures
        split_commas(join_commas(elems)) == elems,
    decreases elems.len(),
{
    if elems.len() == 1 {
        lemma_split_commas_prepend(elems[0], Seq::empty());
        assert(elems[0] + Seq::<char>::empty() =~= elems[0]);
        assert(split_commas(Seq::<char>::empty()) == seq![Seq::<char>::empty()]);
        assert(split_commas(join_commas(elems)) =~~= elems);
    } else {
        let rest = elems.drop_first();
        lemma_join_commas_round_trip(rest);
        let tail = seq![','] + join_commas(rest);
        assert(join_commas(elems) == elems[0] + seq![','] + join_commas(rest));
        assert(elems[0] + tail =~= join_commas(elems));
        lemma_split_commas_prepend(elems[0], tail);
        assert(tail[0] == ',');
        assert(tail.drop_first() =~= join_commas(rest));
        assert(split_commas(tail) == seq![Seq::<char>::empty()] + rest);
        assert(split_commas(tail)[0] =~= Seq::<char>::empty());
        assert(split_commas(tail).drop_first() =~= rest);
        assert(elems[0] + split_commas(tail)[0] =~= elems[0]);
        assert(split_commas(join_commas(elems)) =~~= elems);
    }
}

/// The clause order of the output is fixed by the serializer and
/// independent of the order of configuration calls: setting the limit
/// before adding a field yields the same query value, and therefore the
/// same serialization, as adding the field first.
pub proof fn lemma_config_order_immaterial(m: QueryModel, field: Seq<char>, new_limit: u128)
    ensures
        with_field(with_limit(m, new_limit), field) == with_limit(with_field(m, field), new_limit),
        spec_serialize(with_field(with_limit(m, new_limit), field)) == spec_serialize(
            with_limit(with_field(m, field), new_limit),
        ),
{
    assert(with_field(with_limit(m, new_limit), field) =~~= with_limit(
        with_field(m, field),
        new_limit,
    ));
}

/// Last write wins: setting the sort twice keeps only the second value,
/// in the query and in its serialization.
pub proof fn lemma_sort_last_write_wins(m: QueryModel, first: SortModel, second: SortModel)
    ensures
        with_sort(with_sort(m, first), second) == with_sort(m, second),
        spec_serialize(with_sort(with_sort(m, first), second)) == spec_serialize(
            with_sort(m, second),
        ),
{
    assert(with_sort(with_sort(m, first), second) =~~= with_sort(m, second));
}

} // verus!
