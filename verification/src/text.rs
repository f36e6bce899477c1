//! Verified text building blocks for the serializer: decimal rendering of
//! unsigned integers and comma-joining of name lists, together with the
//! specification-level inverse (splitting on commas) used to state that a
//! joined list can be read back token by token.
use vstd::prelude::*;
use vstd::string::StringExecFns;

verus! {

/// The decimal digit character for a value in `0 ..= 9`.
pub open spec fn digit_char(d: int) -> char {
    if d == 0 {
        '0'
    } else if d == 1 {
        '1'
    } else if d == 2 {
        '2'
    } else if d == 3 {
        '3'
    } else if d == 4 {
        '4'
    } else if d == 5 {
        '5'
    } else if d == 6 {
        '6'
    } else if d == 7 {
        '7'
    } else if d == 8 {
        '8'
    } else {
        '9'
    }
}

/// The decimal rendering of `n`, most significant digit first, with no
/// leading zeros (`0` renders as the single character `'0'`).
pub open spec fn dec_str(n: nat) -> Seq<char>
    decreases n,
{
    if n < 10 {
        seq![digit_char(n as int)]
    } else {
        dec_str(n / 10) + seq![digit_char((n % 10) as int)]
    }
}

/// The one-character string for a decimal digit.
fn digit_str(d: u8) -> (r: &'static str)
    requires
        d < 10,
    ensures
        r@ == seq![digit_char(d as int)],
{
    proof {
        reveal_strlit("0");
        reveal_strlit("1");
        reveal_strlit("2");
        reveal_strlit("3");
        reveal_strlit("4");
        reveal_strlit("5");
        reveal_strlit("6");
        reveal_strlit("7");
        reveal_strlit("8");
        reveal_strlit("9");
    }
    if d == 0 {
        "0"
    } else if d == 1 {
        "1"
    } else if d == 2 {
        "2"
    } else if d == 3 {
        "3"
    } else if d == 4 {
        "4"
    } else if d == 5 {
        "5"
    } else if d == 6 {
        "6"
    } else if d == 7 {
        "7"
    } else if d == 8 {
        "8"
    } else {
        "9"
    }
}

/// Renders `n` in decimal.
pub fn u128_to_decimal(n: u128) -> (s: String)
    ensures
        s@ == dec_str(n as nat),
    decreases n,
{
    if n < 10 {
        digit_str(n as u8).to_owned()
    } else {
        let mut s = u128_to_decimal(n / 10);
        s.append(digit_str((n % 10) as u8));
        s
    }
}

/// The elements of `elems` concatenated with a single `','` between
/// consecutive elements and nothing before the first or after the last.
pub open spec fn join_commas(elems: Seq<Seq<char>>) -> Seq<char>
    decreases elems.len(),
{
    if elems.len() == 0 {
        Seq::empty()
    } else if elems.len() == 1 {
        elems[0]
    } else {
        elems[0] + seq![','] + join_commas(elems.drop_first())
    }
}

/// Holds when `s` contains no comma character.
pub open spec fn comma_free(s: Seq<char>) -> bool {
    forall|k: int| 0 <= k < s.len() ==> s[k] != ','
}

/// Appending one more element to a non-empty list extends the join by a
/// comma and that element.
pub proof fn lemma_join_commas_push(elems: Seq<Seq<char>>, x: Seq<char>)
    requires
        elems.len() >= 1,
    ensures
        join_commas(elems.push(x)) == join_commas(elems) + seq![','] + x,
    decreases elems.len(),
{
    let p = elems.push(x);
    assert(p.len() == elems.len() + 1);
    assert(p[0] == elems[0]);
    if elems.len() == 1 {
        assert(p.drop_first() =~~= seq![x]);
        assert(join_commas(p.drop_first()) == seq![x][0]);
        assert(join_commas(p) == p[0] + seq![','] + x);
        assert(join_commas(elems) == elems[0]);
    } else {
        lemma_join_commas_push(elems.drop_first(), x);
        assert(p.drop_first() =~~= elems.drop_first().push(x));
        assert(join_commas(p) == p[0] + seq![','] + (join_commas(elems.drop_first()) + seq![',']
            + x));
        assert(join_commas(elems) == elems[0] + seq![','] + join_commas(elems.drop_first()));
        assert(join_commas(p) =~= join_commas(elems) + seq![','] + x);
    }
}

/// Joins the given names with commas.
pub fn join_with_commas(items: &Vec<String>) -> (s: String)
    ensures
        s@ == join_commas(items.deep_view()),
{
    let ghost dv = items.deep_view();
    let mut s = String::new();
    let mut i: usize = 0;
    while i < items.len()
        invariant
            i <= items.len(),
            dv == items.deep_view(),
            dv.len() == items@.len(),
            s@ == join_commas(dv.take(i as int)),
        decreases items.len() - i,
    {
        if i > 0 {
            s.append(",");
        }
        s.append(items[i].as_str());
        proof {
            reveal_strlit(",");
            let t = dv.take(i as int + 1);
            if i == 0 {
                assert(t =~~= seq![dv[0]]);
                assert(s@ =~= join_commas(t));
            } else {
                assert(t =~~= dv.take(i as int).push(dv[i as int]));
                lemma_join_commas_push(dv.take(i as int), dv[i as int]);
                assert(s@ =~= join_commas(t));
            }
        }
        i += 1;
    }
    proof {
        assert(dv.take(items@.len() as int) =~~= dv);
    }
    s
}

/// The comma-separated tokens of `s`: splitting the empty sequence gives
/// one empty token, and every comma separates two adjacent tokens.
pub open spec fn split_commas(s: Seq<char>) -> Seq<Seq<char>>
    decreases s.len(),
{
    if s.len() == 0 {
        seq![Seq::<char>::empty()]
    } else if s[0] == ',' {
        seq![Seq::<char>::empty()] + split_commas(s.drop_first())
    } else {
        let rest = split_commas(s.drop_first());
        seq![seq![s[0]] + rest[0]] + rest.drop_first()
    }
}

/// Splitting always yields at least one token.
pub proof fn lemma_split_commas_nonempty(s: Seq<char>)
    ensures
        split_commas(s).len() >= 1,
    decreases s.len(),
{
    if s.len() > 0 {
        lemma_split_commas_nonempty(s.drop_first());
    }
}

/// Prepending comma-free text to `s` extends the first token of the split
/// and leaves the remaining tokens unchanged.
pub proof fn lemma_split_commas_prepend(x: Seq<char>, s: Seq<char>)
    requires
        comma_free(x),
    ensures
        split_commas(x + s) == seq![x + split_commas(s)[0]] + split_commas(s).drop_first(),
    decreases x.len(),
{
    lemma_split_commas_nonempty(s);
    if x.len() == 0 {
        assert(x + s =~= s);
        assert(x + split_commas(s)[0] =~= split_commas(s)[0]);
        assert(seq![x + split_commas(s)[0]] + split_commas(s).drop_first() =~~= split_commas(s));
    } else {
        let xs = x + s;
        assert(xs[0] == x[0]);
        assert(x[0] != ',');
        assert(xs.drop_first() =~~= x.drop_first() + s);
        assert(comma_free(x.drop_first()));
        lemma_split_commas_prepend(x.drop_first(), s);
        let rest = split_commas(xs.drop_first());
        assert(rest == seq![x.drop_first() + split_commas(s)[0]] + split_commas(s).drop_first());
        assert(seq![xs[0]] + rest[0] =~= x + split_commas(s)[0]);
        assert(rest.drop_first() =~~= split_commas(s).drop_first());
        assert(split_commas(xs) =~~= seq![x + split_commas(s)[0]] + split_commas(s).drop_first());
    }
}

} // verus!
