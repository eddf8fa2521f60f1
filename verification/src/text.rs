//! Lexicographic order on strings.
//!
//! Configuration names are listed in ascending order. The order compares
//! Unicode scalar values position by position, which agrees with the
//! byte order of the UTF-8 encodings.

use vstd::prelude::*;

verus! {

use vstd::relations::{sorted_by, total_ordering};
use vstd::string::StrSliceExecFns;

/// Strict lexicographic order on character sequences, by scalar value.
pub open spec fn str_lt(a: Seq<char>, b: Seq<char>) -> bool
    decreases a.len(),
{
    if b.len() == 0 {
        false
    } else if a.len() == 0 {
        true
    } else if a[0] < b[0] {
        true
    } else if a[0] == b[0] {
        str_lt(a.drop_first(), b.drop_first())
    } else {
        false
    }
}

/// Lexicographic order on character sequences.
pub open spec fn str_le(a: Seq<char>, b: Seq<char>) -> bool {
    str_lt(a, b) || a == b
}

/// The order as a relation value, for sortedness statements.
pub open spec fn str_le_ord() -> spec_fn(Seq<char>, Seq<char>) -> bool {
    |a: Seq<char>, b: Seq<char>| str_le(a, b)
}

proof fn lemma_str_lt_irreflexive(a: Seq<char>)
    ensures
        !str_lt(a, a),
    decreases a.len(),
{
    if a.len() > 0 {
        lemma_str_lt_irreflexive(a.drop_first());
    }
}

proof fn lemma_str_lt_asym(a: Seq<char>, b: Seq<char>)
    requires
        str_lt(a, b),
    ensures
        !str_lt(b, a),
    decreases a.len(),
{
    if a.len() > 0 && b.len() > 0 && a[0] == b[0] {
        lemma_str_lt_asym(a.drop_first(), b.drop_first());
    }
}

proof fn lemma_str_lt_trans(a: Seq<char>, b: Seq<char>, c: Seq<char>)
    requires
        str_lt(a, b),
        str_lt(b, c),
    ensures
        str_lt(a, c),
    decreases a.len(),
{
    if a.len() > 0 && b.len() > 0 && c.len() > 0 && a[0] == b[0] && b[0] == c[0] {
        lemma_str_lt_trans(a.drop_first(), b.drop_first(), c.drop_first());
    }
}

proof fn lemma_str_eq_ext(a: Seq<char>, b: Seq<char>)
    requires
        !str_lt(a, b),
        !str_lt(b, a),
    ensures
        a == b,
    decreases a.len(),
{
    if a.len() == 0 && b.len() == 0 {
        assert(a =~= b);
    } else if a.len() > 0 && b.len() > 0 {
        assert(a[0] == b[0]);
        lemma_str_eq_ext(a.drop_first(), b.drop_first());
        assert(a =~= b) by {
            assert(a.drop_first() =~= b.drop_first());
            assert forall|i: int| 0 <= i < a.len() implies a[i] == b[i] by {
                if i > 0 {
                    assert(a.drop_first()[i - 1] == b.drop_first()[i - 1]);
                }
            }
        }
    }
}

/// The lexicographic order is a total order.
pub proof fn lemma_str_le_total_ordering()
    ensures
        total_ordering(str_le_ord()),
{
    let ord = str_le_ord();
    assert forall|a: Seq<char>| #[trigger] ord(a, a) by {}
    assert forall|a: Seq<char>, b: Seq<char>| #[trigger] ord(a, b) && #[trigger] ord(b, a)
        implies a == b by {
        if a != b {
            lemma_str_lt_asym(a, b);
        }
    }
    assert forall|a: Seq<char>, b: Seq<char>, c: Seq<char>|
        #[trigger] ord(a, b) && #[trigger] ord(b, c) implies ord(a, c) by {
        if a != b && b != c {
            lemma_str_lt_trans(a, b, c);
        }
    }
    assert forall|a: Seq<char>, b: Seq<char>| #[trigger] ord(a, b) || #[trigger] ord(b, a) by {
        if !str_lt(a, b) && !str_lt(b, a) {
            lemma_str_eq_ext(a, b);
        }
    }
}

/// Any two names are comparable.
proof fn lemma_str_le_connected(a: Seq<char>, b: Seq<char>)
    ensures
        str_le(a, b) || str_le(b, a),
{
    if !str_lt(a, b) && !str_lt(b, a) {
        lemma_str_eq_ext(a, b);
    }
}

proof fn lemma_str_le_trans(a: Seq<char>, b: Seq<char>, c: Seq<char>)
    requires
        str_le(a, b),
        str_le(b, c),
    ensures
        str_le(a, c),
{
    if a != b && b != c {
        lemma_str_lt_trans(a, b, c);
    }
}

proof fn lemma_str_lt_skip(a: Seq<char>, b: Seq<char>, i: int)
    requires
        0 <= i <= a.len(),
        0 <= i <= b.len(),
        forall|k: int| 0 <= k < i ==> a[k] == b[k],
    ensures
        str_lt(a, b) == str_lt(a.skip(i), b.skip(i)),
    decreases i,
{
    if i > 0 {
        assert(a.len() > 0 && b.len() > 0);
        assert(a[0] == b[0]);
        assert(str_lt(a, b) == str_lt(a.drop_first(), b.drop_first()));
        lemma_str_lt_skip(a.drop_first(), b.drop_first(), i - 1);
        assert(a.drop_first().skip(i - 1) =~= a.skip(i));
        assert(b.drop_first().skip(i - 1) =~= b.skip(i));
    } else {
        assert(a.skip(0) =~= a);
        assert(b.skip(0) =~= b);
    }
}

/// Decides the lexicographic order on two strings.
pub fn str_le_exec(a: &str, b: &str) -> (r: bool)
    ensures
        r == str_le(a@, b@),
{
    let an = a.unicode_len();
    let bn = b.unicode_len();
    let mut i: usize = 0;
    while i < an && i < bn
        invariant
            i <= an,
            i <= bn,
            an == a@.len(),
            bn == b@.len(),
            forall|k: int| 0 <= k < i ==> a@[k] == b@[k],
        decreases an - i,
    {
        let ca = a.get_char(i);
        let cb = b.get_char(i);
        if ca < cb {
            proof {
                lemma_str_lt_skip(a@, b@, i as int);
                assert(a@.skip(i as int)[0] == a@[i as int]);
                assert(b@.skip(i as int)[0] == b@[i as int]);
            }
            return true;
        }
        if ca > cb {
            proof {
                lemma_str_lt_skip(a@, b@, i as int);
                assert(a@.skip(i as int)[0] == a@[i as int]);
                assert(b@.skip(i as int)[0] == b@[i as int]);
                lemma_str_lt_irreflexive(a@);
                if a@ == b@ {
                    assert(a@[i as int] == b@[i as int]);
                }
            }
            return false;
        }
        i += 1;
    }
    proof {
        lemma_str_lt_skip(a@, b@, i as int);
    }
    if an < bn {
        proof {
            assert(b@.skip(i as int).len() > 0);
            assert(a@.skip(i as int).len() == 0);
        }
        true
    } else if an == bn {
        proof {
            assert(a@ =~= b@);
        }
        true
    } else {
        proof {
            assert(b@.skip(i as int).len() == 0);
            assert(a@.skip(i as int).len() > 0);
            if a@ == b@ {
                assert(a@.len() == b@.len());
            }
        }
        false
    }
}

/// Sorts a vector of names ascending by the lexicographic order.
pub fn sort_names(names: &mut Vec<String>)
    ensures
        final(names).deep_view().to_multiset() == old(names).deep_view().to_multiset(),
        sorted_by(final(names).deep_view(), str_le_ord()),
        final(names)@.len() == old(names)@.len(),
{
    let ghost orig = names.deep_view();
    let mut out: Vec<String> = Vec::new();
    proof {
        broadcast use vstd::seq_lib::group_to_multiset_ensures;

        assert(orig.take(0) =~= Seq::<Seq<char>>::empty());
        assert(out.deep_view() =~= Seq::<Seq<char>>::empty());
    }
    let mut i: usize = 0;
    while i < names.len()
        invariant
            i <= names@.len(),
            orig == names.deep_view(),
            orig.len() == names@.len(),
            forall|k: int| 0 <= k < names@.len() ==> orig[k] == names@[k]@,
            out.deep_view().to_multiset() == orig.take(i as int).to_multiset(),
            out.deep_view().len() == i,
            out@.len() == i,
            forall|k: int| 0 <= k < out@.len() ==> out.deep_view()[k] == out@[k]@,
            sorted_by(out.deep_view(), str_le_ord()),
        decreases names@.len() - i,
    {
        let x = names[i].clone();
        let mut k: usize = 0;
        while k < out.len() && str_le_exec(out[k].as_str(), x.as_str())
            invariant
                k <= out@.len(),
                x@ == orig[i as int],
                i < orig.len(),
                forall|j: int| 0 <= j < out@.len() ==> out.deep_view()[j] == out@[j]@,
                out.deep_view().len() == out@.len(),
                forall|j: int| 0 <= j < k ==> str_le(out.deep_view()[j], x@),
                sorted_by(out.deep_view(), str_le_ord()),
            decreases out@.len() - k,
        {
            k += 1;
        }
        let ghost before = out.deep_view();
        out.insert(k, x);
        proof {
            broadcast use vstd::seq_lib::group_to_multiset_ensures;

            assert(out.deep_view() =~= before.insert(k as int, x@));
            assert(orig.take(i + 1).drop_last() =~= orig.take(i as int));
            assert(orig.take(i + 1) =~= orig.take(i as int).push(x@));
            assert(out.deep_view().to_multiset() == orig.take(i + 1).to_multiset());
            let now = out.deep_view();
            assert forall|a: int, b: int| 0 <= a < b < now.len() implies str_le_ord()(
                now[a],
                now[b],
            ) by {
                lemma_str_le_total_ordering();
                let ord = str_le_ord();
                if b < k {
                    assert(now[a] == before[a] && now[b] == before[b]);
                    assert(ord(before[a], before[b]));
                } else if a > k {
                    assert(now[a] == before[a - 1] && now[b] == before[b - 1]);
                    assert(ord(before[a - 1], before[b - 1]));
                } else if a == k {
                    assert(now[a] == x@ && now[b] == before[b - 1]);
                    assert(!str_le(before[k as int], x@));
                    lemma_str_le_connected(before[k as int], x@);
                    if b - 1 > k {
                        assert(ord(before[k as int], before[b - 1]));
                        lemma_str_le_trans(x@, before[k as int], before[b - 1]);
                    }
                } else if b == k {
                    assert(now[a] == before[a] && now[b] == x@);
                    assert(str_le(before[a], x@));
                } else {
                    assert(a < k && b > k);
                    assert(now[a] == before[a] && now[b] == before[b - 1]);
                    assert(str_le(before[a], x@));
                    assert(!str_le(before[k as int], x@));
                    lemma_str_le_connected(before[k as int], x@);
                    if b - 1 == k {
                        lemma_str_le_trans(before[a], x@, before[b - 1]);
                    } else {
                        assert(ord(before[k as int], before[b - 1]));
                        lemma_str_le_trans(x@, before[k as int], before[b - 1]);
                        lemma_str_le_trans(before[a], x@, before[b - 1]);
                    }
                }
            }
        }
        i += 1;
    }
    proof {
        assert(orig.take(orig.len() as int) =~= orig);
    }
    *names = out;
}

} // verus!
