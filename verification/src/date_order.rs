//! Newest-first ordering by a date text: the text order, a stable
//! insertion sort, and what it keeps.
use vstd::prelude::*;

use crate::text::chars_of;

verus! {

broadcast use vstd::seq_lib::group_seq_properties;

/// Lexicographic order of texts by character code, which for UTF-8 is
/// also the byte order `String` compares by.
pub open spec fn seq_lt(a: Seq<char>, b: Seq<char>) -> bool
    decreases a.len(),
{
    if b.len() == 0 {
        false
    } else if a.len() == 0 {
        true
    } else if a[0] != b[0] {
        (a[0] as int) < (b[0] as int)
    } else {
        seq_lt(a.drop_first(), b.drop_first())
    }
}

pub proof fn lemma_seq_lt_asym(a: Seq<char>, b: Seq<char>)
    ensures
        seq_lt(a, b) ==> !seq_lt(b, a),
    decreases a.len(),
{
    if a.len() > 0 && b.len() > 0 && a[0] == b[0] {
        lemma_seq_lt_asym(a.drop_first(), b.drop_first());
    }
}

pub proof fn lemma_seq_lt_trans(a: Seq<char>, b: Seq<char>, c: Seq<char>)
    requires
        seq_lt(a, b),
        seq_lt(b, c),
    ensures
        seq_lt(a, c),
    decreases a.len(),
{
    if a.len() > 0 && a[0] == b[0] && b[0] == c[0] {
        lemma_seq_lt_trans(a.drop_first(), b.drop_first(), c.drop_first());
    }
}

pub proof fn lemma_seq_lt_total(a: Seq<char>, b: Seq<char>)
    requires
        !seq_lt(a, b),
        !seq_lt(b, a),
    ensures
        a == b,
    decreases a.len(),
{
    if a.len() > 0 && b.len() > 0 {
        if a[0] == b[0] {
            lemma_seq_lt_total(a.drop_first(), b.drop_first());
            assert(a =~= seq![a[0]] + a.drop_first());
            assert(b =~= seq![b[0]] + b.drop_first());
        } else {
            assert((a[0] as int) != (b[0] as int));
        }
    } else {
        assert(a.len() == 0 && b.len() == 0);
        assert(a =~= b);
    }
}

/// Whether `a` sorts before `b`.
pub fn str_lt(a: &str, b: &str) -> (r: bool)
    ensures
        r == seq_lt(a@, b@),
{
    let av = chars_of(a);
    let bv = chars_of(b);
    let mut i: usize = 0;
    assert(av@.skip(0) =~= av@);
    assert(bv@.skip(0) =~= bv@);
    while i < av.len() && i < bv.len()
        invariant
            i <= av.len(),
            i <= bv.len(),
            av@ == a@,
            bv@ == b@,
            seq_lt(a@, b@) == seq_lt(av@.skip(i as int), bv@.skip(i as int)),
        decreases av.len() - i,
    {
        assert(av@.skip(i as int)[0] == av@[i as int]);
        assert(bv@.skip(i as int)[0] == bv@[i as int]);
        if av[i] != bv[i] {
            return av[i] < bv[i];
        }
        assert(av@.skip(i as int).drop_first() =~= av@.skip(i + 1));
        assert(bv@.skip(i as int).drop_first() =~= bv@.skip(i + 1));
        i = i + 1;
    }
    i < bv.len()
}


/// Where an item of date `d` goes in a newest-first list: before the
/// first item of an earlier date.
pub open spec fn insert_pos_by<A>(s: Seq<A>, date: spec_fn(A) -> Seq<char>, d: Seq<char>) -> int
    decreases s.len(),
{
    if s.len() == 0 {
        0
    } else if seq_lt(date(s[0]), d) {
        0
    } else {
        1 + insert_pos_by(s.drop_first(), date, d)
    }
}

/// A stable newest-first sort by date: each item in turn goes after the
/// items of its date or a later one.
pub open spec fn sort_desc_by<A>(s: Seq<A>, date: spec_fn(A) -> Seq<char>) -> Seq<A>
    decreases s.len(),
{
    if s.len() == 0 {
        Seq::empty()
    } else {
        let p = sort_desc_by(s.drop_last(), date);
        p.insert(insert_pos_by(p, date, date(s.last())), s.last())
    }
}

/// No later item has a later date than an earlier one.
pub open spec fn newest_first_by<A>(s: Seq<A>, date: spec_fn(A) -> Seq<char>) -> bool {
    forall|i: int, j: int| 0 <= i < j < s.len() ==> !seq_lt(#[trigger] date(s[i]), #[trigger] date(s[j]))
}

pub proof fn lemma_insert_pos_bounds<A>(s: Seq<A>, date: spec_fn(A) -> Seq<char>, d: Seq<char>)
    ensures
        0 <= insert_pos_by(s, date, d) <= s.len(),
        forall|k: int| 0 <= k < insert_pos_by(s, date, d) ==> !seq_lt(date(#[trigger] s[k]), d),
        insert_pos_by(s, date, d) < s.len() ==> seq_lt(date(s[insert_pos_by(s, date, d)]), d),
    decreases s.len(),
{
    if s.len() > 0 && !seq_lt(date(s[0]), d) {
        lemma_insert_pos_bounds(s.drop_first(), date, d);
        assert forall|k: int| 0 <= k < insert_pos_by(s, date, d) implies !seq_lt(date(#[trigger] s[k]), d) by {
            if k > 0 {
                assert(s[k] == s.drop_first()[k - 1]);
            }
        }
    }
}

pub proof fn lemma_sort_len<A>(s: Seq<A>, date: spec_fn(A) -> Seq<char>)
    ensures
        sort_desc_by(s, date).len() == s.len(),
    decreases s.len(),
{
    if s.len() > 0 {
        lemma_sort_len(s.drop_last(), date);
        lemma_insert_pos_bounds(sort_desc_by(s.drop_last(), date), date, date(s.last()));
    }
}

proof fn lemma_insert_keeps_order<A>(s: Seq<A>, date: spec_fn(A) -> Seq<char>, x: A)
    requires
        newest_first_by(s, date),
    ensures
        newest_first_by(s.insert(insert_pos_by(s, date, date(x)), x), date),
{
    lemma_insert_pos_bounds(s, date, date(x));
    let p = insert_pos_by(s, date, date(x));
    let r = s.insert(p, x);
    assert forall|i: int, j: int| 0 <= i < j < r.len() implies !seq_lt(#[trigger] date(r[i]), #[trigger] date(r[j])) by {
        if j < p {
            assert(r[i] == s[i] && r[j] == s[j]);
            assert(!seq_lt(date(s[i]), date(s[j])));
        } else if j == p {
            assert(r[i] == s[i]);
        } else if i == p {
            assert(r[j] == s[j - 1]);
            assert(seq_lt(date(s[p]), date(x)));
            if p < j - 1 {
                assert(!seq_lt(date(s[p]), date(s[j - 1])));
                if seq_lt(date(x), date(s[j - 1])) {
                    if date(s[p]) == date(s[j - 1]) {
                        lemma_seq_lt_asym(date(x), date(s[p]));
                    } else {
                        if !seq_lt(date(s[j - 1]), date(s[p])) {
                            lemma_seq_lt_total(date(s[p]), date(s[j - 1]));
                        }
                        lemma_seq_lt_trans(date(s[j - 1]), date(s[p]), date(x));
                        lemma_seq_lt_asym(date(x), date(s[j - 1]));
                    }
                }
            } else {
                lemma_seq_lt_asym(date(s[p]), date(x));
            }
        } else if i < p {
            assert(r[i] == s[i] && r[j] == s[j - 1]);
            assert(!seq_lt(date(s[i]), date(s[j - 1])));
        } else {
            assert(r[i] == s[i - 1] && r[j] == s[j - 1]);
            assert(!seq_lt(date(s[i - 1]), date(s[j - 1])));
        }
    }
}

/// The sort keeps every item, each as often as it came.
pub proof fn lemma_sort_multiset<A>(s: Seq<A>, date: spec_fn(A) -> Seq<char>)
    ensures
        sort_desc_by(s, date).to_multiset() == s.to_multiset(),
    decreases s.len(),
{
    if s.len() > 0 {
        let p = sort_desc_by(s.drop_last(), date);
        lemma_sort_multiset(s.drop_last(), date);
        lemma_sort_len(s.drop_last(), date);
        lemma_insert_pos_bounds(p, date, date(s.last()));
        vstd::seq_lib::to_multiset_insert(p, insert_pos_by(p, date, date(s.last())), s.last());
        vstd::seq_lib::to_multiset_build(s.drop_last(), s.last());
        assert(s.drop_last().push(s.last()) =~= s);
    }
}

/// The sort puts items newest first.
pub proof fn lemma_sort_newest_first<A>(s: Seq<A>, date: spec_fn(A) -> Seq<char>)
    ensures
        newest_first_by(sort_desc_by(s, date), date),
    decreases s.len(),
{
    if s.len() > 0 {
        lemma_sort_newest_first(s.drop_last(), date);
        lemma_insert_keeps_order(sort_desc_by(s.drop_last(), date), date, s.last());
    }
}

} // verus!
