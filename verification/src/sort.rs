//! A stable insertion sort on collections of items carrying an optional name,
//! used to order types, fields, inputs and enum values deterministically in
//! the rendered documents. The specification-level sort is a function, so a
//! caller's contract can name the exact sorted sequence.

use crate::text::{lex_le, opt_le, str_le};
use vstd::prelude::*;

verus! {

/// An item ordered by an optional name: absent names sort first, present
/// names lexicographically.
pub trait Named: Sized {
    /// The key the item is ordered by.
    spec fn name_key(&self) -> Option<Seq<char>>;

    /// Whether this item sorts at or before the other.
    fn le_name(&self, other: &Self) -> (r: bool)
        ensures
            r == opt_le(self.name_key(), other.name_key()),
    ;
}

/// `x` placed into `s` after every item whose name is at most its own; on a
/// name-sorted `s` this keeps the order and puts `x` after its equals, as a
/// stable sort does.
pub open spec fn insert_by_name<T: Named>(s: Seq<T>, x: T) -> Seq<T>
    decreases s.len(),
{
    if s.len() == 0 {
        seq![x]
    } else if opt_le(s[0].name_key(), x.name_key()) {
        seq![s[0]] + insert_by_name(s.drop_first(), x)
    } else {
        seq![x] + s
    }
}

/// The stable sort of `s` by name: each item in turn inserted after its
/// equals among the already-sorted earlier items.
pub open spec fn sort_by_name_view<T: Named>(s: Seq<T>) -> Seq<T>
    decreases s.len(),
{
    if s.len() == 0 {
        s
    } else {
        insert_by_name(sort_by_name_view(s.drop_last()), s.last())
    }
}

proof fn lemma_insert_by_name_at<T: Named>(s: Seq<T>, x: T, j: int)
    requires
        0 <= j <= s.len(),
        forall|k: int| 0 <= k < j ==> opt_le(#[trigger] s[k].name_key(), x.name_key()),
        j < s.len() ==> !opt_le(s[j].name_key(), x.name_key()),
    ensures
        insert_by_name(s, x) == s.take(j) + seq![x] + s.skip(j),
    decreases j,
{
    if j == 0 {
        if s.len() == 0 {
            assert(insert_by_name(s, x) =~= s.take(0) + seq![x] + s.skip(0));
        } else {
            assert(s.skip(0) =~= s);
            assert(insert_by_name(s, x) =~= s.take(0) + seq![x] + s.skip(0));
        }
    } else {
        lemma_insert_by_name_at(s.drop_first(), x, j - 1);
        assert(forall|k: int|
            0 <= k < j - 1 ==> #[trigger] s.drop_first()[k].name_key() == s[k + 1].name_key());
        assert(seq![s[0]] + (s.drop_first().take(j - 1) + seq![x] + s.drop_first().skip(j - 1))
            =~= s.take(j) + seq![x] + s.skip(j));
    }
}

/// The sequence of values that a sequence of references points at.
pub open spec fn seq_of_refs<T>(s: Seq<&T>) -> Seq<T> {
    Seq::new(s.len(), |i: int| *s[i])
}

/// A sequence of references has as many referents as references.
pub broadcast proof fn lemma_seq_of_refs_len<T>(s: Seq<&T>)
    ensures
        (#[trigger] seq_of_refs(s)).len() == s.len(),
{
}

/// The referent at an index is the value the reference there points at.
pub broadcast proof fn lemma_seq_of_refs_index<T>(s: Seq<&T>, i: int)
    requires
        0 <= i < s.len(),
    ensures
        #[trigger] seq_of_refs(s)[i] == *s[i],
{
}

/// Sorts a vector of references so that the referents stand in stable
/// name order; the contract speaks of the referents themselves.
pub fn sort_refs_by_name<'a, T: Named>(v: &mut Vec<&'a T>)
    ensures
        seq_of_refs(final(v)@) == sort_by_name_view(seq_of_refs(old(v)@)),
{
    let ghost orig_refs: Seq<&'a T> = v@;
    let ghost orig: Seq<T> = seq_of_refs(orig_refs);
    let n = v.len();
    if n == 0 {
        proof {
            assert(seq_of_refs(v@) =~= sort_by_name_view(orig));
        }
        return ;
    }
    let mut i: usize = 1;
    proof {
        assert(seq_of_refs(orig_refs.take(1)).drop_last() =~= Seq::<T>::empty());
        assert(seq_of_refs(orig_refs.take(1)).last() == orig[0]);
        assert(sort_by_name_view(Seq::<T>::empty()) == Seq::<T>::empty());
        assert(seq_of_refs(orig_refs.take(1)) =~= insert_by_name(Seq::<T>::empty(), orig[0]));
        assert(v@ == orig_refs);
        assert(seq_of_refs(v@.take(1)) =~= seq_of_refs(orig_refs.take(1)));
        assert(seq_of_refs(v@.take(1)) == sort_by_name_view(seq_of_refs(orig_refs.take(1))));
    }
    while i < n
        invariant
            1 <= i <= n,
            n == v@.len(),
            n == orig_refs.len(),
            v@.skip(i as int) =~= orig_refs.skip(i as int),
            seq_of_refs(v@.take(i as int)) == sort_by_name_view(seq_of_refs(orig_refs.take(i as int))),
        decreases n - i,
    {
        let ghost prev: Seq<&'a T> = v@;
        let ghost sorted_prefix: Seq<T> = seq_of_refs(v@.take(i as int));
        let x: &'a T = v.remove(i);
        proof {
            assert(forall|k: int| i <= k < n ==> prev[k] == orig_refs[k]) by {
                assert(forall|k: int|
                    i <= k < n ==> prev.skip(i as int)[k - i] == #[trigger] prev[k]);
            }
            assert(x == orig_refs[i as int]);
            assert(seq_of_refs(v@.take(i as int)) =~= sorted_prefix);
        }
        let ghost removed: Seq<&'a T> = v@;
        let mut j: usize = 0;
        while j < i && v[j].le_name(x)
            invariant
                j <= i,
                i < n == orig_refs.len(),
                v@ == removed,
                removed.take(i as int) == prev.take(i as int),
                seq_of_refs(removed.take(i as int)) == sorted_prefix,
                sorted_prefix.len() == i,
                v@.len() == n - 1,
                forall|k: int|
                    0 <= k < j ==> opt_le(#[trigger] sorted_prefix[k].name_key(), x.name_key()),
            decreases i - j,
        {
            proof {
                assert(*v@[j as int] == seq_of_refs(removed.take(i as int))[j as int]);
            }
            j = j + 1;
        }
        proof {
            if j < i {
                assert(*v@[j as int] == seq_of_refs(removed.take(i as int))[j as int]);
            }
        }
        v.insert(j, x);
        proof {
            lemma_insert_by_name_at(sorted_prefix, *x, j as int);
            assert(v@ =~= removed.insert(j as int, x));
            assert(seq_of_refs(v@.take(i + 1)) =~= sorted_prefix.take(j as int) + seq![*x]
                + sorted_prefix.skip(j as int));
            assert(seq_of_refs(orig_refs.take(i + 1)).drop_last() =~= seq_of_refs(
                orig_refs.take(i as int),
            ));
            assert(seq_of_refs(orig_refs.take(i + 1)).last() == orig_refs[i as int]);
            assert(seq_of_refs(v@.take(i + 1)) == sort_by_name_view(
                seq_of_refs(orig_refs.take(i + 1)),
            ));
            assert(v@.skip(i + 1) =~= orig_refs.skip(i + 1));
        }
        i = i + 1;
    }
    proof {
        assert(orig_refs.take(n as int) =~= orig_refs);
        assert(v@.take(n as int) =~= v@);
    }
}

/// Sorts the items by name, stably: equal names keep their relative order.
pub fn sort_by_name<T: Named>(v: &mut Vec<T>)
    ensures
        final(v)@ == sort_by_name_view(old(v)@),
{
    let ghost orig: Seq<T> = v@;
    let n = v.len();
    if n == 0 {
        return ;
    }
    let mut i: usize = 1;
    proof {
        assert(orig.take(1).drop_last() =~= Seq::<T>::empty());
        assert(orig.take(1).last() == orig[0]);
        assert(sort_by_name_view(Seq::<T>::empty()) == Seq::<T>::empty());
        assert(orig.take(1) =~= insert_by_name(Seq::<T>::empty(), orig[0]));
        assert(v@ == orig);
        assert(v@.take(1) == sort_by_name_view(orig.take(1)));
    }
    while i < n
        invariant
            1 <= i <= n,
            n == v@.len(),
            n == orig.len(),
            v@.skip(i as int) =~= orig.skip(i as int),
            v@.take(i as int) == sort_by_name_view(orig.take(i as int)),
        decreases n - i,
    {
        let ghost prev: Seq<T> = v@;
        let ghost sorted_prefix: Seq<T> = v@.take(i as int);
        let x = v.remove(i);
        proof {
            assert forall|k: int| i <= k < n implies prev[k] == orig[k] by {
                assert(prev.skip(i as int)[k - i] == orig.skip(i as int)[k - i]);
            }
            assert(x == orig[i as int]);
            assert(v@ =~= sorted_prefix + orig.skip(i + 1));
            assert(v@.take(i as int) =~= sorted_prefix);
        }
        let mut j: usize = 0;
        let ghost removed: Seq<T> = v@;
        while j < i && v[j].le_name(&x)
            invariant
                j <= i,
                i < n == orig.len(),
                v@ == removed,
                removed == sorted_prefix + orig.skip(i + 1),
                sorted_prefix.len() == i,
                v@.len() == n - 1,
                forall|k: int|
                    0 <= k < j ==> opt_le(#[trigger] sorted_prefix[k].name_key(), x.name_key()),
            decreases i - j,
        {
            proof {
                assert(v@[j as int] == sorted_prefix[j as int]);
            }
            j = j + 1;
        }
        proof {
            if j < i {
                assert(v@[j as int] == sorted_prefix[j as int]);
            }
        }
        v.insert(j, x);
        proof {
            lemma_insert_by_name_at(sorted_prefix, x, j as int);
            assert(v@ =~= removed.insert(j as int, x));
            assert(v@.take(i + 1) =~= sorted_prefix.take(j as int) + seq![x] + sorted_prefix.skip(
                j as int,
            ));
            assert(orig.take(i + 1).drop_last() =~= orig.take(i as int));
            assert(orig.take(i + 1).last() == orig[i as int]);
            assert(v@.take(i + 1) == sort_by_name_view(orig.take(i + 1)));
            assert(v@.skip(i + 1) =~= orig.skip(i + 1));
        }
        i = i + 1;
    }
    proof {
        assert(orig.take(n as int) =~= orig);
        assert(v@.take(n as int) =~= v@);
    }
}


impl Named for String {
    open spec fn name_key(&self) -> Option<Seq<char>> {
        Option::Some(self@)
    }

    fn le_name(&self, other: &Self) -> (r: bool) {
        str_le(self.as_str(), other.as_str())
    }
}

/// The character sequences of a sequence of strings.
pub open spec fn str_views(s: Seq<String>) -> Seq<Seq<char>> {
    Seq::new(s.len(), |i: int| s[i]@)
}

/// A sequence of strings has as many views as strings.
pub broadcast proof fn lemma_str_views_len(s: Seq<String>)
    ensures
        (#[trigger] str_views(s)).len() == s.len(),
{
}

/// The view at an index is the view of the string there.
pub broadcast proof fn lemma_str_views_index(s: Seq<String>, i: int)
    requires
        0 <= i < s.len(),
    ensures
        #[trigger] str_views(s)[i] == s[i]@,
{
}

/// `x` placed into a sequence of character sequences after every entry that
/// is lexicographically at most `x`.
pub open spec fn insert_name_seq(s: Seq<Seq<char>>, x: Seq<char>) -> Seq<Seq<char>>
    decreases s.len(),
{
    if s.len() == 0 {
        seq![x]
    } else if lex_le(s[0], x) {
        seq![s[0]] + insert_name_seq(s.drop_first(), x)
    } else {
        seq![x] + s
    }
}

/// The stable lexicographic sort of a sequence of character sequences.
pub open spec fn sort_name_seqs(s: Seq<Seq<char>>) -> Seq<Seq<char>>
    decreases s.len(),
{
    if s.len() == 0 {
        s
    } else {
        insert_name_seq(sort_name_seqs(s.drop_last()), s.last())
    }
}

proof fn lemma_insert_strings(s: Seq<String>, x: String)
    ensures
        str_views(insert_by_name(s, x)) == insert_name_seq(str_views(s), x@),
    decreases s.len(),
{
    broadcast use {lemma_str_views_len, lemma_str_views_index};

    if s.len() == 0 {
        assert(str_views(insert_by_name(s, x)) =~= insert_name_seq(str_views(s), x@));
    } else {
        assert(str_views(s)[0] == s[0]@);
        if lex_le(s[0]@, x@) {
            lemma_insert_strings(s.drop_first(), x);
            assert(str_views(s.drop_first()) =~= str_views(s).drop_first());
            let irest = insert_by_name(s.drop_first(), x);
            assert(insert_by_name(s, x) == seq![s[0]] + irest);
            assert(insert_name_seq(str_views(s), x@) == seq![str_views(s)[0]] + insert_name_seq(
                str_views(s).drop_first(),
                x@,
            ));
            assert(insert_name_seq(str_views(s).drop_first(), x@) == str_views(irest));
            assert(str_views(seq![s[0]] + irest) =~= seq![s[0]@] + str_views(irest));
            assert(seq![str_views(s)[0]] + str_views(irest) =~= seq![s[0]@] + str_views(irest));
        } else {
            assert(insert_by_name(s, x) == seq![x] + s);
            assert(insert_name_seq(str_views(s), x@) == seq![x@] + str_views(s));
            assert(str_views(seq![x] + s) =~= seq![x@] + str_views(s));
        }
    }
}

/// Sorting strings by name sorts their character sequences: taking views
/// commutes with the sort.
pub proof fn lemma_sort_strings(s: Seq<String>)
    ensures
        str_views(sort_by_name_view(s)) == sort_name_seqs(str_views(s)),
    decreases s.len(),
{
    broadcast use {lemma_str_views_len, lemma_str_views_index};

    if s.len() == 0 {
        assert(str_views(s) =~= Seq::<Seq<char>>::empty());
        assert(str_views(sort_by_name_view(s)) =~= sort_name_seqs(str_views(s)));
    } else {
        lemma_sort_strings(s.drop_last());
        lemma_insert_strings(sort_by_name_view(s.drop_last()), s.last());
        assert(str_views(s.drop_last()) =~= str_views(s).drop_last());
        assert(str_views(s).last() == s.last()@);
    }
}


/// Whether the items stand in name order: every earlier item's name is at
/// most every later one's.
pub open spec fn sorted_by_name<T: Named>(s: Seq<T>) -> bool {
    forall|i: int, j: int|
        0 <= i < j < s.len() ==> opt_le(#[trigger] s[i].name_key(), #[trigger] s[j].name_key())
}

proof fn lemma_lex_le_total(a: Seq<char>, b: Seq<char>)
    ensures
        lex_le(a, b) || lex_le(b, a),
    decreases a.len(),
{
    if a.len() > 0 && b.len() > 0 && (a[0] as int) == (b[0] as int) {
        lemma_lex_le_total(a.drop_first(), b.drop_first());
    }
}

proof fn lemma_lex_le_trans(a: Seq<char>, b: Seq<char>, c: Seq<char>)
    requires
        lex_le(a, b),
        lex_le(b, c),
    ensures
        lex_le(a, c),
    decreases a.len(),
{
    if a.len() > 0 && b.len() > 0 && c.len() > 0 && (a[0] as int) == (b[0] as int) && (b[0] as int)
        == (c[0] as int) {
        lemma_lex_le_trans(a.drop_first(), b.drop_first(), c.drop_first());
    }
}

proof fn lemma_opt_le_total(a: Option<Seq<char>>, b: Option<Seq<char>>)
    ensures
        opt_le(a, b) || opt_le(b, a),
{
    if a is Some && b is Some {
        lemma_lex_le_total(a->0, b->0);
    }
}

proof fn lemma_opt_le_trans(a: Option<Seq<char>>, b: Option<Seq<char>>, c: Option<Seq<char>>)
    requires
        opt_le(a, b),
        opt_le(b, c),
    ensures
        opt_le(a, c),
{
    if a is Some && b is Some && c is Some {
        lemma_lex_le_trans(a->0, b->0, c->0);
    }
}

proof fn lemma_insert_by_name_multiset<T: Named>(s: Seq<T>, x: T)
    ensures
        insert_by_name(s, x).to_multiset() == s.to_multiset().insert(x),
        insert_by_name(s, x).len() == s.len() + 1,
    decreases s.len(),
{
    broadcast use vstd::seq_lib::group_to_multiset_ensures;

    if s.len() == 0 {
        assert(seq![x] =~= Seq::<T>::empty().push(x));
        assert(insert_by_name(s, x).to_multiset() =~= s.to_multiset().insert(x));
    } else if opt_le(s[0].name_key(), x.name_key()) {
        lemma_insert_by_name_multiset(s.drop_first(), x);
        vstd::seq_lib::lemma_multiset_commutative(seq![s[0]], insert_by_name(s.drop_first(), x));
        vstd::seq_lib::lemma_multiset_commutative(seq![s[0]], s.drop_first());
        assert(s =~= seq![s[0]] + s.drop_first());
        assert(seq![s[0]] =~= Seq::<T>::empty().push(s[0]));
        assert(insert_by_name(s, x).to_multiset() =~= s.to_multiset().insert(x));
    } else {
        vstd::seq_lib::lemma_multiset_commutative(seq![x], s);
        assert(seq![x] =~= Seq::<T>::empty().push(x));
        assert(insert_by_name(s, x).to_multiset() =~= s.to_multiset().insert(x));
    }
}

proof fn lemma_insert_by_name_sorted<T: Named>(s: Seq<T>, x: T)
    requires
        sorted_by_name(s),
    ensures
        sorted_by_name(insert_by_name(s, x)),
    decreases s.len(),
{
    broadcast use vstd::seq_lib::group_to_multiset_ensures;

    if s.len() == 0 {
    } else if opt_le(s[0].name_key(), x.name_key()) {
        let rest = s.drop_first();
        assert(forall|i: int, j: int|
            0 <= i < j < rest.len() ==> opt_le(
                #[trigger] rest[i].name_key(),
                #[trigger] rest[j].name_key(),
            )) by {
            assert(forall|i: int, j: int|
                0 <= i < j < rest.len() ==> rest[i] == s[i + 1] && rest[j] == s[j + 1]);
        }
        lemma_insert_by_name_sorted(rest, x);
        lemma_insert_by_name_multiset(rest, x);
        let ins = insert_by_name(rest, x);
        let r = insert_by_name(s, x);
        assert(r == seq![s[0]] + ins);
        assert forall|i: int, j: int| 0 <= i < j < r.len() implies opt_le(
            #[trigger] r[i].name_key(),
            #[trigger] r[j].name_key(),
        ) by {
            if i == 0 {
                let e = r[j];
                assert(e == ins[j - 1]);
                assert(ins.contains(e));
                assert(ins.to_multiset().count(e) > 0);
                if e == x {
                    assert(opt_le(s[0].name_key(), e.name_key()));
                } else {
                    assert(rest.to_multiset().count(e) > 0);
                    assert(rest.contains(e));
                    let m = choose|m: int| 0 <= m < rest.len() && rest[m] == e;
                    assert(rest[m] == s[m + 1]);
                    assert(opt_le(s[0].name_key(), s[m + 1].name_key()));
                }
            } else {
                assert(r[i] == ins[i - 1]);
                assert(r[j] == ins[j - 1]);
            }
        }
    } else {
        let r = insert_by_name(s, x);
        assert(r == seq![x] + s);
        lemma_opt_le_total(s[0].name_key(), x.name_key());
        assert forall|i: int, j: int| 0 <= i < j < r.len() implies opt_le(
            #[trigger] r[i].name_key(),
            #[trigger] r[j].name_key(),
        ) by {
            if i == 0 {
                assert(r[j] == s[j - 1]);
                if j - 1 > 0 {
                    assert(opt_le(s[0].name_key(), s[j - 1].name_key()));
                    lemma_opt_le_trans(x.name_key(), s[0].name_key(), s[j - 1].name_key());
                }
            } else {
                assert(r[i] == s[i - 1]);
                assert(r[j] == s[j - 1]);
            }
        }
    }
}

/// The name sort leaves the items in name order.
pub proof fn lemma_sort_by_name_sorted<T: Named>(s: Seq<T>)
    ensures
        sorted_by_name(sort_by_name_view(s)),
    decreases s.len(),
{
    if s.len() > 0 {
        lemma_sort_by_name_sorted(s.drop_last());
        lemma_insert_by_name_sorted(sort_by_name_view(s.drop_last()), s.last());
    }
}

/// The name sort is a permutation: it neither loses, adds nor repeats an
/// item.
pub proof fn lemma_sort_by_name_multiset<T: Named>(s: Seq<T>)
    ensures
        sort_by_name_view(s).to_multiset() == s.to_multiset(),
    decreases s.len(),
{
    broadcast use vstd::seq_lib::group_to_multiset_ensures;

    if s.len() > 0 {
        lemma_sort_by_name_multiset(s.drop_last());
        lemma_insert_by_name_multiset(sort_by_name_view(s.drop_last()), s.last());
        assert(s =~= s.drop_last().push(s.last()));
        assert(sort_by_name_view(s).to_multiset() =~= s.to_multiset());
    }
}

} // verus!
