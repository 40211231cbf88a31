use vstd::prelude::*;

use crate::date::{date_le, date_le_exec, Date};
use crate::entry::BlogEntry;

verus! {

/// The entries stand in ascending date order; ties carry no constraint here.
pub open spec fn sorted_by_date(s: Seq<BlogEntry>) -> bool {
    forall|i: int, j: int| 0 <= i < j < s.len() ==> date_le(s[i].date, s[j].date)
}

/// Where a stable insertion puts `x`: directly after the last element whose
/// date is at most `x`'s.
pub open spec fn ins_pos(s: Seq<BlogEntry>, x: BlogEntry) -> int
    decreases s.len(),
{
    if s.len() == 0 {
        0
    } else if date_le(s.last().date, x.date) {
        s.len() as int
    } else {
        ins_pos(s.drop_last(), x)
    }
}

/// One step of the stable sort: `x` inserted after every element whose date
/// is at most `x`'s, so that a later arrival with an equal date stays later.
pub open spec fn insert_stable(s: Seq<BlogEntry>, x: BlogEntry) -> Seq<BlogEntry>
    decreases s.len(),
{
    if s.len() == 0 {
        seq![x]
    } else if date_le(s.last().date, x.date) {
        s.push(x)
    } else {
        insert_stable(s.drop_last(), x).push(s.last())
    }
}

/// The stable ascending sort by date, element by element in discovery order.
pub open spec fn stable_sort_spec(s: Seq<BlogEntry>) -> Seq<BlogEntry>
    decreases s.len(),
{
    if s.len() == 0 {
        Seq::empty()
    } else {
        insert_stable(stable_sort_spec(s.drop_last()), s.last())
    }
}

/// The subsequence of entries carrying date `d`, in order.
pub open spec fn keep_date(s: Seq<BlogEntry>, d: Date) -> Seq<BlogEntry>
    decreases s.len(),
{
    if s.len() == 0 {
        Seq::empty()
    } else if s.last().date == d {
        keep_date(s.drop_last(), d).push(s.last())
    } else {
        keep_date(s.drop_last(), d)
    }
}

proof fn lemma_insert_len(s: Seq<BlogEntry>, x: BlogEntry)
    ensures
        insert_stable(s, x).len() == s.len() + 1,
    decreases s.len(),
{
    if s.len() > 0 && !date_le(s.last().date, x.date) {
        lemma_insert_len(s.drop_last(), x);
    }
}

pub proof fn lemma_sort_len(s: Seq<BlogEntry>)
    ensures
        stable_sort_spec(s).len() == s.len(),
    decreases s.len(),
{
    if s.len() > 0 {
        lemma_sort_len(s.drop_last());
        lemma_insert_len(stable_sort_spec(s.drop_last()), s.last());
    }
}

/// The insertion position splits `s` into a lower part whose last element
/// (if any) has date at most `x`'s, and an upper part all strictly later.
proof fn lemma_ins_pos_props(s: Seq<BlogEntry>, x: BlogEntry)
    ensures
        0 <= ins_pos(s, x) <= s.len(),
        ins_pos(s, x) > 0 ==> date_le(s[ins_pos(s, x) - 1].date, x.date),
        forall|i: int| ins_pos(s, x) <= i < s.len() ==> !date_le(s[i].date, x.date),
    decreases s.len(),
{
    if s.len() > 0 && !date_le(s.last().date, x.date) {
        lemma_ins_pos_props(s.drop_last(), x);
        let k = ins_pos(s, x);
        if k > 0 {
            assert(s.drop_last()[k - 1] == s[k - 1]);
        }
        assert forall|i: int| k <= i < s.len() implies !date_le(s[i].date, x.date) by {
            if i < s.len() - 1 {
                assert(s.drop_last()[i] == s[i]);
                assert(!date_le(s.drop_last()[i].date, x.date));
            }
        }
    }
}

/// Any position with the properties of `lemma_ins_pos_props` is the
/// insertion position.
proof fn lemma_ins_pos_unique(s: Seq<BlogEntry>, x: BlogEntry, j: int)
    requires
        0 <= j <= s.len(),
        j > 0 ==> date_le(s[j - 1].date, x.date),
        forall|i: int| j <= i < s.len() ==> !date_le(s[i].date, x.date),
    ensures
        j == ins_pos(s, x),
    decreases s.len(),
{
    if s.len() == 0 {
    } else if date_le(s.last().date, x.date) {
        assert(j == s.len()) by {
            if j < s.len() {
                assert(!date_le(s[s.len() - 1].date, x.date));
            }
        }
    } else {
        assert(j < s.len());
        lemma_ins_pos_unique(s.drop_last(), x, j);
    }
}

/// The inserted run is the lower part, then `x`, then the upper part.
proof fn lemma_insert_decomp(s: Seq<BlogEntry>, x: BlogEntry)
    ensures
        insert_stable(s, x) =~= s.subrange(0, ins_pos(s, x)) + seq![x] + s.subrange(
            ins_pos(s, x),
            s.len() as int,
        ),
    decreases s.len(),
{
    lemma_ins_pos_props(s, x);
    if s.len() == 0 {
    } else if date_le(s.last().date, x.date) {
    } else {
        lemma_insert_decomp(s.drop_last(), x);
        lemma_insert_len(s.drop_last(), x);
        assert(s.drop_last().subrange(0, ins_pos(s, x)) =~= s.subrange(0, ins_pos(s, x)));
        assert(s.drop_last().subrange(ins_pos(s, x), s.len() - 1).push(s.last()) =~= s.subrange(
            ins_pos(s, x),
            s.len() as int,
        ));
    }
}

/// Inserting into a sorted run keeps it sorted.
proof fn lemma_insert_sorted(s: Seq<BlogEntry>, x: BlogEntry)
    requires
        sorted_by_date(s),
    ensures
        sorted_by_date(insert_stable(s, x)),
{
    lemma_ins_pos_props(s, x);
    lemma_insert_decomp(s, x);
    lemma_insert_len(s, x);
    let k = ins_pos(s, x);
    let t = insert_stable(s, x);
    assert forall|i: int, j: int| 0 <= i < j < t.len() implies date_le(t[i].date, t[j].date) by {
        if i < k && j == k {
            assert(date_le(s[k - 1].date, x.date));
            if i < k - 1 {
                assert(date_le(s[i].date, s[k - 1].date));
            }
        } else if i == k && j > k {
            assert(!date_le(s[j - 1].date, x.date));
        }
    }
}

/// Inserting `x` appends it to the entries of its own date and leaves every
/// other date's subsequence untouched: the step that makes the sort stable.
proof fn lemma_insert_keep(s: Seq<BlogEntry>, x: BlogEntry, d: Date)
    ensures
        keep_date(insert_stable(s, x), d) == if x.date == d {
            keep_date(s, d).push(x)
        } else {
            keep_date(s, d)
        },
    decreases s.len(),
{
    if s.len() == 0 {
        assert(s =~= Seq::<BlogEntry>::empty());
        assert(keep_date(Seq::<BlogEntry>::empty(), d) =~= Seq::<BlogEntry>::empty());
        assert(seq![x].drop_last() =~= Seq::<BlogEntry>::empty());
        assert(seq![x].last() == x);
    } else if date_le(s.last().date, x.date) {
        assert(s.push(x).drop_last() =~= s);
    } else {
        lemma_insert_keep(s.drop_last(), x, d);
        let t = insert_stable(s.drop_last(), x).push(s.last());
        assert(t.drop_last() =~= insert_stable(s.drop_last(), x));
    }
}

/// Sort stability: for every date, the sorted sequence holds exactly the
/// input's entries of that date, in their original discovery order.
pub proof fn lemma_sort_keeps_date(s: Seq<BlogEntry>, d: Date)
    ensures
        keep_date(stable_sort_spec(s), d) == keep_date(s, d),
    decreases s.len(),
{
    if s.len() > 0 {
        lemma_sort_keeps_date(s.drop_last(), d);
        lemma_insert_keep(stable_sort_spec(s.drop_last()), s.last(), d);
    }
}

/// The sorted sequence is in ascending date order.
pub proof fn lemma_sort_sorted(s: Seq<BlogEntry>)
    ensures
        sorted_by_date(stable_sort_spec(s)),
    decreases s.len(),
{
    if s.len() > 0 {
        lemma_sort_sorted(s.drop_last());
        lemma_insert_sorted(stable_sort_spec(s.drop_last()), s.last());
    }
}

/// Sorts the collected entries in place: a stable ascending sort by parsed
/// date, ties keeping their discovery order.
pub fn sort_entries(v: &mut Vec<BlogEntry>)
    ensures
        final(v)@ == stable_sort_spec(old(v)@),
        sorted_by_date(final(v)@),
        forall|d: Date| keep_date(final(v)@, d) == keep_date(old(v)@, d),
{
    let ghost orig = v@;
    let n = v.len();
    if n > 1 {
        let mut i: usize = 1;
        proof {
            assert(orig.subrange(0, 1).drop_last() =~= Seq::<BlogEntry>::empty());
            assert(orig.subrange(0, 1).last() == orig[0]);
            assert(stable_sort_spec(Seq::<BlogEntry>::empty()) == Seq::<BlogEntry>::empty());
            assert(insert_stable(Seq::<BlogEntry>::empty(), orig[0]) == seq![orig[0]]);
            assert(stable_sort_spec(orig.subrange(0, 1)) =~= seq![orig[0]]);
            assert(v@ =~= stable_sort_spec(orig.subrange(0, 1)) + orig.subrange(1, n as int));
        }
        while i < n
            invariant
                1 <= i <= n,
                n == v@.len(),
                n == orig.len(),
                v@ == stable_sort_spec(orig.subrange(0, i as int)) + orig.subrange(
                    i as int,
                    n as int,
                ),
            decreases n - i,
        {
            let ghost prefix = stable_sort_spec(orig.subrange(0, i as int));
            proof {
                lemma_sort_len(orig.subrange(0, i as int));
                assert(v@.subrange(0, i as int) =~= prefix);
            }
            let mut j: usize = i;
            while j > 0 && !date_le_exec(&v[j - 1].date, &v[i].date)
                invariant
                    0 <= j <= i < n,
                    n == v@.len(),
                    v@.subrange(0, i as int) == prefix,
                    forall|t: int| j <= t < i ==> !date_le(prefix[t].date, v@[i as int].date),
                decreases j,
            {
                j = j - 1;
            }
            let ghost x = v@[i as int];
            proof {
                if j > 0 {
                    assert(date_le(prefix[j - 1].date, x.date));
                }
                lemma_ins_pos_unique(prefix, x, j as int);
                lemma_insert_decomp(prefix, x);
                lemma_insert_len(prefix, x);
            }
            let moved = v.remove(i);
            v.insert(j, moved);
            proof {
                let taken = orig.subrange(0, i as int + 1);
                assert(taken.drop_last() =~= orig.subrange(0, i as int));
                assert(taken.last() == orig[i as int]);
                assert(x == orig[i as int]);
                assert(v@ =~= prefix.subrange(0, j as int) + seq![x] + prefix.subrange(
                    j as int,
                    i as int,
                ) + orig.subrange(i as int + 1, n as int));
                assert(v@ =~= insert_stable(prefix, x) + orig.subrange(i as int + 1, n as int));
                assert(stable_sort_spec(taken) == insert_stable(prefix, orig[i as int]));
            }
            i = i + 1;
        }
        proof {
            assert(orig.subrange(0, n as int) =~= orig);
            assert(v@ =~= stable_sort_spec(orig));
        }
    } else {
        proof {
            if n == 1 {
                assert(orig.drop_last() =~= Seq::<BlogEntry>::empty());
                assert(stable_sort_spec(Seq::<BlogEntry>::empty()) == Seq::<BlogEntry>::empty());
                assert(insert_stable(Seq::<BlogEntry>::empty(), orig[0]) == seq![orig[0]]);
                assert(orig.last() == orig[0]);
                assert(stable_sort_spec(orig) =~= seq![orig[0]]);
                assert(v@ =~= stable_sort_spec(orig));
            } else {
                assert(v@ =~= stable_sort_spec(orig));
            }
        }
    }
    proof {
        lemma_sort_sorted(orig);
        assert forall|d: Date| keep_date(v@, d) == keep_date(orig, d) by {
            lemma_sort_keeps_date(orig, d);
        }
    }
}

} // verus!
