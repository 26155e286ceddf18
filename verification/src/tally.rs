//! Summaries of a listing by label: how many items carry each label and how
//! many bytes they hold, labels in ascending text order (the order a
//! `BTreeMap` keyed by the label text walks).

use vstd::prelude::*;
use crate::display::string_texts;
use crate::ordering::{lemma_text_lt_irreflexive, lemma_text_lt_total, lemma_text_lt_transitive, text_less, text_lt};
use crate::snapshots::total;
use crate::text::{chars_of, same_chars};

verus! {

broadcast use vstd::string::group_string_axioms;

/// One line of a summary.
pub struct LabelTotal {
    pub label: String,
    pub count: usize,
    pub bytes: u64,
}

/// How many of `labels` are `k`.
pub open spec fn occurrences(labels: Seq<Seq<char>>, k: Seq<char>) -> nat
    decreases labels.len(),
{
    if labels.len() == 0 {
        0
    } else {
        occurrences(labels.drop_last(), k) + (if labels.last() == k { 1nat } else { 0nat })
    }
}

/// The bytes of the items labelled `k`.
pub open spec fn bytes_labelled(labels: Seq<Seq<char>>, sizes: Seq<u64>, k: Seq<char>) -> nat
    decreases labels.len(),
{
    if labels.len() == 0 || sizes.len() == 0 {
        0
    } else {
        bytes_labelled(labels.drop_last(), sizes.drop_last(), k) + (if labels.last() == k {
            sizes.last() as nat
        } else {
            0nat
        })
    }
}

/// `summary` sums up the items with `labels` and `sizes`: one line per
/// distinct label, in ascending text order, each with the number of items
/// and bytes carrying that label.
pub open spec fn is_summary(labels: Seq<Seq<char>>, sizes: Seq<u64>, summary: Seq<LabelTotal>) -> bool {
    &&& forall|a: int, b: int|
        0 <= a < b < summary.len() ==> text_lt(#[trigger] summary[a].label@, #[trigger] summary[b].label@)
    &&& forall|a: int| 0 <= a < summary.len() ==> {
        &&& (#[trigger] summary[a]).count == occurrences(labels, summary[a].label@)
        &&& summary[a].bytes == bytes_labelled(labels, sizes, summary[a].label@)
        &&& summary[a].count > 0
    }
    &&& forall|j: int| 0 <= j < labels.len() ==> exists|a: int| 0 <= a < summary.len() && #[trigger] summary[a].label@ == #[trigger] labels[j]
}

proof fn lemma_occurrences_bounded(labels: Seq<Seq<char>>, k: Seq<char>)
    ensures
        occurrences(labels, k) <= labels.len(),
    decreases labels.len(),
{
    if labels.len() > 0 {
        lemma_occurrences_bounded(labels.drop_last(), k);
    }
}

proof fn lemma_bytes_bounded(labels: Seq<Seq<char>>, sizes: Seq<u64>, k: Seq<char>)
    requires
        labels.len() == sizes.len(),
    ensures
        bytes_labelled(labels, sizes, k) <= total(sizes),
    decreases labels.len(),
{
    if labels.len() > 0 {
        lemma_bytes_bounded(labels.drop_last(), sizes.drop_last(), k);
    }
}

proof fn lemma_total_take(sizes: Seq<u64>, i: int)
    requires
        0 <= i <= sizes.len(),
    ensures
        total(sizes.take(i)) <= total(sizes),
    decreases sizes.len() - i,
{
    if i < sizes.len() {
        lemma_total_take(sizes, i + 1);
        assert(sizes.take(i + 1).drop_last() =~= sizes.take(i));
    } else {
        assert(sizes.take(i) =~= sizes);
    }
}

/// Sums up a listing by label. The sizes' total must fit in `u64`, as the
/// running sums would otherwise overflow.
pub fn summarize(labels: &Vec<String>, sizes: &Vec<u64>) -> (summary: Vec<LabelTotal>)
    requires
        labels@.len() == sizes@.len(),
        total(sizes@) <= u64::MAX,
    ensures
        is_summary(string_texts(labels@), sizes@, summary@),
{
    let ghost ls = string_texts(labels@);
    let n = labels.len();
    let mut out: Vec<LabelTotal> = Vec::new();
    let mut j: usize = 0;
    while j < n
        invariant
            n == labels@.len(),
            n == sizes@.len(),
            ls == string_texts(labels@),
            total(sizes@) <= u64::MAX,
            j <= n,
            is_summary(ls.take(j as int), sizes@.take(j as int), out@),
        decreases n - j,
    {
        let ghost lp = ls.take(j as int);
        let ghost sp = sizes@.take(j as int);
        let ghost ln = ls.take(j + 1);
        let ghost sn = sizes@.take(j + 1);
        assert(ln.drop_last() =~= lp);
        assert(sn.drop_last() =~= sp);
        let key = chars_of(labels[j].as_str());
        let size = sizes[j];
        assert(ln.last() == key@);
        assert(sn.last() == size);
        let mut p: usize = 0;
        while p < out.len() && text_less(chars_of(out[p].label.as_str()).as_slice(), key.as_slice())
            invariant
                p <= out@.len(),
                forall|a: int| 0 <= a < p ==> text_lt(#[trigger] out@[a].label@, key@),
            decreases out@.len() - p,
        {
            p = p + 1;
        }
        proof {
            lemma_occurrences_bounded(ln, key@);
            lemma_bytes_bounded(ln, sn, key@);
            lemma_total_take(sizes@, j + 1);
            assert forall|k: Seq<char>| occurrences(ln, k) == occurrences(lp, k) + (if k == key@ { 1nat } else { 0nat }) by {}
            assert forall|k: Seq<char>| bytes_labelled(ln, sn, k) == bytes_labelled(lp, sp, k) + (if k == key@ { size as nat } else { 0nat }) by {}
        }
        let ghost before = out@;
        let found = p < out.len() && same_chars(chars_of(out[p].label.as_str()).as_slice(), key.as_slice());
        if found {
            let entry = LabelTotal {
                label: out[p].label.clone(),
                count: out[p].count + 1,
                bytes: out[p].bytes + size,
            };
            out.set(p, entry);
            proof {
                let after = out@;
                assert(after =~= before.update(p as int, entry));
                assert forall|a: int, b: int| 0 <= a < b < after.len() implies text_lt(#[trigger] after[a].label@, #[trigger] after[b].label@) by {
                    assert(before[a].label@ == after[a].label@);
                    assert(before[b].label@ == after[b].label@);
                }
                assert forall|a: int| 0 <= a < after.len() implies {
                    &&& (#[trigger] after[a]).count == occurrences(ln, after[a].label@)
                    &&& after[a].bytes == bytes_labelled(ln, sn, after[a].label@)
                    &&& after[a].count > 0
                } by {
                    if a != p {
                        assert(after[a] == before[a]);
                        if before[a].label@ == key@ {
                            if a < p {
                                lemma_text_lt_irreflexive(key@);
                            } else {
                                assert(text_lt(before[p as int].label@, before[a].label@));
                                lemma_text_lt_irreflexive(key@);
                            }
                        }
                    }
                }
                assert forall|jj: int| 0 <= jj < ln.len() implies exists|a: int| 0 <= a < after.len() && #[trigger] after[a].label@ == #[trigger] ln[jj] by {
                    if jj < j {
                        assert(ln[jj] == lp[jj]);
                        let a = choose|a: int| 0 <= a < before.len() && #[trigger] before[a].label@ == #[trigger] lp[jj];
                        assert(after[a].label@ == before[a].label@);
                    } else {
                        assert(after[p as int].label@ == ln[jj]);
                    }
                }
            }
        } else {
            let entry = LabelTotal { label: labels[j].clone(), count: 1, bytes: size };
            proof {
                if p < before.len() {
                    lemma_text_lt_total(before[p as int].label@, key@);
                }
                assert forall|a: int| 0 <= a < before.len() implies before[a].label@ != key@ by {
                    if a < p {
                        lemma_text_lt_irreflexive(key@);
                    } else if a > p {
                        assert(text_lt(before[p as int].label@, before[a].label@));
                        if before[a].label@ == key@ {
                            lemma_text_lt_transitive(key@, before[p as int].label@, key@);
                            lemma_text_lt_irreflexive(key@);
                        }
                    }
                }
                assert(occurrences(lp, key@) == 0) by {
                    if occurrences(lp, key@) > 0 {
                        lemma_occurs_somewhere(lp, key@);
                        let jj = choose|jj: int| 0 <= jj < lp.len() && lp[jj] == key@;
                        let a = choose|a: int| 0 <= a < before.len() && #[trigger] before[a].label@ == #[trigger] lp[jj];
                    }
                }
                lemma_no_occurrence_no_bytes(lp, sp, key@);
            }
            out.insert(p, entry);
            proof {
                let after = out@;
                assert(after =~= before.insert(p as int, entry));
                assert forall|a: int, b: int| 0 <= a < b < after.len() implies text_lt(#[trigger] after[a].label@, #[trigger] after[b].label@) by {
                    if a < p && b < p {
                        assert(after[a] == before[a] && after[b] == before[b]);
                    } else if a < p && b == p {
                        assert(after[a] == before[a]);
                    } else if a < p && b > p {
                        assert(after[a] == before[a] && after[b] == before[b - 1]);
                    } else if a == p {
                        assert(after[b] == before[b - 1]);
                        if b - 1 > p {
                            assert(text_lt(before[p as int].label@, before[b - 1].label@));
                            lemma_text_lt_transitive(key@, before[p as int].label@, before[b - 1].label@);
                        }
                    } else {
                        assert(after[a] == before[a - 1] && after[b] == before[b - 1]);
                    }
                }
                assert forall|a: int| 0 <= a < after.len() implies {
                    &&& (#[trigger] after[a]).count == occurrences(ln, after[a].label@)
                    &&& after[a].bytes == bytes_labelled(ln, sn, after[a].label@)
                    &&& after[a].count > 0
                } by {
                    if a < p {
                        assert(after[a] == before[a]);
                    } else if a > p {
                        assert(after[a] == before[a - 1]);
                    }
                }
                assert forall|jj: int| 0 <= jj < ln.len() implies exists|a: int| 0 <= a < after.len() && #[trigger] after[a].label@ == #[trigger] ln[jj] by {
                    if jj < j {
                        assert(ln[jj] == lp[jj]);
                        let a = choose|a: int| 0 <= a < before.len() && #[trigger] before[a].label@ == #[trigger] lp[jj];
                        if a < p {
                            assert(after[a].label@ == before[a].label@);
                        } else {
                            assert(after[a + 1].label@ == before[a].label@);
                        }
                    } else {
                        assert(after[p as int].label@ == ln[jj]);
                    }
                }
            }
        }
        j = j + 1;
    }
    assert(ls.take(n as int) =~= ls);
    assert(sizes@.take(n as int) =~= sizes@);
    out
}

proof fn lemma_occurs_somewhere(labels: Seq<Seq<char>>, k: Seq<char>)
    requires
        occurrences(labels, k) > 0,
    ensures
        exists|j: int| 0 <= j < labels.len() && labels[j] == k,
    decreases labels.len(),
{
    if labels.last() == k {
        assert(labels[labels.len() - 1] == k);
    } else {
        lemma_occurs_somewhere(labels.drop_last(), k);
        let j = choose|j: int| 0 <= j < labels.drop_last().len() && labels.drop_last()[j] == k;
        assert(labels[j] == k);
    }
}

proof fn lemma_no_occurrence_no_bytes(labels: Seq<Seq<char>>, sizes: Seq<u64>, k: Seq<char>)
    requires
        occurrences(labels, k) == 0,
    ensures
        bytes_labelled(labels, sizes, k) == 0,
    decreases labels.len(),
{
    if labels.len() > 0 && sizes.len() > 0 {
        lemma_no_occurrence_no_bytes(labels.drop_last(), sizes.drop_last(), k);
    }
}

/// The item counts of a summary, added up.
pub open spec fn counted(summary: Seq<LabelTotal>) -> nat
    decreases summary.len(),
{
    if summary.len() == 0 {
        0
    } else {
        counted(summary.drop_last()) + summary.last().count as nat
    }
}

/// The byte totals of a summary, added up.
pub open spec fn bytes_counted(summary: Seq<LabelTotal>) -> nat
    decreases summary.len(),
{
    if summary.len() == 0 {
        0
    } else {
        bytes_counted(summary.drop_last()) + summary.last().bytes as nat
    }
}

spec fn occ_sum(labels: Seq<Seq<char>>, keys: Seq<Seq<char>>) -> nat
    decreases keys.len(),
{
    if keys.len() == 0 {
        0
    } else {
        occ_sum(labels, keys.drop_last()) + occurrences(labels, keys.last())
    }
}

spec fn bytes_sum(labels: Seq<Seq<char>>, sizes: Seq<u64>, keys: Seq<Seq<char>>) -> nat
    decreases keys.len(),
{
    if keys.len() == 0 {
        0
    } else {
        bytes_sum(labels, sizes, keys.drop_last()) + bytes_labelled(labels, sizes, keys.last())
    }
}

spec fn hits(x: Seq<char>, keys: Seq<Seq<char>>) -> nat
    decreases keys.len(),
{
    if keys.len() == 0 {
        0
    } else {
        hits(x, keys.drop_last()) + (if keys.last() == x { 1nat } else { 0nat })
    }
}

spec fn distinct(keys: Seq<Seq<char>>) -> bool {
    forall|a: int, b: int| 0 <= a < b < keys.len() ==> keys[a] != keys[b]
}

proof fn lemma_hits_unique(x: Seq<char>, keys: Seq<Seq<char>>)
    requires
        distinct(keys),
        keys.contains(x),
    ensures
        hits(x, keys) == 1,
    decreases keys.len(),
{
    let init = keys.drop_last();
    if keys.last() == x {
        assert forall|a: int| 0 <= a < init.len() implies init[a] != x by {
            assert(keys[a] != keys[keys.len() - 1]);
        }
        lemma_hits_absent(x, init);
    } else {
        let i = choose|i: int| 0 <= i < keys.len() && keys[i] == x;
        assert(init[i] == x);
        lemma_hits_unique(x, init);
    }
}

proof fn lemma_hits_absent(x: Seq<char>, keys: Seq<Seq<char>>)
    requires
        forall|a: int| 0 <= a < keys.len() ==> keys[a] != x,
    ensures
        hits(x, keys) == 0,
    decreases keys.len(),
{
    if keys.len() > 0 {
        assert(keys[keys.len() - 1] != x);
        lemma_hits_absent(x, keys.drop_last());
    }
}

proof fn lemma_occ_sum_step(labels: Seq<Seq<char>>, keys: Seq<Seq<char>>)
    requires
        labels.len() > 0,
    ensures
        occ_sum(labels, keys) == occ_sum(labels.drop_last(), keys) + hits(labels.last(), keys),
    decreases keys.len(),
{
    if keys.len() > 0 {
        lemma_occ_sum_step(labels, keys.drop_last());
    }
}

proof fn lemma_bytes_sum_step(labels: Seq<Seq<char>>, sizes: Seq<u64>, keys: Seq<Seq<char>>)
    requires
        labels.len() > 0,
        labels.len() == sizes.len(),
    ensures
        bytes_sum(labels, sizes, keys) == bytes_sum(labels.drop_last(), sizes.drop_last(), keys)
            + hits(labels.last(), keys) * (sizes.last() as nat),
    decreases keys.len(),
{
    if keys.len() > 0 {
        lemma_bytes_sum_step(labels, sizes, keys.drop_last());
        let h = hits(labels.last(), keys.drop_last());
        let s = sizes.last() as nat;
        let k = keys.last();
        assert(bytes_labelled(labels, sizes, k) == bytes_labelled(labels.drop_last(), sizes.drop_last(), k)
            + (if labels.last() == k { s } else { 0nat }));
        if k == labels.last() {
            assert(hits(labels.last(), keys) == h + 1);
            assert((h + 1) * s == h * s + s) by (nonlinear_arith);
        } else {
            assert(hits(labels.last(), keys) == h);
        }
        assert(bytes_sum(labels, sizes, keys) == bytes_sum(labels, sizes, keys.drop_last()) + bytes_labelled(labels, sizes, k));
        assert(bytes_sum(labels.drop_last(), sizes.drop_last(), keys) == bytes_sum(labels.drop_last(), sizes.drop_last(), keys.drop_last())
            + bytes_labelled(labels.drop_last(), sizes.drop_last(), k));
    } else {
        assert(hits(labels.last(), keys) == 0);
        assert(0 * (sizes.last() as nat) == 0);
    }
}

proof fn lemma_cover_counts(labels: Seq<Seq<char>>, sizes: Seq<u64>, keys: Seq<Seq<char>>)
    requires
        distinct(keys),
        labels.len() == sizes.len(),
        forall|j: int| 0 <= j < labels.len() ==> keys.contains(#[trigger] labels[j]),
    ensures
        occ_sum(labels, keys) == labels.len(),
        bytes_sum(labels, sizes, keys) == total(sizes),
    decreases labels.len(),
{
    if labels.len() == 0 {
        lemma_zero_sums(labels, sizes, keys);
    } else {
        let init = labels.drop_last();
        assert forall|j: int| 0 <= j < init.len() implies keys.contains(#[trigger] init[j]) by {
            assert(init[j] == labels[j]);
        }
        lemma_cover_counts(init, sizes.drop_last(), keys);
        assert(keys.contains(labels[labels.len() - 1]));
        lemma_hits_unique(labels.last(), keys);
        lemma_occ_sum_step(labels, keys);
        lemma_bytes_sum_step(labels, sizes, keys);
    }
}

proof fn lemma_zero_sums(labels: Seq<Seq<char>>, sizes: Seq<u64>, keys: Seq<Seq<char>>)
    requires
        labels.len() == 0,
    ensures
        occ_sum(labels, keys) == 0,
        bytes_sum(labels, sizes, keys) == 0,
    decreases keys.len(),
{
    if keys.len() > 0 {
        lemma_zero_sums(labels, sizes, keys.drop_last());
    }
}

spec fn summary_keys(summary: Seq<LabelTotal>) -> Seq<Seq<char>> {
    summary.map_values(|t: LabelTotal| t.label@)
}

proof fn lemma_counted_is_occ_sum(labels: Seq<Seq<char>>, sizes: Seq<u64>, summary: Seq<LabelTotal>)
    requires
        forall|a: int| 0 <= a < summary.len() ==> (#[trigger] summary[a]).count == occurrences(labels, summary[a].label@)
            && summary[a].bytes == bytes_labelled(labels, sizes, summary[a].label@),
    ensures
        counted(summary) == occ_sum(labels, summary_keys(summary)),
        bytes_counted(summary) == bytes_sum(labels, sizes, summary_keys(summary)),
    decreases summary.len(),
{
    if summary.len() > 0 {
        let init = summary.drop_last();
        assert forall|a: int| 0 <= a < init.len() implies (#[trigger] init[a]).count == occurrences(labels, init[a].label@)
            && init[a].bytes == bytes_labelled(labels, sizes, init[a].label@) by {
            assert(init[a] == summary[a]);
        }
        lemma_counted_is_occ_sum(labels, sizes, init);
        assert(summary_keys(summary).drop_last() =~= summary_keys(init));
        assert(summary_keys(summary).last() == summary.last().label@);
        assert(summary.last() == summary[summary.len() - 1]);
    }
}

/// A summary accounts for every item and every byte of the listing it sums
/// up: its counts add up to the number of items, and its byte totals to
/// the total size.
pub proof fn law_summary_accounts_for_all(labels: Seq<Seq<char>>, sizes: Seq<u64>, summary: Seq<LabelTotal>)
    requires
        labels.len() == sizes.len(),
        is_summary(labels, sizes, summary),
    ensures
        counted(summary) == labels.len(),
        bytes_counted(summary) == total(sizes),
{
    let keys = summary_keys(summary);
    assert forall|a: int, b: int| 0 <= a < b < keys.len() implies keys[a] != keys[b] by {
        assert(text_lt(summary[a].label@, summary[b].label@));
        if keys[a] == keys[b] {
            lemma_text_lt_irreflexive(keys[a]);
        }
    }
    assert forall|j: int| 0 <= j < labels.len() implies keys.contains(#[trigger] labels[j]) by {
        let a = choose|a: int| 0 <= a < summary.len() && #[trigger] summary[a].label@ == #[trigger] labels[j];
        assert(keys[a] == labels[j]);
    }
    lemma_counted_is_occ_sum(labels, sizes, summary);
    lemma_cover_counts(labels, sizes, keys);
}

} // verus!
