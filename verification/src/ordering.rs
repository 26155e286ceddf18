//! Stable listing orders: which item is shown first when a listing is
//! sorted by size, by date, or by path.
//!
//! An order is a sequence of indices into the listed items. The orders here
//! are the ones a stable sort produces: items that compare equal keep the
//! position they had in the input.

use vstd::prelude::*;

verus! {

/// `order` lists each index below `n` exactly once.
pub open spec fn is_index_permutation(order: Seq<usize>, n: nat) -> bool {
    &&& order.len() == n
    &&& forall|a: int| 0 <= a < order.len() ==> #[trigger] order[a] < n
    &&& forall|a: int, b: int| 0 <= a < b < order.len() ==> order[a] != order[b]
}

/// Item `i` is listed before item `j` when the listing runs from the
/// largest key to the smallest, equal keys keeping their input order.
pub open spec fn desc_before(keys: Seq<int>, i: usize, j: usize) -> bool {
    keys[i as int] > keys[j as int] || (keys[i as int] == keys[j as int] && i < j)
}

/// `order` is the stable largest-first order of `keys`.
pub open spec fn is_stable_desc_order(keys: Seq<int>, order: Seq<usize>) -> bool {
    &&& is_index_permutation(order, keys.len())
    &&& forall|a: int, b: int|
        0 <= a < b < order.len() ==> desc_before(keys, #[trigger] order[a], #[trigger] order[b])
}

/// The rank of an optional key: a present key ranks by its value, and an
/// absent one below every value, as `Option`'s order puts `None` first.
pub open spec fn opt_rank(k: Option<i128>) -> int {
    match k {
        Some(v) => v as int,
        None => i128::MIN as int - 1,
    }
}

/// The ranks of optional keys.
pub open spec fn optional_ranks(keys: Seq<Option<i128>>) -> Seq<int> {
    keys.map_values(|k: Option<i128>| opt_rank(k))
}

/// Keys as integers.
pub open spec fn int_keys(keys: Seq<i128>) -> Seq<int> {
    keys.map_values(|k: i128| k as int)
}

fn rank_at_least(a: Option<i128>, b: Option<i128>) -> (r: bool)
    ensures
        r == (opt_rank(a) >= opt_rank(b)),
{
    match (a, b) {
        (Some(x), Some(y)) => x >= y,
        (Some(_), None) => true,
        (None, Some(_)) => false,
        (None, None) => true,
    }
}

/// The stable largest-first order of optional keys, absent keys last, as
/// `sort_by_key` with `std::cmp::Reverse` arranges items by an optional date.
pub fn order_desc_optional(keys: &Vec<Option<i128>>) -> (order: Vec<usize>)
    ensures
        is_stable_desc_order(optional_ranks(keys@), order@),
{
    let ghost ks = optional_ranks(keys@);
    let n = keys.len();
    let mut order: Vec<usize> = Vec::new();
    let mut i: usize = 0;
    while i < n
        invariant
            n == keys@.len(),
            ks == optional_ranks(keys@),
            i <= n,
            order@.len() == i,
            forall|a: int| 0 <= a < order@.len() ==> #[trigger] order@[a] < i,
            forall|a: int, b: int| 0 <= a < b < order@.len() ==> order@[a] != order@[b],
            forall|a: int, b: int|
                0 <= a < b < order@.len() ==> desc_before(ks, #[trigger] order@[a], #[trigger] order@[b]),
        decreases n - i,
    {
        let ki = keys[i];
        let mut p: usize = 0;
        while p < order.len() && rank_at_least(keys[order[p]], ki)
            invariant
                n == keys@.len(),
                ks == optional_ranks(keys@),
                i < n,
                ki == keys@[i as int],
                p <= order@.len(),
                forall|a: int| 0 <= a < order@.len() ==> #[trigger] order@[a] < i,
                forall|a: int| 0 <= a < p ==> ks[#[trigger] order@[a] as int] >= ks[i as int],
            decreases order@.len() - p,
        {
            p = p + 1;
        }
        let ghost before = order@;
        proof {
            if p < before.len() {
                assert forall|b: int| p <= b < before.len() implies ks[#[trigger] before[b] as int] < ks[i as int] by {
                    if b > p {
                        assert(desc_before(ks, before[p as int], before[b]));
                    }
                }
            }
        }
        order.insert(p, i);
        proof {
            let after = order@;
            assert(after =~= before.insert(p as int, i));
            assert forall|a: int| 0 <= a < after.len() implies #[trigger] after[a] < i + 1 by {
                if a < p {
                    assert(after[a] == before[a]);
                } else if a > p {
                    assert(after[a] == before[a - 1]);
                }
            }
            assert forall|a: int, b: int| 0 <= a < b < after.len() implies after[a] != after[b] by {
                if a < p && b < p {
                    assert(after[a] == before[a] && after[b] == before[b]);
                } else if a < p && b == p {
                    assert(after[a] == before[a]);
                } else if a < p && b > p {
                    assert(after[a] == before[a] && after[b] == before[b - 1]);
                } else if a == p {
                    assert(after[b] == before[b - 1]);
                } else {
                    assert(after[a] == before[a - 1] && after[b] == before[b - 1]);
                }
            }
            assert forall|a: int, b: int|
                0 <= a < b < after.len() implies desc_before(ks, #[trigger] after[a], #[trigger] after[b]) by {
                if a < p && b < p {
                    assert(after[a] == before[a] && after[b] == before[b]);
                } else if a < p && b == p {
                    assert(after[a] == before[a]);
                } else if a < p && b > p {
                    assert(after[a] == before[a] && after[b] == before[b - 1]);
                } else if a == p {
                    assert(after[b] == before[b - 1]);
                } else {
                    assert(after[a] == before[a - 1] && after[b] == before[b - 1]);
                }
            }
        }
        i = i + 1;
    }
    order
}

/// The stable largest-first order of `keys`, as `sort_by` comparing `b`
/// with `a` (or `sort_by_key` with `std::cmp::Reverse`) arranges items.
pub fn order_desc(keys: &Vec<i128>) -> (order: Vec<usize>)
    ensures
        is_stable_desc_order(int_keys(keys@), order@),
{
    let mut present: Vec<Option<i128>> = Vec::new();
    let mut i: usize = 0;
    while i < keys.len()
        invariant
            i <= keys@.len(),
            present@.len() == i,
            forall|a: int| 0 <= a < i ==> #[trigger] present@[a] == Some(keys@[a]),
        decreases keys@.len() - i,
    {
        present.push(Some(keys[i]));
        i = i + 1;
    }
    let order = order_desc_optional(&present);
    assert(optional_ranks(present@) =~= int_keys(keys@));
    order
}

/// `a` sorts before `b` when texts are compared character by character by
/// code point, a proper prefix coming first. Because UTF-8 keeps code point
/// order, this is the order of `str`'s `Ord`, which compares the UTF-8 bytes.
pub open spec fn text_lt(a: Seq<char>, b: Seq<char>) -> bool
    decreases a.len(),
{
    if a.len() == 0 {
        b.len() > 0
    } else if b.len() == 0 {
        false
    } else if a[0] != b[0] {
        a[0] < b[0]
    } else {
        text_lt(a.drop_first(), b.drop_first())
    }
}

/// No text sorts before itself.
pub proof fn lemma_text_lt_irreflexive(a: Seq<char>)
    ensures
        !text_lt(a, a),
    decreases a.len(),
{
    if a.len() > 0 {
        lemma_text_lt_irreflexive(a.drop_first());
    }
}

/// Of two different texts, one sorts before the other.
pub proof fn lemma_text_lt_total(a: Seq<char>, b: Seq<char>)
    ensures
        a == b || text_lt(a, b) || text_lt(b, a),
    decreases a.len(),
{
    if a.len() > 0 && b.len() > 0 && a[0] == b[0] {
        lemma_text_lt_total(a.drop_first(), b.drop_first());
        if a.drop_first() == b.drop_first() {
            assert(a =~= seq![a[0]] + a.drop_first());
            assert(b =~= seq![b[0]] + b.drop_first());
        }
    } else if a.len() == 0 && b.len() == 0 {
        assert(a =~= b);
    }
}

/// Text order is transitive.
pub proof fn lemma_text_lt_transitive(a: Seq<char>, b: Seq<char>, c: Seq<char>)
    requires
        text_lt(a, b),
        text_lt(b, c),
    ensures
        text_lt(a, c),
    decreases a.len(),
{
    if a.len() > 0 && b.len() > 0 && c.len() > 0 && a[0] == b[0] && b[0] == c[0] {
        lemma_text_lt_transitive(a.drop_first(), b.drop_first(), c.drop_first());
    }
}

/// When one text sorts before another, the other does not sort before it.
pub proof fn lemma_text_lt_asymmetric(a: Seq<char>, b: Seq<char>)
    requires
        text_lt(a, b),
    ensures
        !text_lt(b, a),
{
    if text_lt(b, a) {
        lemma_text_lt_transitive(a, b, a);
        lemma_text_lt_irreflexive(a);
    }
}

/// Whether `a` sorts before `b`.
pub fn text_less(a: &[char], b: &[char]) -> (r: bool)
    ensures
        r == text_lt(a@, b@),
{
    let mut k: usize = 0;
    assert(a@.subrange(0, a@.len() as int) =~= a@);
    assert(b@.subrange(0, b@.len() as int) =~= b@);
    loop
        invariant
            k <= a@.len(),
            k <= b@.len(),
            text_lt(a@, b@) == text_lt(a@.subrange(k as int, a@.len() as int), b@.subrange(k as int, b@.len() as int)),
        decreases a@.len() - k,
    {
        let ghost ra = a@.subrange(k as int, a@.len() as int);
        let ghost rb = b@.subrange(k as int, b@.len() as int);
        if k == a.len() {
            return k < b.len();
        }
        if k == b.len() {
            return false;
        }
        if a[k] != b[k] {
            assert(ra[0] == a@[k as int] && rb[0] == b@[k as int]);
            return a[k] < b[k];
        }
        assert(ra.drop_first() =~= a@.subrange(k + 1, a@.len() as int));
        assert(rb.drop_first() =~= b@.subrange(k + 1, b@.len() as int));
        k = k + 1;
    }
}

/// Item `i` is listed before item `j` when the listing runs in ascending
/// text order, equal texts keeping their input order.
pub open spec fn text_before(keys: Seq<Seq<char>>, i: usize, j: usize) -> bool {
    text_lt(keys[i as int], keys[j as int]) || (keys[i as int] == keys[j as int] && i < j)
}

/// `order` is the stable ascending text order of `keys`.
pub open spec fn is_stable_text_order(keys: Seq<Seq<char>>, order: Seq<usize>) -> bool {
    &&& is_index_permutation(order, keys.len())
    &&& forall|a: int, b: int|
        0 <= a < b < order.len() ==> text_before(keys, #[trigger] order[a], #[trigger] order[b])
}

/// The texts held by a list of character vectors.
pub open spec fn texts(keys: Seq<Vec<char>>) -> Seq<Seq<char>> {
    keys.map_values(|k: Vec<char>| k@)
}

/// The stable ascending text order of `keys`, as `sort_by` comparing the
/// texts with `cmp` arranges items.
pub fn order_by_text(keys: &Vec<Vec<char>>) -> (order: Vec<usize>)
    ensures
        is_stable_text_order(texts(keys@), order@),
{
    let n = keys.len();
    let ghost ks = texts(keys@);
    let mut order: Vec<usize> = Vec::new();
    let mut i: usize = 0;
    while i < n
        invariant
            n == keys@.len(),
            ks == texts(keys@),
            i <= n,
            order@.len() == i,
            forall|a: int| 0 <= a < order@.len() ==> #[trigger] order@[a] < i,
            forall|a: int, b: int| 0 <= a < b < order@.len() ==> order@[a] != order@[b],
            forall|a: int, b: int|
                0 <= a < b < order@.len() ==> text_before(ks, #[trigger] order@[a], #[trigger] order@[b]),
        decreases n - i,
    {
        let mut p: usize = 0;
        while p < order.len() && !text_less(keys[i].as_slice(), keys[order[p]].as_slice())
            invariant
                n == keys@.len(),
                ks == texts(keys@),
                i < n,
                p <= order@.len(),
                forall|a: int| 0 <= a < order@.len() ==> #[trigger] order@[a] < i,
                forall|a: int| 0 <= a < p ==> !text_lt(ks[i as int], ks[#[trigger] order@[a] as int]),
            decreases order@.len() - p,
        {
            p = p + 1;
        }
        let ghost before = order@;
        proof {
            if p < before.len() {
                assert forall|b: int| p <= b < before.len() implies text_lt(ks[i as int], ks[#[trigger] before[b] as int]) by {
                    if b > p {
                        assert(text_before(ks, before[p as int], before[b]));
                        if text_lt(ks[before[p as int] as int], ks[before[b] as int]) {
                            lemma_text_lt_transitive(ks[i as int], ks[before[p as int] as int], ks[before[b] as int]);
                        }
                    }
                }
            }
            assert forall|a: int| 0 <= a < p implies text_before(ks, #[trigger] before[a], i) by {
                lemma_text_lt_total(ks[i as int], ks[before[a] as int]);
            }
        }
        order.insert(p, i);
        proof {
            let after = order@;
            assert(after =~= before.insert(p as int, i));
            assert forall|a: int| 0 <= a < after.len() implies #[trigger] after[a] < i + 1 by {
                if a < p {
                    assert(after[a] == before[a]);
                } else if a > p {
                    assert(after[a] == before[a - 1]);
                }
            }
            assert forall|a: int, b: int| 0 <= a < b < after.len() implies after[a] != after[b] by {
                if a < p && b < p {
                    assert(after[a] == before[a] && after[b] == before[b]);
                } else if a < p && b == p {
                    assert(after[a] == before[a]);
                } else if a < p && b > p {
                    assert(after[a] == before[a] && after[b] == before[b - 1]);
                } else if a == p {
                    assert(after[b] == before[b - 1]);
                } else {
                    assert(after[a] == before[a - 1] && after[b] == before[b - 1]);
                }
            }
            assert forall|a: int, b: int|
                0 <= a < b < after.len() implies text_before(ks, #[trigger] after[a], #[trigger] after[b]) by {
                if a < p && b < p {
                    assert(after[a] == before[a] && after[b] == before[b]);
                } else if a < p && b == p {
                    assert(after[a] == before[a]);
                } else if a < p && b > p {
                    assert(after[a] == before[a] && after[b] == before[b - 1]);
                } else if a == p {
                    assert(after[b] == before[b - 1]);
                } else {
                    assert(after[a] == before[a - 1] && after[b] == before[b - 1]);
                }
            }
        }
        i = i + 1;
    }
    order
}

/// The orders the scan listing can be sorted in.
#[derive(PartialEq, Eq, Structural, Clone, Copy, Debug)]
pub enum ScanSort {
    /// Largest files first.
    Size,
    /// Most recently modified first.
    Date,
    /// Ascending path order.
    Path,
}

/// The scan order named by `--sort`: `size`, `date`, and path order for
/// any other name.
pub fn scan_sort(s: &str) -> (sort: ScanSort)
    ensures
        s@ == "size"@ ==> sort == ScanSort::Size,
        s@ != "size"@ && s@ == "date"@ ==> sort == ScanSort::Date,
        s@ != "size"@ && s@ != "date"@ ==> sort == ScanSort::Path,
{
    let c = crate::text::chars_of(s);
    if crate::options::is_word(c.as_slice(), "size") {
        ScanSort::Size
    } else if crate::options::is_word(c.as_slice(), "date") {
        ScanSort::Date
    } else {
        ScanSort::Path
    }
}

} // verus!
