//! Orders on text and numbers, and stable sorting by them.
//!
//! Strings compare as `String`'s `Ord` does: character by character by
//! code point (the order of their UTF-8 bytes), a proper prefix first.
use vstd::prelude::*;

verus! {

/// `a < b` as strings.
pub open spec fn str_lt(a: Seq<char>, b: Seq<char>) -> bool
    decreases a.len(),
{
    if a.len() == 0 {
        b.len() > 0
    } else if b.len() == 0 {
        false
    } else if a[0] != b[0] {
        (a[0] as int) < (b[0] as int)
    } else {
        str_lt(a.drop_first(), b.drop_first())
    }
}

pub proof fn lemma_str_lt_irreflexive(a: Seq<char>)
    ensures
        !str_lt(a, a),
    decreases a.len(),
{
    if a.len() > 0 {
        lemma_str_lt_irreflexive(a.drop_first());
    }
}

pub proof fn lemma_str_lt_total(a: Seq<char>, b: Seq<char>)
    ensures
        str_lt(a, b) || str_lt(b, a) || a == b,
    decreases a.len(),
{
    if a.len() > 0 && b.len() > 0 && a[0] == b[0] {
        lemma_str_lt_total(a.drop_first(), b.drop_first());
        if a.drop_first() == b.drop_first() {
            assert(a =~= seq![a[0]] + a.drop_first());
            assert(b =~= seq![b[0]] + b.drop_first());
        }
    } else if a.len() == 0 && b.len() == 0 {
        assert(a =~= b);
    } else if a.len() > 0 && b.len() > 0 {
        assert(a[0] != b[0]);
    }
}

pub proof fn lemma_str_lt_asym(a: Seq<char>, b: Seq<char>)
    ensures
        !(str_lt(a, b) && str_lt(b, a)),
    decreases a.len(),
{
    if a.len() > 0 && b.len() > 0 && a[0] == b[0] {
        lemma_str_lt_asym(a.drop_first(), b.drop_first());
    }
}

pub proof fn lemma_str_lt_trans(a: Seq<char>, b: Seq<char>, c: Seq<char>)
    requires
        str_lt(a, b),
        str_lt(b, c),
    ensures
        str_lt(a, c),
    decreases a.len(),
{
    if a.len() > 0 && b.len() > 0 && c.len() > 0 && a[0] == b[0] && b[0] == c[0] {
        lemma_str_lt_trans(a.drop_first(), b.drop_first(), c.drop_first());
    }
}

/// The string order decided on two character vectors.
pub fn str_lt_exec(a: &Vec<char>, b: &Vec<char>) -> (res: bool)
    ensures
        res == str_lt(a@, b@),
{
    let mut i: usize = 0;
    assert(a@.skip(0) =~= a@);
    assert(b@.skip(0) =~= b@);
    while i < a.len() && i < b.len() && a[i] == b[i]
        invariant
            i <= a.len(),
            i <= b.len(),
            str_lt(a@, b@) == str_lt(a@.skip(i as int), b@.skip(i as int)),
        decreases a.len() - i,
    {
        assert(a@.skip(i as int).drop_first() =~= a@.skip(i + 1));
        assert(b@.skip(i as int).drop_first() =~= b@.skip(i + 1));
        i = i + 1;
    }
    if i == a.len() {
        return i < b.len();
    }
    if i == b.len() {
        return false;
    }
    a[i] < b[i]
}

/// `res` orders the indices `0..keys.len()` by key, equal keys in index order.
pub open spec fn stably_sorted_by_str(keys: Seq<Seq<char>>, res: Seq<usize>) -> bool {
    &&& res.len() == keys.len()
    &&& forall|i: int| 0 <= i < res.len() ==> (#[trigger] res[i] as int) < keys.len()
    &&& res.no_duplicates()
    &&& forall|i: int, j: int|
        0 <= i < j < res.len() ==> str_lt(keys[#[trigger] res[i] as int], keys[#[trigger] res[j] as int])
            || (keys[res[i] as int] == keys[res[j] as int] && res[i] < res[j])
}

/// An ordering of the indices `0..n` (each below `n`, none twice) holds
/// every one of them.
pub proof fn lemma_index_order_covers(res: Seq<usize>, n: int, v: int)
    requires
        res.len() == n,
        forall|i: int| 0 <= i < res.len() ==> (#[trigger] res[i] as int) < n,
        res.no_duplicates(),
        0 <= v < n <= usize::MAX,
    ensures
        exists|k: int| 0 <= k < n && res[k] as int == v,
{
    let all = Seq::new(n as nat, |i: int| i as usize);
    assert forall|i: int| 0 <= i < n implies #[trigger] all[i] as int == i by {}
    assert forall|i: int, j: int| 0 <= i < all.len() && 0 <= j < all.len() && i != j implies all[i] != all[j] by {
        assert(all[i] as int == i && all[j] as int == j);
    }
    all.unique_seq_to_set();
    res.unique_seq_to_set();
    assert forall|x: usize| res.to_set().contains(x) implies all.to_set().contains(x) by {
        let k = choose|k: int| 0 <= k < res.len() && res[k] == x;
        assert(all[x as int] == x);
    }
    vstd::set_lib::lemma_subset_equality(res.to_set(), all.to_set());
    assert(all[v] as int == v);
    assert(all.contains(v as usize));
    assert(all.to_set().contains(v as usize));
    assert(res.to_set().contains(v as usize));
    let k = choose|k: int| 0 <= k < res.len() && res[k] == v as usize;
    assert(res[k] as int == v);
}

/// The order of pairs (key, index) that a stable sort follows.
pub open spec fn pair_lt(keys: Seq<Seq<char>>, x: usize, y: usize) -> bool {
    str_lt(keys[x as int], keys[y as int]) || (keys[x as int] == keys[y as int] && x < y)
}

proof fn lemma_pair_lt_trans(keys: Seq<Seq<char>>, x: usize, y: usize, z: usize)
    requires
        pair_lt(keys, x, y),
        pair_lt(keys, y, z),
    ensures
        pair_lt(keys, x, z),
{
    if str_lt(keys[x as int], keys[y as int]) && str_lt(keys[y as int], keys[z as int]) {
        lemma_str_lt_trans(keys[x as int], keys[y as int], keys[z as int]);
    }
}

/// A stable sort of the indices `0..keys.len()` by their keys.
pub fn sort_indices_by_str(keys: &Vec<Vec<char>>) -> (res: Vec<usize>)
    ensures
        stably_sorted_by_str(keys@.map_values(|k: Vec<char>| k@), res@),
{
    let ghost kv = keys@.map_values(|k: Vec<char>| k@);
    let mut res: Vec<usize> = Vec::new();
    let mut k: usize = 0;
    while k < keys.len()
        invariant
            k <= keys.len(),
            kv == keys@.map_values(|k: Vec<char>| k@),
            kv.len() == keys.len(),
            res.len() == k,
            forall|i: int| 0 <= i < res.len() ==> (#[trigger] res@[i] as int) < k,
            res@.no_duplicates(),
            forall|i: int, j: int| 0 <= i < j < res.len() ==> pair_lt(kv, #[trigger] res@[i], #[trigger] res@[j]),
        decreases keys.len() - k,
    {
        let mut p = res.len();
        while p > 0 && str_lt_exec(&keys[k], &keys[res[p - 1]])
            invariant
                p <= res.len(),
                k < keys.len(),
                kv == keys@.map_values(|k: Vec<char>| k@),
                forall|i: int| 0 <= i < res.len() ==> (#[trigger] res@[i] as int) < k,
                forall|q: int| p <= q < res.len() ==> str_lt(kv[k as int], kv[#[trigger] res@[q] as int]),
            decreases p,
        {
            assert(keys@[k as int]@ == kv[k as int]);
            p = p - 1;
        }
        proof {
            if p > 0 {
                let r = res@[p - 1];
                assert(keys@[r as int]@ == kv[r as int]);
                assert(!str_lt(kv[k as int], kv[r as int]));
                lemma_str_lt_total(kv[k as int], kv[r as int]);
                assert(pair_lt(kv, r, k));
            }
        }
        let ghost before = res@;
        res.insert(p, k);
        proof {
            assert forall|i: int| 0 <= i < res.len() implies (#[trigger] res@[i] as int) < k + 1 by {
                if i < p {
                    assert(res@[i] == before[i]);
                } else if i > p {
                    assert(res@[i] == before[i - 1]);
                }
            }
            assert forall|i: int, j: int| 0 <= i < j < res@.len() implies res@[i] != res@[j] by {
                if i < p && j < p {
                    assert(res@[i] == before[i] && res@[j] == before[j]);
                } else if i > p && j > p {
                    assert(res@[i] == before[i - 1] && res@[j] == before[j - 1]);
                } else if i < p && j > p {
                    assert(res@[i] == before[i] && res@[j] == before[j - 1]);
                } else if i == p {
                    assert(res@[j] == before[j - 1]);
                } else {
                    assert(res@[i] == before[i]);
                }
            }
            assert forall|i: int, j: int| 0 <= i < j < res.len() implies pair_lt(
                kv,
                #[trigger] res@[i],
                #[trigger] res@[j],
            ) by {
                if i < p && j < p {
                    assert(res@[i] == before[i] && res@[j] == before[j]);
                } else if i > p && j > p {
                    assert(res@[i] == before[i - 1] && res@[j] == before[j - 1]);
                } else if i < p && j > p {
                    assert(res@[i] == before[i] && res@[j] == before[j - 1]);
                    let r = before[p - 1];
                    if i < p - 1 {
                        assert(pair_lt(kv, before[i], r));
                        lemma_pair_lt_trans(kv, before[i], r, k);
                    }
                    lemma_pair_lt_trans(kv, before[i], k, before[j - 1]);
                } else if i == p {
                    assert(res@[j] == before[j - 1]);
                    assert(str_lt(kv[k as int], kv[before[j - 1] as int]));
                } else {
                    assert(j == p);
                    assert(res@[i] == before[i]);
                    let r = before[p - 1];
                    if i < p - 1 {
                        assert(pair_lt(kv, before[i], r));
                        lemma_pair_lt_trans(kv, before[i], r, k);
                    }
                }
            }
        }
        k = k + 1;
    }
    res
}

/// `res` orders the indices `0..nums.len()` by decreasing number, equal
/// numbers in index order.
pub open spec fn stably_sorted_desc(nums: Seq<u64>, res: Seq<usize>) -> bool {
    &&& res.len() == nums.len()
    &&& forall|i: int| 0 <= i < res.len() ==> (#[trigger] res[i] as int) < nums.len()
    &&& res.no_duplicates()
    &&& forall|i: int, j: int|
        0 <= i < j < res.len() ==> desc_lt(nums, #[trigger] res[i], #[trigger] res[j])
}

pub open spec fn desc_lt(nums: Seq<u64>, x: usize, y: usize) -> bool {
    nums[x as int] > nums[y as int] || (nums[x as int] == nums[y as int] && x < y)
}

/// A stable sort of the indices `0..nums.len()` by decreasing number.
pub fn sort_indices_desc(nums: &Vec<u64>) -> (res: Vec<usize>)
    ensures
        stably_sorted_desc(nums@, res@),
{
    let mut res: Vec<usize> = Vec::new();
    let mut k: usize = 0;
    while k < nums.len()
        invariant
            k <= nums.len(),
            res.len() == k,
            forall|i: int| 0 <= i < res.len() ==> (#[trigger] res@[i] as int) < k,
            res@.no_duplicates(),
            forall|i: int, j: int| 0 <= i < j < res.len() ==> desc_lt(nums@, #[trigger] res@[i], #[trigger] res@[j]),
        decreases nums.len() - k,
    {
        let mut p = res.len();
        while p > 0 && nums[k] > nums[res[p - 1]]
            invariant
                p <= res.len(),
                k < nums.len(),
                forall|i: int| 0 <= i < res.len() ==> (#[trigger] res@[i] as int) < k,
                forall|q: int| p <= q < res.len() ==> nums@[k as int] > nums@[#[trigger] res@[q] as int],
            decreases p,
        {
            p = p - 1;
        }
        let ghost before = res@;
        res.insert(p, k);
        proof {
            assert forall|i: int| 0 <= i < res.len() implies (#[trigger] res@[i] as int) < k + 1 by {
                if i < p {
                    assert(res@[i] == before[i]);
                } else if i > p {
                    assert(res@[i] == before[i - 1]);
                }
            }
            assert forall|i: int, j: int| 0 <= i < j < res@.len() implies res@[i] != res@[j] by {
                if i < p && j < p {
                    assert(res@[i] == before[i] && res@[j] == before[j]);
                } else if i > p && j > p {
                    assert(res@[i] == before[i - 1] && res@[j] == before[j - 1]);
                } else if i < p && j > p {
                    assert(res@[i] == before[i] && res@[j] == before[j - 1]);
                } else if i == p {
                    assert(res@[j] == before[j - 1]);
                } else {
                    assert(res@[i] == before[i]);
                }
            }
            assert forall|i: int, j: int| 0 <= i < j < res.len() implies desc_lt(
                nums@,
                #[trigger] res@[i],
                #[trigger] res@[j],
            ) by {
                if i < p && j < p {
                    assert(res@[i] == before[i] && res@[j] == before[j]);
                } else if i > p && j > p {
                    assert(res@[i] == before[i - 1] && res@[j] == before[j - 1]);
                } else if i < p && j > p {
                    assert(res@[i] == before[i] && res@[j] == before[j - 1]);
                    let r = before[p - 1];
                    if i < p - 1 {
                        assert(desc_lt(nums@, before[i], r));
                    }
                } else if i == p {
                    assert(res@[j] == before[j - 1]);
                } else {
                    assert(res@[i] == before[i]);
                    let r = before[p - 1];
                    if i < p - 1 {
                        assert(desc_lt(nums@, before[i], r));
                    }
                }
            }
        }
        k = k + 1;
    }
    res
}

} // verus!
