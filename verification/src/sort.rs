//! Stable sorting by a key, as `slice::sort_by` does it: elements with equal
//! keys keep their order.
use vstd::prelude::*;

verus! {

/// The order of text keys that `str`'s `Ord` uses: code points compared
/// from the left, a proper prefix first.
pub open spec fn text_lt(a: Seq<char>, b: Seq<char>) -> bool
    decreases a.len(),
{
    if b.len() == 0 {
        false
    } else if a.len() == 0 {
        true
    } else if a[0] != b[0] {
        (a[0] as int) < (b[0] as int)
    } else {
        text_lt(a.drop_first(), b.drop_first())
    }
}

/// Whether `p` lists every position of `keys` once, ordered by key and,
/// among equal keys, by position: the order of a stable sort.
pub open spec fn stable_order<K>(keys: Seq<K>, p: Seq<int>, lt: spec_fn(K, K) -> bool) -> bool {
    &&& p.len() == keys.len()
    &&& forall|j: int| 0 <= j < p.len() ==> 0 <= #[trigger] p[j] < keys.len()
    &&& forall|a: int, b: int|
        #![trigger p[a], p[b]]
        0 <= a < b < p.len() ==> lt(keys[p[a]], keys[p[b]]) || (keys[p[a]] == keys[p[b]] && p[a] < p[b])
}

/// `v` reordered by `p`.
pub open spec fn reorder<T>(v: Seq<T>, p: Seq<int>) -> Seq<T> {
    p.map_values(|k: int| v[k])
}

/// The numeric order.
pub open spec fn num_lt(a: u64, b: u64) -> bool {
    a < b
}

/// Whether `a` comes before `b` in the text order.
pub fn text_less(a: &Vec<char>, b: &Vec<char>) -> (r: bool)
    ensures
        r == text_lt(a@, b@),
{
    let mut i: usize = 0;
    assert(a@.skip(0) =~= a@);
    assert(b@.skip(0) =~= b@);
    while i < a.len() && i < b.len()
        invariant
            0 <= i <= a.len(),
            i <= b.len(),
            forall|j: int| 0 <= j < i ==> a@[j] == b@[j],
            text_lt(a@, b@) == text_lt(a@.skip(i as int), b@.skip(i as int)),
        decreases a.len() - i,
    {
        assert(a@.skip(i as int).drop_first() =~= a@.skip(i + 1));
        assert(b@.skip(i as int).drop_first() =~= b@.skip(i + 1));
        if a[i] != b[i] {
            return a[i] < b[i];
        }
        i += 1;
    }
    i < b.len()
}

/// Whether two text keys are the same.
pub fn text_eq(a: &Vec<char>, b: &Vec<char>) -> (r: bool)
    ensures
        r == (a@ == b@),
{
    if a.len() != b.len() {
        return false;
    }
    let mut i: usize = 0;
    while i < a.len()
        invariant
            a.len() == b.len(),
            0 <= i <= a.len(),
            forall|j: int| 0 <= j < i ==> a@[j] == b@[j],
        decreases a.len() - i,
    {
        if a[i] != b[i] {
            return false;
        }
        i += 1;
    }
    assert(a@ =~= b@);
    true
}

/// No key comes before itself.
pub proof fn lemma_text_lt_irrefl(a: Seq<char>)
    ensures
        !text_lt(a, a),
    decreases a.len(),
{
    if a.len() > 0 {
        lemma_text_lt_irrefl(a.drop_first());
    }
}

/// The text order is transitive.
pub proof fn lemma_text_lt_trans(a: Seq<char>, b: Seq<char>, c: Seq<char>)
    requires
        text_lt(a, b),
        text_lt(b, c),
    ensures
        text_lt(a, c),
    decreases a.len(),
{
    if a.len() > 0 && b.len() > 0 && c.len() > 0 && a[0] == b[0] && b[0] == c[0] {
        lemma_text_lt_trans(a.drop_first(), b.drop_first(), c.drop_first());
    }
}

/// Whether two different keys are ordered one way or the other.
pub proof fn lemma_text_lt_total(a: Seq<char>, b: Seq<char>)
    ensures
        a == b || text_lt(a, b) || text_lt(b, a),
    decreases a.len(),
{
    if a.len() > 0 && b.len() > 0 && a[0] == b[0] {
        lemma_text_lt_total(a.drop_first(), b.drop_first());
        if a.drop_first() == b.drop_first() {
            assert(a =~= seq![a[0]] + a.drop_first());
            assert(b =~= seq![b[0]] + b.drop_first());
            assert(a =~= b);
        }
    } else if a.len() > 0 && b.len() > 0 {
        assert((a[0] as int) != (b[0] as int));
    } else if a.len() == 0 && b.len() == 0 {
        assert(a =~= b);
    }
}

/// Sorts `v` by the numeric keys `keys` (one per element), keeping the
/// order of elements with equal keys.
pub fn sort_by_number<T>(v: Vec<T>, keys: &Vec<u64>) -> (r: Vec<T>)
    requires
        keys.len() == v.len(),
    ensures
        exists|p: Seq<int>| stable_order(keys@, p, |a: u64, b: u64| num_lt(a, b)) && r@ == reorder(v@, p),
{
    let ghost lt = |a: u64, b: u64| num_lt(a, b);
    let ghost orig = v@;
    let n = v.len();
    let mut src = v;
    let mut out: Vec<T> = Vec::new();
    let mut out_keys: Vec<u64> = Vec::new();
    let ghost mut p: Seq<int> = seq![];
    let mut i: usize = 0;
    while i < n
        invariant
            n == orig.len(),
            keys@.len() == n,
            0 <= i <= n,
            src@ == orig.skip(i as int),
            out@.len() == i,
            out_keys@.len() == i,
            p.len() == i,
            forall|j: int| 0 <= j < i ==> 0 <= #[trigger] p[j] < i,
            forall|j: int| 0 <= j < i ==> out@[j] == orig[#[trigger] p[j]],
            forall|j: int| 0 <= j < i ==> out_keys@[j] == keys@[#[trigger] p[j]],
            forall|a: int, b: int|
                #![trigger p[a], p[b]]
                0 <= a < b < i ==> keys@[p[a]] < keys@[p[b]] || (keys@[p[a]] == keys@[p[b]] && p[a] < p[b]),
        decreases n - i,
    {
        let x = src.remove(0);
        assert(x == orig[i as int]);
        assert(src@ =~= orig.skip(i + 1));
        let k = keys[i];
        let mut pos: usize = 0;
        while pos < out_keys.len() && out_keys[pos] <= k
            invariant
                0 <= pos <= out_keys@.len(),
                forall|j: int| 0 <= j < pos ==> out_keys@[j] <= k,
            decreases out_keys.len() - pos,
        {
            pos += 1;
        }
        proof {
            assert forall|j: int| pos <= j < i implies out_keys@[j] > k by {
                if pos < i {
                    assert(out_keys@[pos as int] > k);
                    if j > pos {
                        assert(keys@[p[pos as int]] <= keys@[p[j]]);
                    }
                }
            }
        }
        let ghost old_p = p;
        let ghost old_out = out@;
        let ghost old_keys = out_keys@;
        out.insert(pos, x);
        out_keys.insert(pos, k);
        proof {
            p = old_p.insert(pos as int, i as int);
            assert forall|j: int| 0 <= j < i + 1 implies out@[j] == orig[#[trigger] p[j]] by {
                if j < pos {
                    assert(out@[j] == old_out[j]);
                } else if j > pos {
                    assert(out@[j] == old_out[j - 1]);
                }
            }
            assert forall|j: int| 0 <= j < i + 1 implies out_keys@[j] == keys@[#[trigger] p[j]] by {
                if j < pos {
                    assert(out_keys@[j] == old_keys[j]);
                } else if j > pos {
                    assert(out_keys@[j] == old_keys[j - 1]);
                }
            }
            assert forall|a: int, b: int|
                #![trigger p[a], p[b]]
                0 <= a < b < i + 1 implies keys@[p[a]] < keys@[p[b]] || (keys@[p[a]] == keys@[p[b]] && p[a] < p[b]) by {
                if b < pos {
                    assert(p[a] == old_p[a] && p[b] == old_p[b]);
                } else if b == pos {
                    assert(p[a] == old_p[a]);
                    assert(old_keys[a] <= k);
                    assert(old_keys[a] == keys@[old_p[a]]);
                } else if a < pos {
                    assert(p[a] == old_p[a] && p[b] == old_p[b - 1]);
                    if a < b - 1 {
                        assert(old_p[a] == p[a]);
                    }
                } else if a == pos {
                    assert(p[b] == old_p[b - 1]);
                    assert(old_keys[b - 1] > k);
                    assert(old_keys[b - 1] == keys@[old_p[b - 1]]);
                } else {
                    assert(p[a] == old_p[a - 1] && p[b] == old_p[b - 1]);
                }
            }
        }
        i += 1;
    }
    proof {
        assert(stable_order(keys@, p, lt));
        assert(out@ =~= reorder(orig, p));
    }
    out
}

/// Sorts `v` by the text keys `keys` (one per element), keeping the order
/// of elements with equal keys.
pub fn sort_by_text<T>(v: Vec<T>, keys: &Vec<Vec<char>>) -> (r: Vec<T>)
    requires
        keys.len() == v.len(),
    ensures
        exists|p: Seq<int>|
            stable_order(keys@.map_values(|k: Vec<char>| k@), p, |a: Seq<char>, b: Seq<char>| text_lt(a, b))
                && r@ == reorder(v@, p),
{
    let ghost lt = |a: Seq<char>, b: Seq<char>| text_lt(a, b);
    let ghost kv = keys@.map_values(|k: Vec<char>| k@);
    let ghost orig = v@;
    let n = v.len();
    let mut src = v;
    let mut out: Vec<T> = Vec::new();
    let mut out_keys: Vec<Vec<char>> = Vec::new();
    let ghost mut p: Seq<int> = seq![];
    let mut i: usize = 0;
    while i < n
        invariant
            n == orig.len(),
            keys@.len() == n,
            kv == keys@.map_values(|k: Vec<char>| k@),
            0 <= i <= n,
            src@ == orig.skip(i as int),
            out@.len() == i,
            out_keys@.len() == i,
            p.len() == i,
            forall|j: int| 0 <= j < i ==> 0 <= #[trigger] p[j] < i,
            forall|j: int| 0 <= j < i ==> out@[j] == orig[#[trigger] p[j]],
            forall|j: int| 0 <= j < i ==> out_keys@[j]@ == kv[#[trigger] p[j]],
            forall|a: int, b: int|
                #![trigger p[a], p[b]]
                0 <= a < b < i ==> text_lt(kv[p[a]], kv[p[b]]) || (kv[p[a]] == kv[p[b]] && p[a] < p[b]),
        decreases n - i,
    {
        let x = src.remove(0);
        assert(x == orig[i as int]);
        assert(src@ =~= orig.skip(i + 1));
        let k = keys[i].clone();
        assert(k@ == kv[i as int]);
        let mut pos: usize = 0;
        while pos < out_keys.len() && !text_less(&k, &out_keys[pos])
            invariant
                0 <= pos <= out_keys@.len(),
                forall|j: int| 0 <= j < pos ==> !text_lt(k@, #[trigger] out_keys@[j]@),
            decreases out_keys.len() - pos,
        {
            pos += 1;
        }
        proof {
            assert forall|j: int| pos <= j < i implies text_lt(k@, #[trigger] out_keys@[j]@) by {
                assert(text_lt(k@, out_keys@[pos as int]@));
                if j > pos {
                    let a = kv[p[pos as int]];
                    let b = kv[p[j]];
                    assert(text_lt(a, b) || a == b);
                    if text_lt(a, b) {
                        lemma_text_lt_trans(k@, a, b);
                    }
                }
            }
        }
        let ghost old_p = p;
        let ghost old_out = out@;
        let ghost old_keys = out_keys@;
        out.insert(pos, x);
        out_keys.insert(pos, k);
        proof {
            p = old_p.insert(pos as int, i as int);
            assert forall|j: int| 0 <= j < i + 1 implies out@[j] == orig[#[trigger] p[j]] by {
                if j < pos {
                    assert(out@[j] == old_out[j]);
                } else if j > pos {
                    assert(out@[j] == old_out[j - 1]);
                }
            }
            assert forall|j: int| 0 <= j < i + 1 implies out_keys@[j]@ == kv[#[trigger] p[j]] by {
                if j < pos {
                    assert(out_keys@[j] == old_keys[j]);
                } else if j > pos {
                    assert(out_keys@[j] == old_keys[j - 1]);
                }
            }
            assert forall|a: int, b: int|
                #![trigger p[a], p[b]]
                0 <= a < b < i + 1 implies text_lt(kv[p[a]], kv[p[b]]) || (kv[p[a]] == kv[p[b]] && p[a] < p[b]) by {
                if b < pos {
                    assert(p[a] == old_p[a] && p[b] == old_p[b]);
                } else if b == pos {
                    assert(p[a] == old_p[a]);
                    assert(!text_lt(k@, old_keys[a]@));
                    assert(old_keys[a]@ == kv[old_p[a]]);
                    lemma_text_lt_total(k@, old_keys[a]@);
                } else if a < pos {
                    assert(p[a] == old_p[a] && p[b] == old_p[b - 1]);
                    if a < b - 1 {
                        assert(old_p[a] == p[a]);
                    }
                } else if a == pos {
                    assert(p[b] == old_p[b - 1]);
                    assert(text_lt(k@, old_keys[b - 1]@));
                    assert(old_keys[b - 1]@ == kv[old_p[b - 1]]);
                } else {
                    assert(p[a] == old_p[a - 1] && p[b] == old_p[b - 1]);
                }
            }
        }
        i += 1;
    }
    proof {
        assert(stable_order(kv, p, lt));
        assert(out@ =~= reorder(orig, p));
    }
    out
}

/// The elements of `v` in reverse order.
pub fn reversed<T>(v: Vec<T>) -> (r: Vec<T>)
    ensures
        r@ == v@.reverse(),
{
    let ghost orig = v@;
    let mut src = v;
    let mut out: Vec<T> = Vec::new();
    while src.len() > 0
        invariant
            src@.len() + out@.len() == orig.len(),
            src@ == orig.take(src@.len() as int),
            out@ == orig.skip(src@.len() as int).reverse(),
        decreases src.len(),
    {
        let ghost n = src@.len();
        let x = src.pop().unwrap();
        out.push(x);
        assert(src@ =~= orig.take(n - 1));
        assert(out@ =~= orig.skip(n - 1).reverse());
    }
    assert(orig.skip(0) =~= orig);
    out
}

} // verus!
