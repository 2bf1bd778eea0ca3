//! Sorted LP lists: ascending order with or without repeats.
use vstd::prelude::*;

verus! {

/// Each element is smaller than the next.
pub open spec fn strictly_increasing(s: Seq<u32>) -> bool {
    forall|i: int, j: int| 0 <= i < j < s.len() ==> s[i] < s[j]
}

/// Each element is at most the next.
pub open spec fn nondecreasing(s: Seq<u32>) -> bool {
    forall|i: int, j: int| 0 <= i <= j < s.len() ==> s[i] <= s[j]
}

/// Inserts `x` into an ascending repeat-free list (no-op when present).
pub fn insert_sorted_unique(v: &mut Vec<u32>, x: u32)
    requires
        strictly_increasing(old(v)@),
    ensures
        strictly_increasing(final(v)@),
        final(v)@.to_set() == old(v)@.to_set().insert(x),
{
    let mut i: usize = 0;
    while i < v.len() && v[i] < x
        invariant
            0 <= i <= v@.len(),
            v@ == old(v)@,
            forall|k: int| 0 <= k < i ==> v@[k] < x,
        decreases v@.len() - i,
    {
        i = i + 1;
    }
    if i < v.len() && v[i] == x {
        assert(v@.to_set() =~= old(v)@.to_set().insert(x)) by {
            assert(v@.contains(x));
        }
        return;
    }
    let ghost before = v@;
    v.insert(i, x);
    proof {
        assert(v@ =~= before.insert(i as int, x));
        before.insert_ensures(i as int, x);
        assert forall|a: int, b: int| 0 <= a < b < v@.len() implies v@[a] < v@[b] by {
            if b < i {
            } else if b == i {
            } else if a < i {
                assert(v@[b] == before[b - 1]);
                assert(before[b - 1] >= x);
            } else if a == i {
                assert(v@[b] == before[b - 1]);
            } else {
                assert(v@[a] == before[a - 1]);
                assert(v@[b] == before[b - 1]);
            }
        }
        assert forall|e: u32| v@.to_set().contains(e) <==> before.to_set().insert(x).contains(e) by {
            if v@.contains(e) {
                let k = choose|k: int| 0 <= k < v@.len() && v@[k] == e;
                if k < i {
                    assert(before[k] == e);
                } else if k > i {
                    assert(before[k - 1] == e);
                }
            }
            if before.contains(e) {
                let k = choose|k: int| 0 <= k < before.len() && before[k] == e;
                if k < i {
                    assert(v@[k] == e);
                } else {
                    assert(v@[k + 1] == e);
                }
            }
            if e == x {
                assert(v@[i as int] == x);
            }
        }
        assert(v@.to_set() =~= before.to_set().insert(x));
    }
}

/// Inserts `x` into an ascending list, keeping repeats.
fn insert_sorted(v: &mut Vec<u32>, x: u32)
    requires
        nondecreasing(old(v)@),
    ensures
        nondecreasing(final(v)@),
        final(v)@.to_multiset() == old(v)@.to_multiset().insert(x),
{
    let mut i: usize = 0;
    while i < v.len() && v[i] < x
        invariant
            0 <= i <= v@.len(),
            v@ == old(v)@,
            forall|k: int| 0 <= k < i ==> v@[k] < x,
        decreases v@.len() - i,
    {
        i = i + 1;
    }
    let ghost before = v@;
    v.insert(i, x);
    proof {
        assert(v@ =~= before.insert(i as int, x));
        before.insert_ensures(i as int, x);
        assert forall|a: int, b: int| 0 <= a <= b < v@.len() implies v@[a] <= v@[b] by {
            if b < i {
            } else if b == i {
            } else if a < i {
                assert(v@[b] == before[b - 1]);
                assert(before[b - 1] >= x);
            } else if a == i {
                assert(v@[b] == before[b - 1]);
            } else {
                assert(v@[a] == before[a - 1]);
                assert(v@[b] == before[b - 1]);
            }
        }
        let after = v@;
        assert(after.remove(i as int) =~= before);
        after.to_multiset_ensures();
        assert(after.to_multiset().remove(x) == before.to_multiset());
        assert(after.contains(x));
        assert(after.to_multiset().count(x) > 0);
        assert(after.to_multiset() =~= before.to_multiset().insert(x));
    }
}

/// Ascending copy of a list (repeats kept).
pub fn sorted_copy(src: &Vec<u32>) -> (r: Vec<u32>)
    ensures
        nondecreasing(r@),
        r@.to_multiset() == src@.to_multiset(),
{
    let mut out: Vec<u32> = Vec::new();
    let mut i: usize = 0;
    assert(src@.take(0) =~= Seq::<u32>::empty());
    proof {
        Seq::<u32>::empty().to_multiset_ensures();
        assert(out@.to_multiset().len() == 0);
        assert(out@.to_multiset() =~= Seq::<u32>::empty().to_multiset());
    }
    while i < src.len()
        invariant
            0 <= i <= src@.len(),
            nondecreasing(out@),
            out@.to_multiset() == src@.take(i as int).to_multiset(),
        decreases src@.len() - i,
    {
        insert_sorted(&mut out, src[i]);
        proof {
            let t = src@.take(i as int);
            t.to_multiset_ensures();
            assert(src@.take(i as int + 1) =~= t.push(src@[i as int]));
        }
        i = i + 1;
    }
    assert(src@.take(src@.len() as int) =~= src@);
    out
}

} // verus!
