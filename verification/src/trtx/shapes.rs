//! Counts, masks and permutations of axes.

use crate::trtx::session::{Halt, HaltOf, HaltView, Run};
use vstd::prelude::*;

verus! {

/// The product of dimensions, each read as `usize`, where it and every product along the way fit
/// in `usize`.
pub open spec fn extent_product(dims: Seq<i64>) -> Option<nat>
    decreases dims.len(),
{
    if dims.len() == 0 {
        Some(1)
    } else {
        match extent_product(dims.drop_last()) {
            Some(n) => if n * (dims.last() as usize) <= usize::MAX {
                Some((n * (dims.last() as usize)) as nat)
            } else {
                None
            },
            None => None,
        }
    }
}

/// The number of elements of a tensor with the dimensions `dims`. Where it overflows, the
/// conversation stops.
pub open spec fn elements(n: Run, dims: Seq<i64>) -> (Run, nat) {
    match extent_product(dims) {
        Some(count) => (n, count),
        None => (n.stop(HaltOf::OutOfRange), 0),
    }
}

/// Once a product has overflowed, it stays so.
proof fn extent_overflow_stays(dims: Seq<i64>, i: int)
    requires
        0 <= i <= dims.len(),
        extent_product(dims.take(i)) is None,
    ensures
        extent_product(dims) is None,
    decreases dims.len() - i,
{
    if i == dims.len() {
        assert(dims.take(i) =~= dims);
    } else {
        assert(dims.take(i + 1).drop_last() =~= dims.take(i));
        extent_overflow_stays(dims, i + 1);
    }
}

/// The number of elements of a tensor with the dimensions `dims`.
pub fn elements_of(dims: &Vec<i64>) -> (r: Result<usize, Halt>)
    ensures
        match r {
            Ok(count) => extent_product(dims@) == Some(count as nat),
            Err(h) => extent_product(dims@) is None && h@ == HaltView::OutOfRange,
        },
{
    let mut count: usize = 1;
    let mut i: usize = 0;
    while i < dims.len()
        invariant
            i <= dims.len(),
            extent_product(dims@.take(i as int)) == Some(count as nat),
        decreases dims.len() - i,
    {
        proof {
            assert(dims@.take(i + 1).drop_last() =~= dims@.take(i as int));
        }
        match count.checked_mul(dims[i] as usize) {
            Some(next) => {
                count = next;
            },
            None => {
                proof {
                    extent_overflow_stays(dims@, i + 1);
                }
                return Err(HaltOf::OutOfRange);
            },
        }
        i = i + 1;
    }
    proof {
        assert(dims@.take(dims@.len() as int) =~= dims@);
    }
    Ok(count)
}

/// The product of dimensions, where it and every product along the way fit in `i64`.
pub open spec fn signed_product(dims: Seq<i64>) -> Option<int>
    decreases dims.len(),
{
    if dims.len() == 0 {
        Some(1)
    } else {
        match signed_product(dims.drop_last()) {
            Some(p) => if i64::MIN <= p * dims.last() <= i64::MAX {
                Some(p * dims.last())
            } else {
                None
            },
            None => None,
        }
    }
}

proof fn signed_overflow_stays(dims: Seq<i64>, i: int)
    requires
        0 <= i <= dims.len(),
        signed_product(dims.take(i)) is None,
    ensures
        signed_product(dims) is None,
    decreases dims.len() - i,
{
    if i == dims.len() {
        assert(dims.take(i) =~= dims);
    } else {
        assert(dims.take(i + 1).drop_last() =~= dims.take(i));
        signed_overflow_stays(dims, i + 1);
    }
}

/// The product of dimensions.
pub fn signed_product_of(dims: &Vec<i64>) -> (r: Result<i64, Halt>)
    ensures
        match r {
            Ok(p) => signed_product(dims@) == Some(p as int),
            Err(h) => signed_product(dims@) is None && h@ == HaltView::OutOfRange,
        },
{
    let mut p: i64 = 1;
    let mut i: usize = 0;
    while i < dims.len()
        invariant
            i <= dims.len(),
            signed_product(dims@.take(i as int)) == Some(p as int),
        decreases dims.len() - i,
    {
        proof {
            assert(dims@.take(i + 1).drop_last() =~= dims@.take(i as int));
        }
        match p.checked_mul(dims[i]) {
            Some(next) => {
                p = next;
            },
            None => {
                proof {
                    signed_overflow_stays(dims@, i + 1);
                }
                return Err(HaltOf::OutOfRange);
            },
        }
        i = i + 1;
    }
    proof {
        assert(dims@.take(dims@.len() as int) =~= dims@);
    }
    Ok(p)
}

/// The mask with the bits of the axes set. An axis past 31 has no bit.
pub open spec fn axes_mask(axes: Seq<u32>) -> Option<u32>
    decreases axes.len(),
{
    if axes.len() == 0 {
        Some(0)
    } else {
        match axes_mask(axes.drop_last()) {
            Some(mask) => if axes.last() < 32 {
                Some(mask | (1u32 << axes.last()))
            } else {
                None
            },
            None => None,
        }
    }
}

/// The mask of the axes. Where an axis has no bit, the conversation stops.
pub open spec fn mask(n: Run, axes: Seq<u32>) -> (Run, u32) {
    match axes_mask(axes) {
        Some(bits) => (n, bits),
        None => (n.stop(HaltOf::OutOfRange), 0),
    }
}

proof fn no_mask_stays(axes: Seq<u32>, i: int)
    requires
        0 <= i <= axes.len(),
        axes_mask(axes.take(i)) is None,
    ensures
        axes_mask(axes) is None,
    decreases axes.len() - i,
{
    if i == axes.len() {
        assert(axes.take(i) =~= axes);
    } else {
        assert(axes.take(i + 1).drop_last() =~= axes.take(i));
        no_mask_stays(axes, i + 1);
    }
}

/// A bit of a mask is set if and only if its axis is in the list.
pub proof fn mask_holds_axes(axes: Seq<u32>, bit: u32)
    requires
        axes_mask(axes) is Some,
        bit < 32,
    ensures
        (axes_mask(axes)->0 >> bit) & 1 == 1 <==> axes.contains(bit),
    decreases axes.len(),
{
    if axes.len() == 0 {
        assert((0u32 >> bit) & 1 == 0) by (bit_vector);
    } else {
        let before = axes.drop_last();
        let last = axes.last();
        let bits = axes_mask(before)->0;
        mask_holds_axes(before, bit);
        assert(((bits | (1u32 << last)) >> bit) & 1 == 1 <==> ((bits >> bit) & 1 == 1 || bit
            == last)) by (bit_vector)
            requires
                bit < 32,
                last < 32,
        ;
        if axes.contains(bit) {
            let k = choose|k: int| 0 <= k < axes.len() && axes[k] == bit;
            if k < before.len() {
                assert(before[k] == bit);
            }
        }
        if before.contains(bit) {
            let k = choose|k: int| 0 <= k < before.len() && before[k] == bit;
            assert(axes[k] == bit);
        }
        if bit == last {
            assert(axes[axes.len() - 1] == bit);
        }
    }
}

/// The mask of the axes.
pub fn mask_of(axes: &Vec<u32>) -> (r: Result<u32, Halt>)
    ensures
        match r {
            Ok(bits) => axes_mask(axes@) == Some(bits),
            Err(h) => axes_mask(axes@) is None && h@ == HaltView::OutOfRange,
        },
{
    let mut bits: u32 = 0;
    let mut i: usize = 0;
    while i < axes.len()
        invariant
            i <= axes.len(),
            axes_mask(axes@.take(i as int)) == Some(bits),
        decreases axes.len() - i,
    {
        proof {
            assert(axes@.take(i + 1).drop_last() =~= axes@.take(i as int));
        }
        if axes[i] >= 32 {
            proof {
                no_mask_stays(axes@, i + 1);
            }
            return Err(HaltOf::OutOfRange);
        }
        bits = bits | (1u32 << axes[i]);
        i = i + 1;
    }
    proof {
        assert(axes@.take(axes@.len() as int) =~= axes@);
    }
    Ok(bits)
}

/// The axes from `from` up to `to`, in order.
pub open spec fn axis_range(from: nat, to: nat) -> Seq<u32> {
    Seq::new(
        if from < to {
            (to - from) as nat
        } else {
            0
        },
        |i: int| (from + i) as u32,
    )
}

/// The axes from `from` up to `to`, in order.
pub fn axis_range_vec(from: usize, to: usize) -> (v: Vec<u32>)
    ensures
        v@ == axis_range(from as nat, to as nat),
{
    let mut v: Vec<u32> = Vec::new();
    let mut i: usize = from;
    while i < to
        invariant
            from <= i,
            from <= to ==> i <= to,
            from > to ==> i == from,
            v@.len() == i - from,
            forall|k: int| 0 <= k < v@.len() ==> #[trigger] v@[k] == (from + k) as u32,
        decreases to - i,
    {
        v.push(i as u32);
        i = i + 1;
    }
    assert(v@ =~= axis_range(from as nat, to as nat));
    v
}

/// The order of `rank` axes in which `i` and `j` have changed places.
pub open spec fn swapped_axes(rank: nat, i: int, j: int) -> Seq<i32> {
    Seq::new(
        rank,
        |k: int|
            if k == i {
                j as i32
            } else if k == j {
                i as i32
            } else {
                k as i32
            },
    )
}

/// The order of `rank` axes in which `i` and `j` have changed places.
pub fn swapped_axes_vec(rank: usize, i: usize, j: usize) -> (v: Vec<i32>)
    ensures
        v@ == swapped_axes(rank as nat, i as int, j as int),
{
    let mut v: Vec<i32> = Vec::with_capacity(rank);
    let mut k: usize = 0;
    while k < rank
        invariant
            k <= rank,
            v@.len() == k,
            forall|x: int|
                0 <= x < k ==> #[trigger] v@[x] == swapped_axes(
                    rank as nat,
                    i as int,
                    j as int,
                )[x],
        decreases rank - k,
    {
        if k == i {
            v.push(j as i32);
        } else if k == j {
            v.push(i as i32);
        } else {
            v.push(k as i32);
        }
        k = k + 1;
    }
    assert(v@ =~= swapped_axes(rank as nat, i as int, j as int));
    v
}

/// Changing the places of two axes twice is no change: the order is its own inverse.
pub proof fn swap_is_self_inverse(rank: nat, i: int, j: int, k: int)
    requires
        0 <= i < rank,
        0 <= j < rank,
        0 <= k < rank,
        rank <= i32::MAX,
    ensures
        0 <= swapped_axes(rank, i, j)[k] < rank,
        swapped_axes(rank, i, j)[swapped_axes(rank, i, j)[k] as int] == k,
{
}

/// Where `x` is first found in `s`, from `from` on.
pub open spec fn first_position(s: Seq<u32>, x: u32, from: nat) -> Option<nat>
    decreases s.len() - from,
{
    if from >= s.len() {
        None
    } else if s[from as int] == x {
        Some(from)
    } else {
        first_position(s, x, from + 1)
    }
}

/// Where `x` is first found in `s`.
pub fn position_of(s: &Vec<u32>, x: u32) -> (r: Option<usize>)
    ensures
        match r {
            Some(i) => first_position(s@, x, 0) == Some(i as nat) && i < s@.len(),
            None => first_position(s@, x, 0) is None,
        },
{
    let mut i: usize = 0;
    while i < s.len()
        invariant
            i <= s.len(),
            first_position(s@, x, 0) == first_position(s@, x, i as nat),
        decreases s.len() - i,
    {
        if s[i] == x {
            return Some(i);
        }
        i = i + 1;
    }
    None
}

/// What is found in a list is in it.
pub proof fn position_holds(s: Seq<u32>, x: u32, from: nat)
    ensures
        first_position(s, x, from) is Some ==> s.contains(x),
    decreases s.len() - from,
{
    if from < s.len() && s[from as int] != x {
        position_holds(s, x, from + 1);
    }
}

/// What is in a list is found in it.
pub proof fn found_where_contained(s: Seq<u32>, x: u32, from: nat, k: int)
    requires
        from <= k < s.len(),
        s[k] == x,
    ensures
        first_position(s, x, from) is Some,
        from <= first_position(s, x, from)->0 <= k,
        s[first_position(s, x, from)->0 as int] == x,
    decreases k - from,
{
    if s[from as int] != x {
        found_where_contained(s, x, from + 1, k);
    }
}

/// `x` put into the ascending list `s`, behind its equals.
pub open spec fn inserted(s: Seq<u32>, x: u32) -> Seq<u32>
    decreases s.len(),
{
    if s.len() == 0 || s.last() <= x {
        s.push(x)
    } else {
        inserted(s.drop_last(), x).push(s.last())
    }
}

/// The numbers of `s` in ascending order.
pub open spec fn ascending(s: Seq<u32>) -> Seq<u32>
    decreases s.len(),
{
    if s.len() == 0 {
        s
    } else {
        inserted(ascending(s.drop_last()), s.last())
    }
}

/// Putting a number into an ascending list keeps it ascending and adds just that number.
proof fn inserted_keeps_order(s: Seq<u32>, x: u32)
    requires
        forall|i: int, j: int| 0 <= i <= j < s.len() ==> s[i] <= s[j],
    ensures
        forall|i: int, j: int|
            0 <= i <= j < inserted(s, x).len() ==> inserted(s, x)[i] <= inserted(s, x)[j],
        inserted(s, x).len() == s.len() + 1,
        inserted(s, x).to_multiset() == s.to_multiset().insert(x),
        s.len() > 0 ==> inserted(s, x).last() == (if s.last() <= x {
            x
        } else {
            s.last()
        }),
    decreases s.len(),
{
    broadcast use vstd::seq_lib::group_to_multiset_ensures;

    if s.len() == 0 || s.last() <= x {
    } else {
        inserted_keeps_order(s.drop_last(), x);
        let front = inserted(s.drop_last(), x);
        assert(s.drop_last().push(s.last()) =~= s);
        assert(s.to_multiset() =~= s.drop_last().to_multiset().insert(s.last()));
        assert(front.push(s.last()).to_multiset() =~= front.to_multiset().insert(s.last()));
        assert forall|i: int, j: int| 0 <= i <= j < inserted(s, x).len() implies inserted(s, x)[i]
            <= inserted(s, x)[j] by {
            if j == front.len() && i < j {
                assert(front[i] <= front[front.len() - 1]);
            }
        }
    }
}

/// The ascending order of a list is ascending and holds the same numbers.
pub proof fn ascending_is_sorted(s: Seq<u32>)
    ensures
        forall|i: int, j: int| 0 <= i <= j < s.len() ==> ascending(s)[i] <= ascending(s)[j],
        ascending(s).len() == s.len(),
        ascending(s).to_multiset() == s.to_multiset(),
    decreases s.len(),
{
    broadcast use vstd::seq_lib::group_to_multiset_ensures;

    if s.len() > 0 {
        ascending_is_sorted(s.drop_last());
        inserted_keeps_order(ascending(s.drop_last()), s.last());
        assert(s.drop_last().push(s.last()) =~= s);
    }
}

fn insert_ascending(v: &mut Vec<u32>, x: u32)
    ensures
        final(v)@ == inserted(old(v)@, x),
    decreases old(v)@.len(),
{
    match v.pop() {
        None => {
            v.push(x);
        },
        Some(last) => {
            proof {
                assert(old(v)@.drop_last().push(last) =~= old(v)@);
            }
            if last <= x {
                v.push(last);
                v.push(x);
            } else {
                insert_ascending(v, x);
                v.push(last);
            }
        },
    }
}

/// The numbers of `s` in ascending order.
pub fn ascending_vec(s: &Vec<u32>) -> (v: Vec<u32>)
    ensures
        v@ == ascending(s@),
{
    let mut v: Vec<u32> = Vec::new();
    let mut i: usize = 0;
    while i < s.len()
        invariant
            i <= s.len(),
            v@ == ascending(s@.take(i as int)),
        decreases s.len() - i,
    {
        proof {
            assert(s@.take(i + 1).drop_last() =~= s@.take(i as int));
        }
        insert_ascending(&mut v, s[i]);
        i = i + 1;
    }
    proof {
        assert(s@.take(s@.len() as int) =~= s@);
    }
    v
}

/// An axis moved into `0..rank`: a negative one counts from the end.
pub open spec fn moved_axis(axis: int, rank: nat) -> int {
    let from_start = if axis < 0 {
        axis + rank
    } else {
        axis
    };
    let at_least = if from_start < 0 {
        0
    } else {
        from_start
    };
    let top = if rank == 0 {
        0
    } else {
        rank - 1
    };
    if at_least > top {
        top
    } else {
        at_least
    }
}

/// An axis moved into `0..rank`.
pub fn moved_axis_of(axis: i64, rank: usize) -> (a: usize)
    ensures
        a == moved_axis(axis as int, rank as nat),
{
    let from_start: i128 = if axis < 0 {
        axis as i128 + rank as i128
    } else {
        axis as i128
    };
    let top: usize = if rank == 0 {
        0
    } else {
        rank - 1
    };
    if from_start < 0 {
        0
    } else if from_start > top as i128 {
        top
    } else {
        from_start as usize
    }
}

/// A list with one entry replaced.
pub fn with_entry(v: &Vec<i64>, at: usize, value: i64) -> (r: Vec<i64>)
    requires
        at < v@.len(),
    ensures
        r@ == v@.update(at as int, value),
{
    let mut r: Vec<i64> = Vec::with_capacity(v.len());
    let mut i: usize = 0;
    while i < v.len()
        invariant
            i <= v.len(),
            at < v@.len(),
            r@.len() == i,
            forall|k: int| 0 <= k < i ==> #[trigger] r@[k] == v@.update(at as int, value)[k],
        decreases v.len() - i,
    {
        if i == at {
            r.push(value);
        } else {
            r.push(v[i]);
        }
        i = i + 1;
    }
    assert(r@ =~= v@.update(at as int, value));
    r
}

} // verus!
