//! The kernel layer: pure computations on already-validated views.
//!
//! Kernels know nothing of the host runtime. They read `NativeView`s
//! and produce `NativeOwned` arrays; element values are raw 64-bit
//! float64 encodings, compared under the total order of `order`.

use vstd::prelude::*;

use crate::host::{shape_count, NativeOwned, NativeView};
use crate::order::{
    is_nan_bits, le_bits, lemma_key_max_only_nan, lt_bits, order_key, total_le, total_lt,
};

verus! {

/// The bit encoding of the double-precision value one.
pub const ONE_BITS: u64 = 0x3FF0_0000_0000_0000;

/// The bit encoding of the double-precision value zero.
pub const ZERO_BITS: u64 = 0;

/// The position of row `i`, column `j` in the row-major storage of a
/// matrix with `cols` columns.
pub open spec fn flat_index(i: int, j: int, cols: int) -> int {
    i * cols + j
}

/// The greatest element of a non-empty sequence under the imposed
/// total order; among elements the order cannot distinguish (distinct
/// not-a-number encodings), the latest one.
pub open spec fn seq_max(s: Seq<u64>) -> u64
    recommends
        s.len() > 0,
    decreases s.len(),
{
    if s.len() <= 1 {
        s[0]
    } else if total_le(seq_max(s.drop_last()), s.last()) {
        s.last()
    } else {
        seq_max(s.drop_last())
    }
}

/// The least element of a non-empty sequence under the imposed total
/// order; among elements the order cannot distinguish, the earliest
/// one.
pub open spec fn seq_min(s: Seq<u64>) -> u64
    recommends
        s.len() > 0,
    decreases s.len(),
{
    if s.len() <= 1 {
        s[0]
    } else if total_lt(s.last(), seq_min(s.drop_last())) {
        s.last()
    } else {
        seq_min(s.drop_last())
    }
}

/// The maximum of a non-empty sequence is one of its elements.
pub proof fn lemma_max_is_element(s: Seq<u64>)
    requires
        s.len() > 0,
    ensures
        exists|i: int| 0 <= i < s.len() && s[i] == seq_max(s),
    decreases s.len(),
{
    if s.len() == 1 {
        assert(s[0] == seq_max(s));
    } else {
        lemma_max_is_element(s.drop_last());
        if total_le(seq_max(s.drop_last()), s.last()) {
            assert(s[s.len() - 1] == seq_max(s));
        } else {
            let i = choose|i: int|
                0 <= i < s.drop_last().len() && s.drop_last()[i] == seq_max(s.drop_last());
            assert(s[i] == seq_max(s));
        }
    }
}

/// Every element of a non-empty sequence ranks at or below its
/// maximum.
pub proof fn lemma_max_ge_all(s: Seq<u64>)
    requires
        s.len() > 0,
    ensures
        forall|i: int| 0 <= i < s.len() ==> total_le(s[i], seq_max(s)),
    decreases s.len(),
{
    if s.len() > 1 {
        lemma_max_ge_all(s.drop_last());
        assert forall|i: int| 0 <= i < s.len() implies total_le(s[i], seq_max(s)) by {
            if i < s.len() - 1 {
                assert(s.drop_last()[i] == s[i]);
                assert(total_le(s[i], seq_max(s.drop_last())));
            }
        }
    }
}

/// The minimum of a non-empty sequence is one of its elements.
pub proof fn lemma_min_is_element(s: Seq<u64>)
    requires
        s.len() > 0,
    ensures
        exists|i: int| 0 <= i < s.len() && s[i] == seq_min(s),
    decreases s.len(),
{
    if s.len() == 1 {
        assert(s[0] == seq_min(s));
    } else {
        lemma_min_is_element(s.drop_last());
        if total_lt(s.last(), seq_min(s.drop_last())) {
            assert(s[s.len() - 1] == seq_min(s));
        } else {
            let i = choose|i: int|
                0 <= i < s.drop_last().len() && s.drop_last()[i] == seq_min(s.drop_last());
            assert(s[i] == seq_min(s));
        }
    }
}

/// Every element of a non-empty sequence ranks at or above its
/// minimum.
pub proof fn lemma_min_le_all(s: Seq<u64>)
    requires
        s.len() > 0,
    ensures
        forall|i: int| 0 <= i < s.len() ==> total_le(seq_min(s), s[i]),
    decreases s.len(),
{
    if s.len() > 1 {
        lemma_min_le_all(s.drop_last());
        assert forall|i: int| 0 <= i < s.len() implies total_le(seq_min(s), s[i]) by {
            if i < s.len() - 1 {
                assert(s.drop_last()[i] == s[i]);
                assert(total_le(seq_min(s.drop_last()), s[i]));
            }
        }
    }
}

/// If any element of a sequence is a not-a-number encoding, the
/// maximum under the imposed order is a not-a-number encoding: the
/// policy places every such value above all numeric values, so the
/// result of a maximum over a sequence containing one is well defined
/// and is itself not-a-number.
pub proof fn lemma_nan_forces_nan_max(s: Seq<u64>)
    requires
        exists|i: int| 0 <= i < s.len() && is_nan_bits(s[i]),
    ensures
        is_nan_bits(seq_max(s)),
{
    let k = choose|i: int| 0 <= i < s.len() && is_nan_bits(s[i]);
    lemma_max_ge_all(s);
    assert(total_le(s[k], seq_max(s)));
    assert(order_key(s[k]) == u64::MAX);
    lemma_key_max_only_nan(seq_max(s));
}

/// Computes `[max, min]` of the viewed elements under the imposed
/// total order, as a new one-dimensional native array of length two; a
/// view of no elements yields a length-zero array rather than failing.
pub fn max_min_kernel(view: NativeView<'_>) -> (r: NativeOwned)
    ensures
        r.wf(),
        view.data@.len() == 0 ==> r.shape@ =~= seq![0usize] && r.data@.len() == 0,
        view.data@.len() > 0 ==> r.shape@ =~= seq![2usize] && r.data@ =~= seq![
            seq_max(view.data@),
            seq_min(view.data@),
        ],
{
    let n = view.data.len();
    if n == 0 {
        let mut shape: Vec<usize> = Vec::new();
        shape.push(0);
        let data: Vec<u64> = Vec::new();
        proof {
            assert(shape@ =~= seq![0usize]);
            assert(shape@.drop_last() =~= Seq::<usize>::empty());
            assert(shape_count(Seq::<usize>::empty()) == 1);
            assert(shape_count(shape@) == 0);
        }
        return NativeOwned { shape, data };
    }
    let mut mx: u64 = view.data[0];
    let mut mn: u64 = view.data[0];
    proof {
        assert(view.data@.subrange(0, 1) =~= seq![view.data@[0]]);
    }
    let mut i: usize = 1;
    while i < n
        invariant
            1 <= i <= n,
            n == view.data@.len(),
            mx == seq_max(view.data@.subrange(0, i as int)),
            mn == seq_min(view.data@.subrange(0, i as int)),
        decreases n - i,
    {
        let x = view.data[i];
        proof {
            let s = view.data@.subrange(0, i + 1);
            assert(s.drop_last() =~= view.data@.subrange(0, i as int));
            assert(s.last() == view.data@[i as int]);
        }
        if le_bits(mx, x) {
            mx = x;
        }
        if lt_bits(x, mn) {
            mn = x;
        }
        i += 1;
    }
    proof {
        assert(view.data@.subrange(0, n as int) =~= view.data@);
    }
    let mut shape: Vec<usize> = Vec::new();
    shape.push(2);
    let mut data: Vec<u64> = Vec::new();
    data.push(mx);
    data.push(mn);
    proof {
        assert(shape@ =~= seq![2usize]);
        assert(shape@.drop_last() =~= Seq::<usize>::empty());
        assert(shape_count(Seq::<usize>::empty()) == 1);
        assert(shape_count(shape@) == 2);
        assert(data@ =~= seq![seq_max(view.data@), seq_min(view.data@)]);
    }
    NativeOwned { shape, data }
}

/// Builds the `size` by `size` identity matrix as a new native array:
/// the encoding of one on the main diagonal and of zero elsewhere, in
/// row-major order. A size of zero yields a valid empty matrix.
pub fn identity_kernel(size: usize) -> (r: NativeOwned)
    requires
        size * size <= usize::MAX,
    ensures
        r.wf(),
        r.shape@ =~= seq![size, size],
        r.data@.len() == size * size,
        forall|i: int, j: int|
            0 <= i < size && 0 <= j < size ==> r.data@[#[trigger] flat_index(i, j, size as int)]
                == (if i == j {
                ONE_BITS
            } else {
                ZERO_BITS
            }),
{
    let mut data: Vec<u64> = Vec::new();
    let mut i: usize = 0;
    while i < size
        invariant
            i <= size,
            size * size <= usize::MAX,
            data@.len() == i * size,
            forall|r0: int, c: int|
                0 <= r0 < i && 0 <= c < size ==> data@[#[trigger] flat_index(r0, c, size as int)]
                    == (if r0 == c {
                    ONE_BITS
                } else {
                    ZERO_BITS
                }),
        decreases size - i,
    {
        let mut j: usize = 0;
        while j < size
            invariant
                j <= size,
                i < size,
                size * size <= usize::MAX,
                data@.len() == i * size + j,
                forall|r0: int, c: int|
                    0 <= r0 < i && 0 <= c < size ==> data@[#[trigger] flat_index(
                        r0,
                        c,
                        size as int,
                    )] == (if r0 == c {
                        ONE_BITS
                    } else {
                        ZERO_BITS
                    }),
                forall|c: int|
                    0 <= c < j ==> data@[#[trigger] flat_index(i as int, c, size as int)] == (if i
                        == c {
                        ONE_BITS
                    } else {
                        ZERO_BITS
                    }),
            decreases size - j,
        {
            if i == j {
                data.push(ONE_BITS);
            } else {
                data.push(ZERO_BITS);
            }
            proof {
                assert forall|r0: int, c: int| 0 <= r0 < i && 0 <= c < size implies data@[
                #[trigger] flat_index(r0, c, size as int)] == (if r0 == c {
                    ONE_BITS
                } else {
                    ZERO_BITS
                }) by {
                    assert(r0 * size + c < i * size) by (nonlinear_arith)
                        requires
                            0 <= r0,
                            r0 < i,
                            0 <= c,
                            c < size,
                    ;
                }
            }
            j += 1;
        }
        proof {
            assert((i + 1) * size == i * size + size) by (nonlinear_arith);
        }
        i += 1;
    }
    let mut shape: Vec<usize> = Vec::new();
    shape.push(size);
    shape.push(size);
    proof {
        assert(shape@ =~= seq![size, size]);
        assert(shape@.drop_last() =~= seq![size]);
        assert(seq![size].drop_last() =~= Seq::<usize>::empty());
        assert(shape_count(Seq::<usize>::empty()) == 1);
        assert(shape_count(seq![size]) == size);
        assert(shape_count(shape@) == size * size);
    }
    NativeOwned { shape, data }
}

} // verus!
