//! The exported entry points of the bridge.
//!
//! Each operation validates its host array at the boundary, hands a
//! view to the kernel layer, and marshals any new native array back
//! into a host-owned object. Validation is atomic: a call either fully
//! validates and proceeds, or fails with a host-visible error and no
//! side effect.

use vstd::prelude::*;

use crate::host::{
    acquire_mutable_view, acquire_readonly_view, publish, BridgeError, ElemType, HostArray,
};
use crate::kernel::{
    flat_index, identity_kernel, lemma_max_ge_all, lemma_max_is_element, lemma_min_is_element,
    lemma_min_le_all, max_min_kernel, seq_max, seq_min, ONE_BITS, ZERO_BITS,
};
use crate::order::total_le;

verus! {

/// Computes the maximum and the minimum of a read-only host array of
/// any rank, under the total order over float64 encodings, and returns
/// them to the host as a new one-dimensional array `[max, min]`. An
/// array of any element type other than float64 is rejected with
/// `TypeMismatch` before its data is touched; an empty array yields a
/// length-zero array rather than an error.
pub fn max_min(a: &HostArray) -> (r: Result<HostArray, BridgeError>)
    ensures
        r is Ok <==> a.elem == ElemType::Float64,
        a.elem != ElemType::Float64 ==> r == Err::<HostArray, BridgeError>(
            BridgeError::TypeMismatch,
        ),
        r matches Ok(out) ==> ({
            &&& out.wf()
            &&& out.elem == ElemType::Float64
            &&& out.writable
            &&& (a.data@.len() == 0 ==> out.shape@ =~= seq![0usize] && out.data@.len() == 0)
            &&& (a.data@.len() > 0 ==> out.shape@ =~= seq![2usize] && out.data@ =~= seq![
                seq_max(a.data@),
                seq_min(a.data@),
            ])
        }),
{
    let view = match acquire_readonly_view(a) {
        Ok(v) => v,
        Err(e) => {
            return Err(e);
        },
    };
    let owned = max_min_kernel(view);
    Ok(publish(owned))
}

/// Every element of a non-empty array ranks at or below the first
/// entry that `max_min` returns and at or above the second, each of
/// the two entries is itself an element of the array, and the second
/// ranks at or below the first.
pub proof fn lemma_max_min_extremal(s: Seq<u64>)
    requires
        s.len() > 0,
    ensures
        forall|i: int| 0 <= i < s.len() ==> total_le(s[i], seq_max(s)),
        forall|i: int| 0 <= i < s.len() ==> total_le(seq_min(s), s[i]),
        exists|i: int| 0 <= i < s.len() && s[i] == seq_max(s),
        exists|i: int| 0 <= i < s.len() && s[i] == seq_min(s),
        total_le(seq_min(s), seq_max(s)),
{
    lemma_max_ge_all(s);
    lemma_min_le_all(s);
    lemma_max_is_element(s);
    lemma_min_is_element(s);
}

/// Replaces every element of a mutable host array, in place, with the
/// scale-and-perturb kernel's output for it. The element arithmetic —
/// doubling plus a centred random term — runs on double-precision
/// values, which the verified core does not model, so the caller
/// supplies the kernel's output `transformed`, one encoding per
/// element in row-major order; this operation owns the boundary
/// contract. Validation precedes every write: a non-float64 element
/// type fails with `TypeMismatch`, an array handed over without
/// mutable intent fails with `InvalidArgument`, a kernel output of the
/// wrong length fails with `InternalInvariantViolation`, and in each
/// failure the array is unchanged. On success exactly the elements are
/// replaced; type, mutability and shape are untouched.
pub fn double_and_random_perturbation(a: &mut HostArray, transformed: Vec<u64>) -> (r: Result<
    (),
    BridgeError,
>)
    ensures
        old(a).elem != ElemType::Float64 ==> r == Err::<(), BridgeError>(BridgeError::TypeMismatch)
            && *final(a) == *old(a),
        old(a).elem == ElemType::Float64 && !old(a).writable ==> r == Err::<(), BridgeError>(
            BridgeError::InvalidArgument,
        ) && *final(a) == *old(a),
        old(a).elem == ElemType::Float64 && old(a).writable && transformed@.len()
            != old(a).data@.len() ==> r == Err::<(), BridgeError>(
            BridgeError::InternalInvariantViolation,
        ) && *final(a) == *old(a),
        old(a).elem == ElemType::Float64 && old(a).writable && transformed@.len()
            == old(a).data@.len() ==> r is Ok && final(a).data == transformed && final(a).elem
            == old(a).elem && final(a).writable == old(a).writable && final(a).shape
            == old(a).shape,
{
    let view = match acquire_mutable_view(a) {
        Ok(v) => v,
        Err(e) => {
            return Err(e);
        },
    };
    if transformed.len() != view.len() {
        return Err(BridgeError::InternalInvariantViolation);
    }
    *view = transformed;
    Ok(())
}

/// Builds the `size` by `size` identity matrix — the encoding of one
/// on the main diagonal, of zero elsewhere — and returns it to the
/// host as a new two-dimensional array. A negative size fails with
/// `InvalidArgument` before anything is allocated, as does a size
/// whose square no native allocation can hold; a size of zero yields a
/// valid empty matrix.
pub fn identity(size: i64) -> (r: Result<HostArray, BridgeError>)
    ensures
        size < 0 ==> r == Err::<HostArray, BridgeError>(BridgeError::InvalidArgument),
        size >= 0 && size * size > usize::MAX ==> r == Err::<HostArray, BridgeError>(
            BridgeError::InvalidArgument,
        ),
        size >= 0 && size * size <= usize::MAX ==> (r matches Ok(out) && ({
            &&& out.wf()
            &&& out.elem == ElemType::Float64
            &&& out.writable
            &&& out.shape@ =~= seq![size as usize, size as usize]
            &&& out.data@.len() == size * size
            &&& forall|i: int, j: int|
                0 <= i < size && 0 <= j < size ==> out.data@[#[trigger] flat_index(
                    i,
                    j,
                    size as int,
                )] == (if i == j {
                    ONE_BITS
                } else {
                    ZERO_BITS
                })
        })),
{
    if size < 0 {
        return Err(BridgeError::InvalidArgument);
    }
    let su: u128 = size as u128;
    if su > usize::MAX as u128 {
        proof {
            assert(size * size > usize::MAX) by (nonlinear_arith)
                requires
                    size > usize::MAX as int,
                    usize::MAX >= 1,
            ;
        }
        return Err(BridgeError::InvalidArgument);
    }
    let s: usize = size as usize;
    proof {
        assert(su * su <= u128::MAX) by (nonlinear_arith)
            requires
                su <= 0xFFFF_FFFF_FFFF_FFFFu128,
        ;
    }
    let sq: u128 = su * su;
    if sq > usize::MAX as u128 {
        return Err(BridgeError::InvalidArgument);
    }
    let owned = identity_kernel(s);
    Ok(publish(owned))
}

} // verus!
