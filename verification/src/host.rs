//! The model of host-owned arrays and the boundary layer.
//!
//! A `HostArray` stands for an array object owned by the host runtime:
//! its declared element type, the mutability the caller declared when
//! handing it over, its shape, and its elements as raw 64-bit
//! encodings. A `NativeView` is a non-owning read-only reference into a
//! `HostArray`'s storage; it borrows the host array and so cannot
//! outlive the call that created it. A `NativeOwned` is a freshly
//! computed native array not yet bound to the host's object model;
//! `publish` consumes it, so ownership transfers to the host exactly
//! once and a second publish of the same instance cannot compile.

use vstd::prelude::*;

verus! {

/// The element type a host array declares. The bridge supports
/// double-precision floating point only; every other declared type
/// fails validation.
#[derive(Clone, Copy, PartialEq, Eq, Structural, Debug)]
pub enum ElemType {
    Float64,
    Float32,
    Int64,
    Int32,
    Bool,
}

/// The host-visible failure classes of the bridge.
#[derive(Clone, Copy, PartialEq, Eq, Structural, Debug)]
pub enum BridgeError {
    /// The host array's element type is not the supported type.
    TypeMismatch,
    /// A scalar parameter violates its domain, or an array lacks the
    /// mutability an in-place operation needs.
    InvalidArgument,
    /// An internal computation contract was violated; a programming
    /// error, not a condition the host can recover from.
    InternalInvariantViolation,
}

/// The number of elements a shape describes: the product of its
/// extents, one for a rank-0 shape.
pub open spec fn shape_count(s: Seq<usize>) -> int
    decreases s.len(),
{
    if s.len() == 0 {
        1
    } else {
        shape_count(s.drop_last()) * s.last()
    }
}

/// An array owned by the host runtime, as the bridge sees it.
#[derive(Debug)]
pub struct HostArray {
    /// The element type the host declared for the backing storage.
    pub elem: ElemType,
    /// Whether the caller declared mutable intent when handing the
    /// array to the bridge.
    pub writable: bool,
    /// The extents of each dimension; the rank is `shape.len()` and is
    /// known only at call time.
    pub shape: Vec<usize>,
    /// The elements in row-major order, each as its raw 64-bit
    /// encoding.
    pub data: Vec<u64>,
}

impl HostArray {
    /// The storage holds exactly as many elements as the shape
    /// describes.
    pub open spec fn wf(self) -> bool {
        self.data@.len() == shape_count(self.shape@)
    }
}

/// A freshly allocated native array, not yet bound to the host's
/// object model.
pub struct NativeOwned {
    /// The extents of each dimension.
    pub shape: Vec<usize>,
    /// The elements in row-major order, each as its raw 64-bit
    /// encoding.
    pub data: Vec<u64>,
}

impl NativeOwned {
    /// The storage holds exactly as many elements as the shape
    /// describes.
    pub open spec fn wf(self) -> bool {
        self.data@.len() == shape_count(self.shape@)
    }
}

/// A non-owning, read-only view of a host array's backing storage,
/// with dynamic rank. It borrows the host array, so it is valid only
/// for the duration of the call that acquired it and cannot be stored
/// in process-wide state.
#[derive(Debug)]
pub struct NativeView<'a> {
    /// The viewed elements: the host array's own storage, not a copy.
    pub data: &'a Vec<u64>,
    /// The viewed shape.
    pub shape: &'a Vec<usize>,
}

/// Validates the element type of `a` and returns a read-only view of
/// its storage. No copy is made and `a` is not changed; the sole
/// rejection is a declared element type other than float64.
pub fn acquire_readonly_view<'a>(a: &'a HostArray) -> (r: Result<NativeView<'a>, BridgeError>)
    ensures
        r is Ok <==> a.elem == ElemType::Float64,
        a.elem != ElemType::Float64 ==> r == Err::<NativeView<'a>, BridgeError>(
            BridgeError::TypeMismatch,
        ),
        r matches Ok(v) ==> v.data@ == a.data@ && v.shape@ == a.shape@,
{
    if a.elem == ElemType::Float64 {
        Ok(NativeView { data: &a.data, shape: &a.shape })
    } else {
        Err(BridgeError::TypeMismatch)
    }
}

/// Validates `a` and returns a mutable view: a mutable borrow of the
/// host array's own backing storage, not a copy, so every write
/// through it is immediately visible to the host. The element type
/// must be float64 and the caller must have declared mutable intent;
/// on rejection the array is untouched. This is the bridge's single
/// point of mutable access to host-owned memory. That no other alias
/// reads or writes the storage while the view lives is an obligation
/// on the host that the bridge cannot check; here the borrow checker
/// enforces it for everything the verified code can see.
pub fn acquire_mutable_view<'a>(a: &'a mut HostArray) -> (r: Result<&'a mut Vec<u64>, BridgeError>)
    ensures
        r is Ok <==> old(a).elem == ElemType::Float64 && old(a).writable,
        old(a).elem != ElemType::Float64 ==> (r matches Err(e) && e == BridgeError::TypeMismatch)
            && *final(a) == *old(a),
        old(a).elem == ElemType::Float64 && !old(a).writable ==> (r matches Err(e) && e
            == BridgeError::InvalidArgument) && *final(a) == *old(a),
        r matches Ok(view) ==> {
            &&& *view == old(a).data
            &&& final(a).elem == old(a).elem
            &&& final(a).writable == old(a).writable
            &&& final(a).shape == old(a).shape
            &&& final(a).data == *final(view)
        },
{
    if a.elem != ElemType::Float64 {
        Err(BridgeError::TypeMismatch)
    } else if !a.writable {
        Err(BridgeError::InvalidArgument)
    } else {
        Ok(&mut a.data)
    }
}

/// Transfers a freshly computed native array to the host's object
/// model. The result is an ordinary host-owned float64 array with the
/// same shape and elements; `owned` is consumed, so the native side
/// retains no claim on the data and a second publish of the same
/// instance is impossible.
pub fn publish(owned: NativeOwned) -> (r: HostArray)
    requires
        owned.wf(),
    ensures
        r.wf(),
        r.elem == ElemType::Float64,
        r.writable,
        r.shape@ == owned.shape@,
        r.data@ == owned.data@,
{
    HostArray { elem: ElemType::Float64, writable: true, shape: owned.shape, data: owned.data }
}

} // verus!
