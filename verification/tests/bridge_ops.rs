use rust_numpy_ext::bridge::{double_and_random_perturbation, identity, max_min};
use rust_numpy_ext::host::{
    acquire_mutable_view, acquire_readonly_view, publish, BridgeError, ElemType, HostArray,
    NativeOwned,
};

fn float_array(writable: bool, shape: Vec<usize>, values: &[f64]) -> HostArray {
    HostArray {
        elem: ElemType::Float64,
        writable,
        shape,
        data: values.iter().map(|v| v.to_bits()).collect(),
    }
}

fn as_floats(a: &[u64]) -> Vec<f64> {
    a.iter().map(|b| f64::from_bits(*b)).collect()
}

#[test]
fn max_min_returns_extremes() {
    let a = float_array(false, vec![2, 2], &[3.5, -2.0, 7.25, 0.5]);
    let out = max_min(&a).unwrap();
    assert_eq!(out.shape, vec![2]);
    assert_eq!(as_floats(&out.data), vec![7.25, -2.0]);
}

#[test]
fn max_min_single_element() {
    let a = float_array(false, vec![1], &[-4.5]);
    let out = max_min(&a).unwrap();
    assert_eq!(as_floats(&out.data), vec![-4.5, -4.5]);
}

#[test]
fn max_min_all_negative() {
    let a = float_array(false, vec![3], &[-1.0, -8.5, -3.25]);
    let out = max_min(&a).unwrap();
    assert_eq!(as_floats(&out.data), vec![-1.0, -8.5]);
}

#[test]
fn max_min_empty_array() {
    let a = float_array(false, vec![0], &[]);
    let out = max_min(&a).unwrap();
    assert_eq!(out.shape, vec![0]);
    assert_eq!(out.data.len(), 0);
}

#[test]
fn max_min_with_nan_is_well_defined() {
    let a = float_array(false, vec![3], &[1.0, f64::NAN, 2.0]);
    let out = max_min(&a).unwrap();
    assert_eq!(out.data.len(), 2);
    assert!(f64::from_bits(out.data[0]).is_nan());
    assert_eq!(f64::from_bits(out.data[1]), 1.0);
}

#[test]
fn max_min_with_infinities() {
    let a = float_array(false, vec![4], &[f64::NEG_INFINITY, 0.0, f64::INFINITY, -7.0]);
    let out = max_min(&a).unwrap();
    assert_eq!(f64::from_bits(out.data[0]), f64::INFINITY);
    assert_eq!(f64::from_bits(out.data[1]), f64::NEG_INFINITY);
}

#[test]
fn max_min_orders_zero_signs() {
    let a = float_array(false, vec![2], &[-0.0, 0.0]);
    let out = max_min(&a).unwrap();
    assert_eq!(out.data[0], (0.0f64).to_bits());
    assert_eq!(out.data[1], (-0.0f64).to_bits());
}

#[test]
fn max_min_rejects_non_float64() {
    let a = HostArray { elem: ElemType::Float32, writable: false, shape: vec![2], data: vec![0, 0] };
    assert_eq!(max_min(&a).unwrap_err(), BridgeError::TypeMismatch);
}

#[test]
fn identity_three() {
    let out = identity(3).unwrap();
    assert_eq!(out.shape, vec![3, 3]);
    assert_eq!(
        as_floats(&out.data),
        vec![1.0, 0.0, 0.0, 0.0, 1.0, 0.0, 0.0, 0.0, 1.0]
    );
}

#[test]
fn identity_zero_has_no_elements() {
    let out = identity(0).unwrap();
    assert_eq!(out.shape, vec![0, 0]);
    assert_eq!(out.data.len(), 0);
}

#[test]
fn identity_negative_is_invalid() {
    assert_eq!(identity(-1).unwrap_err(), BridgeError::InvalidArgument);
    assert_eq!(identity(i64::MIN).unwrap_err(), BridgeError::InvalidArgument);
}

#[test]
fn identity_result_is_writable_float64() {
    let out = identity(2).unwrap();
    assert_eq!(out.elem, ElemType::Float64);
    assert!(out.writable);
}

#[test]
fn perturb_with_zero_scaling_doubles() {
    let original = [1.5, -2.25, 0.0, 100.0];
    let mut a = float_array(true, vec![4], &original);
    let scaling = 0.0;
    let transformed: Vec<u64> = original
        .iter()
        .map(|e| (e * 2.0 + (0.25 - 0.5) * scaling).to_bits())
        .collect();
    double_and_random_perturbation(&mut a, transformed).unwrap();
    assert_eq!(as_floats(&a.data), vec![3.0, -4.5, 0.0, 200.0]);
    assert_eq!(a.shape, vec![4]);
    assert!(a.writable);
}

#[test]
fn perturb_stays_within_scaling_bounds() {
    let original = [0.5, -3.0, 12.25, 0.0, -0.125];
    let mut a = float_array(true, vec![5], &original);
    let scaling = 3.0f64;
    let transformed: Vec<u64> = original
        .iter()
        .map(|e| (e * 2.0 + (rand::random::<f64>() - 0.5) * scaling).to_bits())
        .collect();
    double_and_random_perturbation(&mut a, transformed).unwrap();
    for (e, o) in as_floats(&a.data).iter().zip(original.iter()) {
        assert!(*e >= 2.0 * o - scaling / 2.0);
        assert!(*e <= 2.0 * o + scaling / 2.0);
    }
}

#[test]
fn perturb_rejects_non_float64_and_leaves_data() {
    let mut a = HostArray {
        elem: ElemType::Int64,
        writable: true,
        shape: vec![2],
        data: vec![7, 8],
    };
    let r = double_and_random_perturbation(&mut a, vec![1, 2]);
    assert_eq!(r.unwrap_err(), BridgeError::TypeMismatch);
    assert_eq!(a.data, vec![7, 8]);
    assert_eq!(a.shape, vec![2]);
}

#[test]
fn perturb_rejects_readonly_array() {
    let mut a = float_array(false, vec![2], &[1.0, 2.0]);
    let r = double_and_random_perturbation(&mut a, vec![0, 0]);
    assert_eq!(r.unwrap_err(), BridgeError::InvalidArgument);
    assert_eq!(as_floats(&a.data), vec![1.0, 2.0]);
}

#[test]
fn perturb_rejects_wrong_kernel_output_length() {
    let mut a = float_array(true, vec![3], &[1.0, 2.0, 3.0]);
    let r = double_and_random_perturbation(&mut a, vec![0, 0]);
    assert_eq!(r.unwrap_err(), BridgeError::InternalInvariantViolation);
    assert_eq!(as_floats(&a.data), vec![1.0, 2.0, 3.0]);
}

#[test]
fn readonly_view_shares_storage() {
    let a = float_array(false, vec![2], &[4.0, 5.0]);
    let view = acquire_readonly_view(&a).unwrap();
    assert_eq!(view.data, &a.data);
    assert_eq!(view.shape, &a.shape);
}

#[test]
fn readonly_view_rejects_non_float64() {
    let a = HostArray { elem: ElemType::Bool, writable: false, shape: vec![1], data: vec![1] };
    assert_eq!(acquire_readonly_view(&a).unwrap_err(), BridgeError::TypeMismatch);
}

#[test]
fn mutable_view_writes_reach_the_host_array() {
    let mut a = float_array(true, vec![2], &[1.0, 2.0]);
    {
        let view = acquire_mutable_view(&mut a).unwrap();
        view[0] = (9.0f64).to_bits();
    }
    assert_eq!(as_floats(&a.data), vec![9.0, 2.0]);
}

#[test]
fn mutable_view_rejects_undeclared_intent() {
    let mut a = float_array(false, vec![1], &[1.0]);
    assert_eq!(acquire_mutable_view(&mut a).unwrap_err(), BridgeError::InvalidArgument);
}

#[test]
fn mutable_view_rejects_non_float64() {
    let mut a = HostArray { elem: ElemType::Int32, writable: true, shape: vec![1], data: vec![3] };
    assert_eq!(acquire_mutable_view(&mut a).unwrap_err(), BridgeError::TypeMismatch);
    assert_eq!(a.data, vec![3]);
}

#[test]
fn publish_hands_ownership_to_the_host() {
    let owned = NativeOwned { shape: vec![2], data: vec![(1.0f64).to_bits(), (2.0f64).to_bits()] };
    let host = publish(owned);
    assert_eq!(host.elem, ElemType::Float64);
    assert!(host.writable);
    assert_eq!(host.shape, vec![2]);
    assert_eq!(as_floats(&host.data), vec![1.0, 2.0]);
}
