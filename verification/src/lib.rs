//! A verified model of a native-extension bridge for a host scripting
//! runtime's multidimensional float64 arrays.
//!
//! The bridge has two layers. The boundary layer validates host arrays
//! (element type, declared mutability, scalar arguments) and marshals
//! results back into host-owned objects. The kernel layer computes on
//! already-validated views. Element values are carried as their raw
//! 64-bit encodings, since the verified core does not model
//! floating-point arithmetic; the ordering policy over those encodings
//! is defined and proved in `order`.

pub mod bridge;
pub mod host;
pub mod kernel;
pub mod order;
