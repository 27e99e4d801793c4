//! A growable contiguous array with an explicit, doubling capacity policy.
//!
//! [`MyVec`] keeps its live elements in order, reports how many slots it has
//! reserved, and grows that reservation by doubling whenever an append finds
//! it full. Element types without a storage footprint never need slots; for
//! them the reported capacity is the unbounded sentinel.

pub mod growth;
pub mod replay;
pub mod vec;

pub use vec::MyVec;
