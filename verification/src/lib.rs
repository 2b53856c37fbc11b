//! Inherent-data lifecycle of an externally observed value: acquisition,
//! bounded encoding, injection into block construction, validation on
//! import, and commit to a single bounded slot.

pub mod bag;
pub mod pallet;
pub mod primitives;
pub mod text;
