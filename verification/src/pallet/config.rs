//! What the hosting system fixes when it takes the module in.

use vstd::prelude::*;

verus! {

/// The configuration of the module: one constant, fixed for good when
/// the hosting system is built.
pub trait Config {
    /// The largest number of bytes that a stored value may have.
    spec fn spec_max_value_length() -> u32;

    /// The largest number of bytes that a stored value may have.
    fn max_value_length() -> (max: u32)
        ensures
            max == Self::spec_max_value_length(),
    ;
}

/// The configuration whose bound is the constant `MAX`.
#[derive(Debug)]
pub struct MaxValueLength<const MAX: u32>;

impl<const MAX: u32> Config for MaxValueLength<MAX> {
    open spec fn spec_max_value_length() -> u32 {
        MAX
    }

    fn max_value_length() -> (max: u32) {
        MAX
    }
}

} // verus!
