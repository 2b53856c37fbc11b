//! The bounded container and the slot that holds the committed value.

use vstd::prelude::*;
use core::marker::PhantomData;
use crate::pallet::config::Config;

verus! {

/// A sequence of bytes that is never longer than the bound of `T`.
#[derive(Debug)]
pub struct BoundedValue<T: Config> {
    bytes: Vec<u8>,
    config: PhantomData<T>,
}

impl<T: Config> View for BoundedValue<T> {
    type V = Seq<u8>;

    closed spec fn view(&self) -> Seq<u8> {
        self.bytes@
    }
}

impl<T: Config> BoundedValue<T> {
    #[verifier::type_invariant]
    spec fn within_bound(self) -> bool {
        self.bytes@.len() <= T::spec_max_value_length()
    }

    /// The empty value.
    pub fn new() -> (value: Self)
        ensures
            value@ == Seq::<u8>::empty(),
    {
        BoundedValue { bytes: Vec::new(), config: PhantomData }
    }

    /// Takes `bytes` in if they keep to the bound, and hands them back
    /// untouched if they do not. Nothing is ever cut off.
    pub fn try_from(bytes: Vec<u8>) -> (outcome: Result<Self, Vec<u8>>)
        ensures
            match outcome {
                Ok(value) => bytes@.len() <= T::spec_max_value_length() && value@ == bytes@,
                Err(rejected) => bytes@.len() > T::spec_max_value_length() && rejected == bytes,
            },
    {
        if bytes.len() <= T::max_value_length() as usize {
            Ok(BoundedValue { bytes, config: PhantomData })
        } else {
            Err(bytes)
        }
    }

    /// The bytes of the value, which keep to the bound.
    pub fn as_vec(&self) -> (bytes: &Vec<u8>)
        ensures
            bytes@ == self@,
            bytes@.len() <= T::spec_max_value_length(),
    {
        proof {
            use_type_invariant(self);
        }
        &self.bytes
    }
}

/// The store: a single slot that holds the value committed last. It keeps
/// no history, and it checks nothing: what is put into it was bounded
/// before.
#[derive(Debug)]
pub struct OsValue<T: Config> {
    slot: BoundedValue<T>,
}

impl<T: Config> View for OsValue<T> {
    type V = Seq<u8>;

    closed spec fn view(&self) -> Seq<u8> {
        self.slot@
    }
}

impl<T: Config> OsValue<T> {
    /// The store before anything was put into it: it holds the empty
    /// value.
    pub fn new() -> (store: Self)
        ensures
            store@ == Seq::<u8>::empty(),
    {
        OsValue { slot: BoundedValue::new() }
    }

    /// Puts `value` into the slot in place of what was there.
    pub fn put(&mut self, value: BoundedValue<T>)
        ensures
            final(self)@ == value@,
    {
        self.slot = value;
    }

    /// The value in the slot, which keeps to the bound.
    pub fn get(&self) -> (value: &Vec<u8>)
        ensures
            value@ == self@,
            value@.len() <= T::spec_max_value_length(),
    {
        self.slot.as_vec()
    }
}

} // verus!
