//! The errors of the inherent and their wire form.

use vstd::prelude::*;
use crate::bag::InherentIdentifier;
use crate::primitives::{is_own_identifier, INHERENT_IDENTIFIER};

verus! {

/// Reasons for which a checked inherent is turned down.
#[derive(Clone, Copy, Debug, PartialEq, Eq, Structural)]
pub enum InherentError {
    /// The value arrived sooner than the minimum period allows.
    TooEarly,
    /// The value lies too far in the future.
    TooFarInFuture,
}

/// The wire form of an error: one byte, the position of the variant.
pub open spec fn encoded_error(error: InherentError) -> Seq<u8> {
    match error {
        InherentError::TooEarly => seq![0u8],
        InherentError::TooFarInFuture => seq![1u8],
    }
}

/// The error that the front of `data` encodes. Only the first byte is
/// read; whatever follows it is left alone.
pub open spec fn decoded_error(data: Seq<u8>) -> Option<InherentError> {
    if data.len() == 0 {
        None
    } else if data[0] == 0 {
        Some(InherentError::TooEarly)
    } else if data[0] == 1 {
        Some(InherentError::TooFarInFuture)
    } else {
        None
    }
}

/// The error that `data` reports under `identifier`: none under a foreign
/// identifier, else whatever `data` decodes to.
pub open spec fn reported_error(identifier: Seq<u8>, data: Seq<u8>) -> Option<InherentError> {
    if identifier == INHERENT_IDENTIFIER@ {
        decoded_error(data)
    } else {
        None
    }
}

impl InherentError {
    /// Whether the error forces the whole block to be rejected. Every
    /// variant does.
    pub fn is_fatal_error(&self) -> (fatal: bool)
        ensures
            fatal,
    {
        match self {
            InherentError::TooEarly => true,
            InherentError::TooFarInFuture => true,
        }
    }

    /// The wire form of the error.
    pub fn encode(&self) -> (bytes: Vec<u8>)
        ensures
            bytes@ == encoded_error(*self),
    {
        let index: u8 = match self {
            InherentError::TooEarly => 0,
            InherentError::TooFarInFuture => 1,
        };
        let mut bytes: Vec<u8> = Vec::new();
        bytes.push(index);
        bytes
    }

    /// Reads an error from the front of `data`.
    pub fn decode(data: &[u8]) -> (error: Option<Self>)
        ensures
            error == decoded_error(data@),
    {
        if data.len() == 0 {
            None
        } else if data[0] == 0 {
            Some(InherentError::TooEarly)
        } else if data[0] == 1 {
            Some(InherentError::TooFarInFuture)
        } else {
            None
        }
    }

    /// Tries to read an error out of `data` that was reported under
    /// `identifier`.
    pub fn try_from(identifier: &InherentIdentifier, data: &[u8]) -> (error: Option<Self>)
        ensures
            error == reported_error(identifier@, data@),
    {
        if is_own_identifier(identifier) {
            InherentError::decode(data)
        } else {
            None
        }
    }
}

/// Every error is read back from its own wire form, whatever bytes follow
/// it, and under no identifier but this module's.
pub proof fn lemma_error_round_trip(error: InherentError, rest: Seq<u8>, identifier: Seq<u8>)
    ensures
        decoded_error(encoded_error(error) + rest) == Some(error),
        reported_error(INHERENT_IDENTIFIER@, encoded_error(error) + rest) == Some(error),
        identifier != INHERENT_IDENTIFIER@ ==> reported_error(
            identifier,
            encoded_error(error) + rest,
        ) is None,
{
}

/// What goes wrong around the bag.
#[derive(Clone, Copy, Debug, PartialEq, Eq)]
pub enum InherentDataError {
    /// The bag already holds an entry under the identifier.
    InherentDataExists(InherentIdentifier),
    /// The entry under the identifier does not decode.
    DecodingFailed(InherentIdentifier),
    /// An error that a check of the inherent reported.
    Application(InherentError),
}

} // verus!
