//! The inherent-data bag of the host: the per-block, transient keyed
//! collection that carries raw inputs from the node to block construction.
//!
//! The bag is `sp_inherents::InherentData`. Nothing in this file is proved:
//! it is the boundary at which the behaviour of the bag and of its codec is
//! taken on trust.

use vstd::prelude::*;

verus! {

/// The tag under which one producer's entry is kept in the bag.
pub type InherentIdentifier = [u8; 8];

/// `sp_inherents::InherentData`, carried through as an opaque value.
#[verifier::external_type_specification]
#[verifier::external_body]
pub struct ExInherentData(sp_inherents::InherentData);

/// What a bag holds: the encoded entry kept under each identifier.
pub uninterp spec fn entries(data: sp_inherents::InherentData) -> Map<Seq<u8>, Seq<u8>>;

/// The bytes that `parity_scale_codec::Encode::encode` gives for a byte
/// vector.
pub uninterp spec fn scale_encoded(value: Seq<u8>) -> Seq<u8>;

/// The byte vector that `parity_scale_codec::Decode::decode` reads from the
/// front of `bytes`, or `None` where it reports an error.
pub uninterp spec fn scale_decoded(bytes: Seq<u8>) -> Option<Seq<u8>>;

/// `InherentData::put_data` with a byte vector as the inherent; the result
/// says whether the call succeeded.
///
/// Claimed of it: the call succeeds exactly when the bag has no entry under
/// `identifier`; a failed call leaves the bag as it was; a successful one
/// adds the encoding of `inherent` under `identifier` and touches nothing
/// else; and that encoding decodes back to `inherent`. Encoding a vector of
/// more than `u32::MAX` bytes panics, so such a vector is not admitted.
#[verifier::external_body]
pub(crate) fn put_data(
    data: &mut sp_inherents::InherentData,
    identifier: InherentIdentifier,
    inherent: &Vec<u8>,
) -> (inserted: bool)
    requires
        inherent@.len() <= u32::MAX,
    ensures
        inserted <==> !entries(*old(data)).contains_key(identifier@),
        !inserted ==> entries(*final(data)) == entries(*old(data)),
        inserted ==> entries(*final(data)) == entries(*old(data)).insert(
            identifier@,
            scale_encoded(inherent@),
        ),
        inserted ==> scale_decoded(entries(*final(data))[identifier@]) == Some(inherent@),
{
    data.put_data(identifier, inherent).is_ok()
}

/// `InherentData::get_data` with a byte vector as the inherent; the
/// outer `None` stands for the call's error.
///
/// Claimed of it: `Some(None)` exactly when the bag has no entry under
/// `identifier`; otherwise the entry is decoded, and the call gives the
/// decoded vector, or fails where decoding fails.
#[verifier::external_body]
pub(crate) fn get_data(
    data: &sp_inherents::InherentData,
    identifier: &InherentIdentifier,
) -> (outcome: Option<Option<Vec<u8>>>)
    ensures
        match outcome {
            Some(None) => !entries(*data).contains_key(identifier@),
            Some(Some(value)) => entries(*data).contains_key(identifier@) && scale_decoded(
                entries(*data)[identifier@],
            ) == Some(value@),
            None => entries(*data).contains_key(identifier@) && scale_decoded(
                entries(*data)[identifier@],
            ) is None,
        },
{
    data.get_data::<Vec<u8>>(identifier).ok()
}

} // verus!
