//! The node side: reading this module's entry out of a bag, and the
//! provider that puts it there once per block.

use vstd::prelude::*;
use sp_inherents::InherentData;
use crate::bag::{entries, get_data, put_data, scale_decoded, scale_encoded, InherentIdentifier};
use crate::primitives::error::{reported_error, InherentDataError, InherentError};
use crate::primitives::os_value::{value_of_output, InherentType, OsReader};
use crate::primitives::INHERENT_IDENTIFIER;

verus! {

/// What a bag with the given entries yields for this module: nothing where
/// it has no entry under the module's identifier, else the decoded value,
/// or an error where the entry does not decode.
pub open spec fn provided_value(bag: Map<Seq<u8>, Seq<u8>>) -> Result<
    Option<Seq<u8>>,
    InherentDataError,
> {
    if !bag.contains_key(INHERENT_IDENTIFIER@) {
        Ok(None)
    } else {
        match scale_decoded(bag[INHERENT_IDENTIFIER@]) {
            Some(value) => Ok(Some(value)),
            None => Err(InherentDataError::DecodingFailed(INHERENT_IDENTIFIER)),
        }
    }
}

/// Whether a bag yields a value for this module.
pub open spec fn provides(bag: Map<Seq<u8>, Seq<u8>>) -> bool {
    provided_value(bag) matches Ok(Some(_))
}

/// The value that a bag yields for this module, where it yields one.
pub open spec fn payload(bag: Map<Seq<u8>, Seq<u8>>) -> Seq<u8>
    recommends
        provides(bag),
{
    provided_value(bag)->Ok_0->Some_0
}

/// Whether `after` is `before` with `value` put in under this module's
/// identifier, which `before` did not hold: the one new entry is the
/// encoding of `value`, and it decodes back to `value`.
pub open spec fn provided(
    before: Map<Seq<u8>, Seq<u8>>,
    value: Seq<u8>,
    after: Map<Seq<u8>, Seq<u8>>,
) -> bool {
    &&& !before.contains_key(INHERENT_IDENTIFIER@)
    &&& after == before.insert(INHERENT_IDENTIFIER@, scale_encoded(value))
    &&& scale_decoded(after[INHERENT_IDENTIFIER@]) == Some(value)
}

/// The bytes of what was read out of a bag.
pub open spec fn read_view(found: Result<Option<InherentType>, InherentDataError>) -> Result<
    Option<Seq<u8>>,
    InherentDataError,
> {
    match found {
        Ok(Some(value)) => Ok(Some(value@)),
        Ok(None) => Ok(None),
        Err(error) => Err(error),
    }
}

/// Reading this module's value out of a bag.
pub trait OsReaderInherentData {
    /// The value kept for this module, if there is one.
    fn osreader_inherent_data(&self) -> Result<Option<InherentType>, InherentDataError>;
}

impl OsReaderInherentData for InherentData {
    fn osreader_inherent_data(&self) -> (found: Result<Option<InherentType>, InherentDataError>)
        ensures
            read_view(found) == provided_value(entries(*self)),
    {
        match get_data(self, &INHERENT_IDENTIFIER) {
            Some(Some(value)) => Ok(Some(OsReader::new(value))),
            Some(None) => Ok(None),
            None => Err(InherentDataError::DecodingFailed(INHERENT_IDENTIFIER)),
        }
    }
}

/// Holds the value observed for one block and hands it to block
/// construction.
#[derive(Debug)]
pub struct InherentDataProvider {
    os_value: InherentType,
}

impl View for InherentDataProvider {
    type V = Seq<u8>;

    closed spec fn view(&self) -> Seq<u8> {
        self.os_value@
    }
}

/// What handling a reported error comes to: nothing where the report is
/// not one of this module's, else the failure that the report names.
pub open spec fn handled_error(identifier: Seq<u8>, error: Seq<u8>) -> Option<
    Result<(), InherentDataError>,
> {
    match reported_error(identifier, error) {
        Some(reason) => Some(Err(InherentDataError::Application(reason))),
        None => None,
    }
}

impl InherentDataProvider {
    /// A provider of the current value, given the raw output of the
    /// command that reads it.
    pub fn from_current_os_value(output: &[u8]) -> (provider: Self)
        ensures
            provider@ == value_of_output(output@),
    {
        let os_value = OsReader::current_value(output);
        InherentDataProvider { os_value: OsReader::from(os_value) }
    }

    /// A provider of the current value, given the raw output of the
    /// command that reads it.
    pub fn new(output: &[u8]) -> (provider: Self)
        ensures
            provider@ == value_of_output(output@),
    {
        let os_value = OsReader::current_value(output);
        InherentDataProvider { os_value: OsReader::from(os_value) }
    }

    /// The value that this provider holds.
    pub fn os_value(&self) -> (value: InherentType)
        ensures
            value@ == self@,
    {
        self.os_value.clone()
    }

    /// Puts the value into `inherent_data` under this module's identifier.
    /// A bag that already holds an entry there is left as it is, and the
    /// call fails.
    pub fn provide_inherent_data(&self, inherent_data: &mut InherentData) -> (outcome: Result<
        (),
        InherentDataError,
    >)
        requires
            self@.len() <= u32::MAX,
        ensures
            outcome is Ok <==> !entries(*old(inherent_data)).contains_key(INHERENT_IDENTIFIER@),
            match outcome {
                Ok(()) => provided(
                    entries(*old(inherent_data)),
                    self@,
                    entries(*final(inherent_data)),
                ),
                Err(error) => error == InherentDataError::InherentDataExists(INHERENT_IDENTIFIER)
                    && entries(*final(inherent_data)) == entries(*old(inherent_data)),
            },
    {
        if put_data(inherent_data, INHERENT_IDENTIFIER, &self.os_value) {
            Ok(())
        } else {
            Err(InherentDataError::InherentDataExists(INHERENT_IDENTIFIER))
        }
    }

    /// Handles an error that a check reported as `error` under
    /// `identifier`.
    pub fn try_handle_error(&self, identifier: &InherentIdentifier, error: &[u8]) -> (handled:
        Option<Result<(), InherentDataError>>)
        ensures
            handled == handled_error(identifier@, error@),
    {
        match InherentError::try_from(identifier, error) {
            Some(reason) => Some(Err(InherentDataError::Application(reason))),
            None => None,
        }
    }
}

impl core::ops::Deref for InherentDataProvider {
    type Target = InherentType;

    fn deref(&self) -> (value: &InherentType)
        ensures
            value@ == self@,
    {
        &self.os_value
    }
}

/// A bag yields a value exactly when it holds an entry under this
/// module's identifier and that entry decodes.
pub proof fn lemma_provides_decodable_entry(bag: Map<Seq<u8>, Seq<u8>>)
    ensures
        provides(bag) <==> bag.contains_key(INHERENT_IDENTIFIER@) && scale_decoded(
            bag[INHERENT_IDENTIFIER@],
        ) is Some,
        provides(bag) ==> scale_decoded(bag[INHERENT_IDENTIFIER@]) == Some(payload(bag)),
{
}

/// A bag into which a value was put yields that value.
pub proof fn lemma_provided_value_is_read(
    before: Map<Seq<u8>, Seq<u8>>,
    value: Seq<u8>,
    after: Map<Seq<u8>, Seq<u8>>,
)
    requires
        provided(before, value, after),
    ensures
        provides(after),
        payload(after) == value,
        provided_value(after) == Ok::<Option<Seq<u8>>, InherentDataError>(Some(value)),
{
}

} // verus!
