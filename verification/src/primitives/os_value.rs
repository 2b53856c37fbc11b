//! The externally observed value and its way from raw command output to
//! payload bytes.

use vstd::prelude::*;
use vstd::slice::slice_to_vec;
use vstd::std_specs::convert::FromSpecImpl;
use vstd::utf8::{decode_utf8, decode_utf8_encode_utf8, encode_utf8, valid_utf8};
use crate::text::{
    from_utf8_lossy, is_whitespace, lossy_text, trim, trimmed, trimmed_end, trimmed_start,
};

verus! {

/// The payload type that travels in the bag.
pub type InherentType = OsReader;

/// An observed value: an opaque sequence of bytes, captured once and not
/// changed afterwards.
#[derive(Debug)]
pub struct OsReader(Vec<u8>);

impl View for OsReader {
    type V = Seq<u8>;

    closed spec fn view(&self) -> Seq<u8> {
        self.0@
    }
}

/// The text that raw output is read as: what it encodes where it is valid
/// UTF-8, and a lossy reading of it where it is not.
pub open spec fn text_of_output(output: Seq<u8>) -> Seq<char> {
    if valid_utf8(output) {
        decode_utf8(output)
    } else {
        lossy_text(output)
    }
}

/// The bytes that the value source reports for the raw output of its
/// reading command: the output read as text, without the whitespace
/// around it.
pub open spec fn value_of_output(output: Seq<u8>) -> Seq<u8> {
    encode_utf8(trimmed(text_of_output(output)))
}

/// Whether `text` neither starts nor ends with whitespace.
pub open spec fn has_clean_ends(text: Seq<char>) -> bool {
    text.len() > 0 ==> !is_whitespace(text.first()) && !is_whitespace(text.last())
}

/// Trimming at the start leaves an end piece of the text, which does not
/// start with whitespace.
pub proof fn lemma_trimmed_start(text: Seq<char>)
    ensures
        trimmed_start(text).len() <= text.len(),
        trimmed_start(text) == text.subrange(
            text.len() - trimmed_start(text).len(),
            text.len() as int,
        ),
        trimmed_start(text).len() > 0 ==> !is_whitespace(trimmed_start(text).first()),
    decreases text.len(),
{
    if text.len() > 0 && is_whitespace(text.first()) {
        lemma_trimmed_start(text.drop_first());
    }
}

/// Trimming at the end leaves a front piece of the text, which does not
/// end with whitespace.
pub proof fn lemma_trimmed_end(text: Seq<char>)
    ensures
        trimmed_end(text).len() <= text.len(),
        trimmed_end(text) == text.subrange(0, trimmed_end(text).len() as int),
        trimmed_end(text).len() > 0 ==> !is_whitespace(trimmed_end(text).last()),
    decreases text.len(),
{
    if text.len() > 0 && is_whitespace(text.last()) {
        lemma_trimmed_end(text.drop_last());
    }
}

/// Trimmed text has clean ends, and text with clean ends is left as it is
/// by trimming: so trimming twice is trimming once.
pub proof fn lemma_trimmed_is_clean(text: Seq<char>)
    ensures
        has_clean_ends(trimmed(text)),
        has_clean_ends(text) ==> trimmed(text) == text,
        trimmed(trimmed(text)) == trimmed(text),
{
    lemma_trimmed_start(text);
    lemma_trimmed_end(trimmed_start(text));
}

/// Output that is valid UTF-8 and has no whitespace at either end is its
/// own value.
pub proof fn lemma_clean_output_is_its_value(output: Seq<u8>)
    requires
        valid_utf8(output),
        has_clean_ends(decode_utf8(output)),
    ensures
        value_of_output(output) == output,
{
    lemma_trimmed_is_clean(decode_utf8(output));
    decode_utf8_encode_utf8(output);
}

impl OsReader {
    /// Wraps `inner`.
    pub fn new(inner: Vec<u8>) -> (value: Self)
        ensures
            value@ == inner@,
    {
        OsReader(inner)
    }

    /// The current value, given the raw output of the command that reads it.
    pub fn current_value(output: &[u8]) -> (value: Vec<u8>)
        ensures
            value@ == value_of_output(output@),
    {
        let text = from_utf8_lossy(output);
        let inner = trim(text.as_str());
        slice_to_vec(inner.as_bytes())
    }
}

impl core::ops::Deref for OsReader {
    type Target = Vec<u8>;

    fn deref(&self) -> (inner: &Vec<u8>)
        ensures
            inner@ == self@,
    {
        &self.0
    }
}

impl Clone for OsReader {
    fn clone(&self) -> (copy: Self)
        ensures
            copy@ == self@,
    {
        OsReader(self.0.clone())
    }
}

impl Default for OsReader {
    fn default() -> (value: Self)
        ensures
            value@ == Seq::<u8>::empty(),
    {
        OsReader(Vec::new())
    }
}

impl From<Vec<u8>> for OsReader {
    fn from(osreader: Vec<u8>) -> (value: Self)
        ensures
            value@ == osreader@,
    {
        OsReader(osreader)
    }
}

impl FromSpecImpl<Vec<u8>> for OsReader {
    open spec fn obeys_from_spec() -> bool {
        true
    }

    closed spec fn from_spec(osreader: Vec<u8>) -> Self {
        OsReader(osreader)
    }
}

impl From<OsReader> for Vec<u8> {
    fn from(osreader: OsReader) -> (inner: Vec<u8>)
        ensures
            inner@ == osreader@,
    {
        osreader.0
    }
}

impl FromSpecImpl<OsReader> for Vec<u8> {
    open spec fn obeys_from_spec() -> bool {
        true
    }

    closed spec fn from_spec(osreader: OsReader) -> Vec<u8> {
        osreader.0
    }
}

} // verus!
