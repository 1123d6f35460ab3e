//! The two closed error taxonomies, one per direction.
//!
//! Every error is plain data returned to the caller; the first error aborts a
//! whole encode or decode call.  Shape mismatches are reported as a pair of
//! [`WireKind`] tags: the kind that was expected and the kind actually found.

use vstd::prelude::*;

verus! {

/// The vocabulary of wire-value kinds used in error reports: the nine
/// variants a message can have, plus the purely-expected kinds (an enum, a
/// character code point, any self-describing value).
#[derive(Clone, Copy, Debug, PartialEq, Eq, Structural)]
pub enum WireKind {
    /// A boolean node.
    Bool,
    /// A 64-bit float node.
    Double,
    /// A signed 64-bit integer node.
    Int64,
    /// An unsigned 64-bit integer node.
    Uint64,
    /// A text node.
    Str,
    /// An opaque binary node.
    Bytes,
    /// An ordered list node.
    Array,
    /// A keyed dictionary node.
    Dict,
    /// The null / absence node.
    Null,
    /// Expected only: the string-or-dictionary form of an enum variant.
    Enum,
    /// Expected only: a valid Unicode code point.
    Char,
    /// Expected only: any wire value with a natural typed counterpart.
    Any,
}

/// Spec twin of [`SerializeError`]: identical but for the text payload of the
/// catch-all variant, which is a sequence of characters here.
#[verifier::ext_equal]
pub enum SpecSerializeError {
    /// See [`SerializeError::NulInString`].
    NulInString,
    /// See [`SerializeError::InvalidKey`].
    InvalidKey,
    /// See [`SerializeError::MissingKey`].
    MissingKey,
    /// See [`SerializeError::Expected`].
    Expected(WireKind),
    /// See [`SerializeError::Custom`].
    Custom(Seq<char>),
}

/// Everything that can go wrong while encoding a typed value into a wire
/// message.
#[derive(Clone, Debug, PartialEq)]
pub enum SerializeError {
    /// A text value contains an embedded NUL and cannot be carried by the
    /// NUL-terminated wire representation.
    NulInString,
    /// A map key did not encode to a text node.
    InvalidKey,
    /// A map value was supplied before its key (an API-misuse condition of
    /// the map-building accumulator).
    MissingKey,
    /// A specific wire shape was required but not produced.
    Expected(WireKind),
    /// A framework-level ad hoc error carrying free text.
    Custom(String),
}

impl View for SerializeError {
    type V = SpecSerializeError;

    open spec fn view(&self) -> SpecSerializeError {
        match self {
            SerializeError::NulInString => SpecSerializeError::NulInString,
            SerializeError::InvalidKey => SpecSerializeError::InvalidKey,
            SerializeError::MissingKey => SpecSerializeError::MissingKey,
            SerializeError::Expected(k) => SpecSerializeError::Expected(*k),
            SerializeError::Custom(m) => SpecSerializeError::Custom(m@),
        }
    }
}

impl SerializeError {
    /// The free-text escape hatch for caller-defined encoding failures.
    pub fn custom(msg: String) -> (r: SerializeError)
        ensures
            r@ == SpecSerializeError::Custom(msg@),
    {
        SerializeError::Custom(msg)
    }
}

/// Spec twin of [`DeserializeError`]: identical but for the text payload of
/// the catch-all variant.
#[verifier::ext_equal]
pub enum SpecDeserializeError {
    /// See [`DeserializeError::InvalidString`].
    InvalidString,
    /// See [`DeserializeError::Unexpected`].
    Unexpected(WireKind, WireKind),
    /// See [`DeserializeError::EndOfArray`].
    EndOfArray,
    /// See [`DeserializeError::Custom`].
    Custom(Seq<char>),
}

/// Everything that can go wrong while decoding a wire message into a typed
/// value.
#[derive(Clone, Debug, PartialEq)]
pub enum DeserializeError {
    /// A wire text node did not hold valid text.
    InvalidString,
    /// A wire node did not have the requested shape: expected kind, then the
    /// kind actually found.
    Unexpected(WireKind, WireKind),
    /// An accessor was asked for another element or entry but none remain;
    /// also reported when an enum dictionary has no entry at all.
    EndOfArray,
    /// A framework-level ad hoc error carrying free text.
    Custom(String),
}

impl View for DeserializeError {
    type V = SpecDeserializeError;

    open spec fn view(&self) -> SpecDeserializeError {
        match self {
            DeserializeError::InvalidString => SpecDeserializeError::InvalidString,
            DeserializeError::Unexpected(e, a) => SpecDeserializeError::Unexpected(*e, *a),
            DeserializeError::EndOfArray => SpecDeserializeError::EndOfArray,
            DeserializeError::Custom(m) => SpecDeserializeError::Custom(m@),
        }
    }
}

impl DeserializeError {
    /// The free-text escape hatch for caller-defined decoding failures.
    pub fn custom(msg: String) -> (r: DeserializeError)
        ensures
            r@ == SpecDeserializeError::Custom(msg@),
    {
        DeserializeError::Custom(msg)
    }
}

} // verus!
