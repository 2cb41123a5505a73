use vstd::prelude::*;

verus! {

/// The one failure a codec reports; a decode never yields part of a record.
#[derive(Debug, Clone, Copy, PartialEq, Eq, Structural)]
pub enum CodecError {
    /// The text or bytes are not a well-formed document of the wire format.
    MalformedInput,
    /// A value is present but its wire shape is not the field's type.
    ShapeMismatch,
    /// A field that is not optional is missing.
    MissingRequiredField,
    /// The document is not a key-value object at its top level.
    UnknownTopLevelShape,
    /// The encoder could not finish.
    EncodeFailure,
}

} // verus!
