use vstd::prelude::*;
use crate::error::CodecError;
use crate::value::DynamicValue;

verus! {

/// What the type-id slot of a document decodes to: it must hold exactly the
/// record kind's type id as text.
pub open spec fn type_id_field(slot: Option<DynamicValue>, expected: Seq<char>) -> Result<
    (),
    CodecError,
> {
    match slot {
        None => Err(CodecError::MissingRequiredField),
        Some(DynamicValue::Text(s)) => if s@ == expected {
            Ok(())
        } else {
            Err(CodecError::ShapeMismatch)
        },
        Some(_) => Err(CodecError::ShapeMismatch),
    }
}

pub(crate) fn check_type_id(slot: Option<DynamicValue>, expected: &str) -> (r: Result<
    (),
    CodecError,
>)
    ensures
        r == type_id_field(slot, expected@),
{
    match slot {
        None => Err(CodecError::MissingRequiredField),
        Some(DynamicValue::Text(s)) => {
            if s == expected.to_owned() {
                Ok(())
            } else {
                Err(CodecError::ShapeMismatch)
            }
        },
        Some(_) => Err(CodecError::ShapeMismatch),
    }
}

} // verus!
