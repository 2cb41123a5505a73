use vstd::prelude::*;
use crate::comprehensive::ComprehensivePacket;
use crate::data_chunk::DataChunkPacket;
use crate::error::CodecError;
use crate::field::WireFormat;
use crate::message::MessagePacket;
use crate::ping::PingPacket;
use crate::pong::PongPacket;
use crate::secure_message::SecureMessagePacket;
use crate::user_profile::UserProfilePacket;
use crate::value::DynamicValue;

verus! {

/// Every record kind rejects a document that is not an object as an unknown
/// top-level shape, and an empty object as missing a required field.
pub proof fn lemma_malformed_documents_rejected(doc: DynamicValue, format: WireFormat)
    ensures
        !(doc is Mapping) ==> {
            &&& PingPacket::decode_error(doc, format) == Some(CodecError::UnknownTopLevelShape)
            &&& PongPacket::decode_error(doc, format) == Some(CodecError::UnknownTopLevelShape)
            &&& MessagePacket::decode_error(doc, format) == Some(CodecError::UnknownTopLevelShape)
            &&& DataChunkPacket::decode_error(doc, format) == Some(CodecError::UnknownTopLevelShape)
            &&& ComprehensivePacket::decode_error(doc, format) == Some(
                CodecError::UnknownTopLevelShape,
            )
            &&& UserProfilePacket::decode_error(doc, format) == Some(
                CodecError::UnknownTopLevelShape,
            )
            &&& SecureMessagePacket::decode_error(doc, format) == Some(
                CodecError::UnknownTopLevelShape,
            )
        },
        doc matches DynamicValue::Mapping(entries) && entries@.len() == 0 ==> {
            &&& PingPacket::decode_error(doc, format) == Some(CodecError::MissingRequiredField)
            &&& PongPacket::decode_error(doc, format) == Some(CodecError::MissingRequiredField)
            &&& MessagePacket::decode_error(doc, format) == Some(CodecError::MissingRequiredField)
            &&& DataChunkPacket::decode_error(doc, format) == Some(CodecError::MissingRequiredField)
            &&& ComprehensivePacket::decode_error(doc, format) == Some(
                CodecError::MissingRequiredField,
            )
            &&& UserProfilePacket::decode_error(doc, format) == Some(
                CodecError::MissingRequiredField,
            )
            &&& SecureMessagePacket::decode_error(doc, format) == Some(
                CodecError::MissingRequiredField,
            )
        },
{
}

} // verus!
