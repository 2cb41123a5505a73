use vstd::prelude::*;
use crate::error::CodecError;
use crate::field::{
    WireFormat, decode_text, decode_timestamp, encode_timestamp, error_of,
    lemma_timestamp_round_trip, text_field, timestamp_field, timestamp_wire,
};
use crate::record::{check_type_id, type_id_field};
use crate::time::Timestamp;
use crate::value::{absent_before, lemma_lookup_at, lookup, take_fields, DynamicValue};

verus! {

/// A chat message from a sender.
#[derive(Debug)]
pub struct MessagePacket {
    /// Always `Self::TYPE`.
    pub packet_type: String,
    pub sender_id: String,
    pub content: String,
    pub timestamp: Timestamp,
}

impl MessagePacket {
    pub const TYPE: &'static str = "/chat/MessagePacket";

    /// The record carries its own type id, and every instant, time of day and
    /// byte buffer in it can be carried by both wire forms.
    pub open spec fn wf(&self) -> bool {
        &&& self.packet_type@ == Self::TYPE@
        &&& self.timestamp.wf()
    }

    /// The record with these field values; its type id is `Self::TYPE`.
    pub fn new(sender_id: String, content: String, timestamp: Timestamp) -> (p: Self)
        ensures
            p.packet_type@ == Self::TYPE@,
            p.sender_id == sender_id,
            p.content == content,
            p.timestamp == timestamp,
    {
        MessagePacket {
            packet_type: Self::TYPE.to_owned(),
            sender_id,
            content,
            timestamp,
        }
    }

    /// The document is an object with the type id first and then each field,
    /// in declaration order, in its wire form.
    pub open spec fn encoded_as(self, doc: DynamicValue, format: WireFormat) -> bool {
        &&& doc is Mapping
        &&& doc->Mapping_0@.len() == 4
        &&& doc->Mapping_0@[0].0@ == "packetType"@
        &&& doc->Mapping_0@[0].1 matches DynamicValue::Text(t) && t@ == Self::TYPE@
        &&& doc->Mapping_0@[1].0@ == "sender_id"@
        &&& doc->Mapping_0@[1].1 == DynamicValue::Text(self.sender_id)
        &&& doc->Mapping_0@[2].0@ == "content"@
        &&& doc->Mapping_0@[2].1 == DynamicValue::Text(self.content)
        &&& doc->Mapping_0@[3].0@ == "timestamp"@
        &&& timestamp_wire(doc->Mapping_0@[3].1, self.timestamp, format)
    }

    /// The error that decoding the document reports, or `None` where it succeeds:
    /// the first failing check among the top-level shape, the type id and the
    /// fields in declaration order.
    pub open spec fn decode_error(doc: DynamicValue, format: WireFormat) -> Option<CodecError> {
        match doc {
            DynamicValue::Mapping(entries) => {
                let es = entries@;
                let e0 = error_of(type_id_field(lookup(es, "packetType"@), Self::TYPE@));
                let e1 = error_of(text_field(lookup(es, "sender_id"@)));
                let e2 = error_of(text_field(lookup(es, "content"@)));
                let e3 = error_of(timestamp_field(lookup(es, "timestamp"@), format));
                if e0 is Some {
                    e0
                } else if e1 is Some {
                    e1
                } else if e2 is Some {
                    e2
                } else if e3 is Some {
                    e3
                } else {
                    None
                }
            },
            _ => Some(CodecError::UnknownTopLevelShape),
        }
    }

    /// The record holds what each field of the document decodes to.
    pub open spec fn decoded_from(self, doc: DynamicValue, format: WireFormat) -> bool {
        &&& doc is Mapping
        &&& self.packet_type@ == Self::TYPE@
        &&& self.sender_id == text_field(lookup(doc->Mapping_0@, "sender_id"@))->Ok_0
        &&& self.content == text_field(lookup(doc->Mapping_0@, "content"@))->Ok_0
        &&& self.timestamp == timestamp_field(lookup(doc->Mapping_0@, "timestamp"@), format)->Ok_0
    }

    /// Equal field for field; buffers and lists are compared by their contents.
    pub open spec fn same_fields(self, other: Self) -> bool {
        &&& self.packet_type@ == other.packet_type@
        &&& self.sender_id == other.sender_id
        &&& self.content == other.content
        &&& self.timestamp == other.timestamp
    }

    /// Writes the record as a document tree for the given wire form; fails with
    /// `EncodeFailure` exactly where the record is not `wf`.
    pub fn encode(self, format: WireFormat) -> (r: Result<DynamicValue, CodecError>)
        ensures
            r is Ok <==> self.wf(),
            r matches Ok(doc) ==> self.encoded_as(doc, format),
            r matches Err(e) ==> e == CodecError::EncodeFailure,
    {
        let valid = self.packet_type == Self::TYPE.to_owned()
            && self.timestamp.is_valid();
        if !valid {
            return Err(CodecError::EncodeFailure);
        }
        let mut entries: Vec<(String, DynamicValue)> = Vec::new();
        entries.push(("packetType".to_owned(), DynamicValue::Text(Self::TYPE.to_owned())));
        entries.push(("sender_id".to_owned(), DynamicValue::Text(self.sender_id)));
        entries.push(("content".to_owned(), DynamicValue::Text(self.content)));
        entries.push(("timestamp".to_owned(), encode_timestamp(self.timestamp, format)));
        Ok(DynamicValue::Mapping(entries))
    }

    /// Reads a record from a document tree of the given wire form. An object
    /// key that names no field is ignored; where a key repeats, its first
    /// entry counts; an optional field may be absent or null.
    pub fn decode(doc: DynamicValue, format: WireFormat) -> (r: Result<Self, CodecError>)
        ensures
            r matches Err(e) ==> Self::decode_error(doc, format) == Some(e),
            r matches Ok(p) ==> Self::decode_error(doc, format) is None && p.decoded_from(doc, format),
    {
        let entries = match doc {
            DynamicValue::Mapping(entries) => entries,
            _ => {
                return Err(CodecError::UnknownTopLevelShape);
            },
        };
        let ghost es = entries@;
        proof {
            reveal_strlit("packetType");
            reveal_strlit("sender_id");
            reveal_strlit("content");
            reveal_strlit("timestamp");
            assert("packetType"@.len() == 10);
            assert("sender_id"@.len() == 9);
            assert("content"@.len() == 7);
            assert("timestamp"@.len() == 9);
            assert("sender_id"@[0] == 's');
            assert("timestamp"@[0] == 't');
        }
        let keys: Vec<String> = vec![
            "packetType".to_owned(),
            "sender_id".to_owned(),
            "content".to_owned(),
            "timestamp".to_owned(),
        ];
        let ghost names = seq!["packetType"@, "sender_id"@, "content"@, "timestamp"@];
        assert(forall|a: int| 0 <= a < 4 ==> keys@[a]@ == #[trigger] names[a]);
        assert(forall|a: int, b: int|
            0 <= a < b < 4 ==> #[trigger] names[a] != #[trigger] names[b]);
        let mut slots = take_fields(entries, &keys);
        let slot_timestamp = slots.pop().unwrap();
        let slot_content = slots.pop().unwrap();
        let slot_sender_id = slots.pop().unwrap();
        let slot_type_id = slots.pop().unwrap();
        match check_type_id(slot_type_id, Self::TYPE) {
            Ok(()) => {},
            Err(e) => {
                return Err(e);
            },
        }
        let sender_id = match decode_text(slot_sender_id) {
            Ok(v) => v,
            Err(e) => {
                return Err(e);
            },
        };
        let content = match decode_text(slot_content) {
            Ok(v) => v,
            Err(e) => {
                return Err(e);
            },
        };
        let timestamp = match decode_timestamp(slot_timestamp, format) {
            Ok(v) => v,
            Err(e) => {
                return Err(e);
            },
        };
        Ok(MessagePacket {
            packet_type: Self::TYPE.to_owned(),
            sender_id,
            content,
            timestamp,
        })
    }
}

/// Decoding the document that encoding a valid record produced succeeds, and
/// whatever it yields equals the record field for field.
pub proof fn lemma_round_trip(p: MessagePacket, doc: DynamicValue, format: WireFormat)
    requires
        p.wf(),
        p.encoded_as(doc, format),
    ensures
        MessagePacket::decode_error(doc, format) is None,
        p.decoded_from(doc, format),
        forall|q: MessagePacket| #[trigger] q.decoded_from(doc, format) ==> q.same_fields(p),
{
    reveal_strlit("packetType");
    reveal_strlit("sender_id");
    reveal_strlit("content");
    reveal_strlit("timestamp");
    assert("packetType"@.len() == 10);
    assert("sender_id"@.len() == 9);
    assert("content"@.len() == 7);
    assert("timestamp"@.len() == 9);
    assert("sender_id"@[0] == 's');
    assert("timestamp"@[0] == 't');
    let es = doc->Mapping_0@;
    reveal_with_fuel(absent_before, 4);
    lemma_lookup_at(es, 0, "packetType"@);
    lemma_lookup_at(es, 1, "sender_id"@);
    lemma_lookup_at(es, 2, "content"@);
    lemma_lookup_at(es, 3, "timestamp"@);
    lemma_timestamp_round_trip(es[3].1, p.timestamp, format);
}
} // verus!
