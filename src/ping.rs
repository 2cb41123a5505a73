use vstd::prelude::*;
use crate::error::CodecError;
use crate::field::{
    WireFormat, decode_text, decode_timestamp, encode_timestamp, error_of,
    lemma_timestamp_round_trip, text_field, timestamp_field, timestamp_wire,
};
use crate::record::{check_type_id, type_id_field};
use crate::time::Timestamp;
use crate::value::{absent_before, lemma_lookup_at, lookup, take_fields, DynamicValue};

verus! {

/// A liveness probe: when it was sent and a free-form message.
#[derive(Debug)]
pub struct PingPacket {
    /// Always `Self::TYPE`.
    pub packet_type: String,
    pub timestamp: Timestamp,
    pub message: String,
}

impl PingPacket {
    pub const TYPE: &'static str = "/example/PingPacket";

    /// The record carries its own type id, and every instant, time of day and
    /// byte buffer in it can be carried by both wire forms.
    pub open spec fn wf(&self) -> bool {
        &&& self.packet_type@ == Self::TYPE@
        &&& self.timestamp.wf()
    }

    /// The record with these field values; its type id is `Self::TYPE`.
    pub fn new(timestamp: Timestamp, message: String) -> (p: Self)
        ensures
            p.packet_type@ == Self::TYPE@,
            p.timestamp == timestamp,
            p.message == message,
    {
        PingPacket {
            packet_type: Self::TYPE.to_owned(),
            timestamp,
            message,
        }
    }

    /// The document is an object with the type id first and then each field,
    /// in declaration order, in its wire form.
    pub open spec fn encoded_as(self, doc: DynamicValue, format: WireFormat) -> bool {
        &&& doc is Mapping
        &&& doc->Mapping_0@.len() == 3
        &&& doc->Mapping_0@[0].0@ == "packetType"@
        &&& doc->Mapping_0@[0].1 matches DynamicValue::Text(t) && t@ == Self::TYPE@
        &&& doc->Mapping_0@[1].0@ == "timestamp"@
        &&& timestamp_wire(doc->Mapping_0@[1].1, self.timestamp, format)
        &&& doc->Mapping_0@[2].0@ == "message"@
        &&& doc->Mapping_0@[2].1 == DynamicValue::Text(self.message)
    }

    /// The error that decoding the document reports, or `None` where it succeeds:
    /// the first failing check among the top-level shape, the type id and the
    /// fields in declaration order.
    pub open spec fn decode_error(doc: DynamicValue, format: WireFormat) -> Option<CodecError> {
        match doc {
            DynamicValue::Mapping(entries) => {
                let es = entries@;
                let e0 = error_of(type_id_field(lookup(es, "packetType"@), Self::TYPE@));
                let e1 = error_of(timestamp_field(lookup(es, "timestamp"@), format));
                let e2 = error_of(text_field(lookup(es, "message"@)));
                if e0 is Some {
                    e0
                } else if e1 is Some {
                    e1
                } else if e2 is Some {
                    e2
                } else {
                    None
                }
            },
            _ => Some(CodecError::UnknownTopLevelShape),
        }
    }

    /// The record holds what each field of the document decodes to.
    pub open spec fn decoded_from(self, doc: DynamicValue, format: WireFormat) -> bool {
        &&& doc is Mapping
        &&& self.packet_type@ == Self::TYPE@
        &&& self.timestamp == timestamp_field(lookup(doc->Mapping_0@, "timestamp"@), format)->Ok_0
        &&& self.message == text_field(lookup(doc->Mapping_0@, "message"@))->Ok_0
    }

    /// Equal field for field; buffers and lists are compared by their contents.
    pub open spec fn same_fields(self, other: Self) -> bool {
        &&& self.packet_type@ == other.packet_type@
        &&& self.timestamp == other.timestamp
        &&& self.message == other.message
    }

    /// Writes the record as a document tree for the given wire form; fails with
    /// `EncodeFailure` exactly where the record is not `wf`.
    pub fn encode(self, format: WireFormat) -> (r: Result<DynamicValue, CodecError>)
        ensures
            r is Ok <==> self.wf(),
            r matches Ok(doc) ==> self.encoded_as(doc, format),
            r matches Err(e) ==> e == CodecError::EncodeFailure,
    {
        let valid = self.packet_type == Self::TYPE.to_owned()
            && self.timestamp.is_valid();
        if !valid {
            return Err(CodecError::EncodeFailure);
        }
        let mut entries: Vec<(String, DynamicValue)> = Vec::new();
        entries.push(("packetType".to_owned(), DynamicValue::Text(Self::TYPE.to_owned())));
        entries.push(("timestamp".to_owned(), encode_timestamp(self.timestamp, format)));
        entries.push(("message".to_owned(), DynamicValue::Text(self.message)));
        Ok(DynamicValue::Mapping(entries))
    }

    /// Reads a record from a document tree of the given wire form. An object
    /// key that names no field is ignored; where a key repeats, its first
    /// entry counts; an optional field may be absent or null.
    pub fn decode(doc: DynamicValue, format: WireFormat) -> (r: Result<Self, CodecError>)
        ensures
            r matches Err(e) ==> Self::decode_error(doc, format) == Some(e),
            r matches Ok(p) ==> Self::decode_error(doc, format) is None && p.decoded_from(doc, format),
    {
        let entries = match doc {
            DynamicValue::Mapping(entries) => entries,
            _ => {
                return Err(CodecError::UnknownTopLevelShape);
            },
        };
        let ghost es = entries@;
        proof {
            reveal_strlit("packetType");
            reveal_strlit("timestamp");
            reveal_strlit("message");
            assert("packetType"@.len() == 10);
            assert("timestamp"@.len() == 9);
            assert("message"@.len() == 7);
        }
        let keys: Vec<String> = vec![
            "packetType".to_owned(),
            "timestamp".to_owned(),
            "message".to_owned(),
        ];
        let ghost names = seq!["packetType"@, "timestamp"@, "message"@];
        assert(forall|a: int| 0 <= a < 3 ==> keys@[a]@ == #[trigger] names[a]);
        assert(forall|a: int, b: int|
            0 <= a < b < 3 ==> #[trigger] names[a] != #[trigger] names[b]);
        let mut slots = take_fields(entries, &keys);
        let slot_message = slots.pop().unwrap();
        let slot_timestamp = slots.pop().unwrap();
        let slot_type_id = slots.pop().unwrap();
        match check_type_id(slot_type_id, Self::TYPE) {
            Ok(()) => {},
            Err(e) => {
                return Err(e);
            },
        }
        let timestamp = match decode_timestamp(slot_timestamp, format) {
            Ok(v) => v,
            Err(e) => {
                return Err(e);
            },
        };
        let message = match decode_text(slot_message) {
            Ok(v) => v,
            Err(e) => {
                return Err(e);
            },
        };
        Ok(PingPacket {
            packet_type: Self::TYPE.to_owned(),
            timestamp,
            message,
        })
    }
}

/// Decoding the document that encoding a valid record produced succeeds, and
/// whatever it yields equals the record field for field.
pub proof fn lemma_round_trip(p: PingPacket, doc: DynamicValue, format: WireFormat)
    requires
        p.wf(),
        p.encoded_as(doc, format),
    ensures
        PingPacket::decode_error(doc, format) is None,
        p.decoded_from(doc, format),
        forall|q: PingPacket| #[trigger] q.decoded_from(doc, format) ==> q.same_fields(p),
{
    reveal_strlit("packetType");
    reveal_strlit("timestamp");
    reveal_strlit("message");
    assert("packetType"@.len() == 10);
    assert("timestamp"@.len() == 9);
    assert("message"@.len() == 7);
    let es = doc->Mapping_0@;
    reveal_with_fuel(absent_before, 3);
    lemma_lookup_at(es, 0, "packetType"@);
    lemma_lookup_at(es, 1, "timestamp"@);
    lemma_lookup_at(es, 2, "message"@);
    lemma_timestamp_round_trip(es[1].1, p.timestamp, format);
}
} // verus!
