use vstd::prelude::*;
use crate::error::CodecError;
use crate::field::{
    WireFormat, decode_int, decode_timestamp, encode_timestamp, error_of, int_field,
    lemma_timestamp_round_trip, timestamp_field, timestamp_wire,
};
use crate::record::{check_type_id, type_id_field};
use crate::time::Timestamp;
use crate::value::{absent_before, lemma_lookup_at, lookup, take_fields, DynamicValue};

verus! {

/// The answer to a probe: when the probe was sent, when it was answered, and
/// the latency in milliseconds.
#[derive(Debug)]
pub struct PongPacket {
    /// Always `Self::TYPE`.
    pub packet_type: String,
    pub original_timestamp: Timestamp,
    pub response_timestamp: Timestamp,
    pub latency_ms: i64,
}

impl PongPacket {
    pub const TYPE: &'static str = "/example/PongPacket";

    /// The record carries its own type id, and every instant, time of day and
    /// byte buffer in it can be carried by both wire forms.
    pub open spec fn wf(&self) -> bool {
        &&& self.packet_type@ == Self::TYPE@
        &&& self.original_timestamp.wf()
        &&& self.response_timestamp.wf()
    }

    /// The record with these field values; its type id is `Self::TYPE`.
    pub fn new(
        original_timestamp: Timestamp,
        response_timestamp: Timestamp,
        latency_ms: i64,
    ) -> (p: Self)
        ensures
            p.packet_type@ == Self::TYPE@,
            p.original_timestamp == original_timestamp,
            p.response_timestamp == response_timestamp,
            p.latency_ms == latency_ms,
    {
        PongPacket {
            packet_type: Self::TYPE.to_owned(),
            original_timestamp,
            response_timestamp,
            latency_ms,
        }
    }

    /// The document is an object with the type id first and then each field,
    /// in declaration order, in its wire form.
    pub open spec fn encoded_as(self, doc: DynamicValue, format: WireFormat) -> bool {
        &&& doc is Mapping
        &&& doc->Mapping_0@.len() == 4
        &&& doc->Mapping_0@[0].0@ == "packetType"@
        &&& doc->Mapping_0@[0].1 matches DynamicValue::Text(t) && t@ == Self::TYPE@
        &&& doc->Mapping_0@[1].0@ == "original_timestamp"@
        &&& timestamp_wire(doc->Mapping_0@[1].1, self.original_timestamp, format)
        &&& doc->Mapping_0@[2].0@ == "response_timestamp"@
        &&& timestamp_wire(doc->Mapping_0@[2].1, self.response_timestamp, format)
        &&& doc->Mapping_0@[3].0@ == "latency_ms"@
        &&& doc->Mapping_0@[3].1 == DynamicValue::Int(self.latency_ms)
    }

    /// The error that decoding the document reports, or `None` where it succeeds:
    /// the first failing check among the top-level shape, the type id and the
    /// fields in declaration order.
    pub open spec fn decode_error(doc: DynamicValue, format: WireFormat) -> Option<CodecError> {
        match doc {
            DynamicValue::Mapping(entries) => {
                let es = entries@;
                let e0 = error_of(type_id_field(lookup(es, "packetType"@), Self::TYPE@));
                let e1 = error_of(timestamp_field(lookup(es, "original_timestamp"@), format));
                let e2 = error_of(timestamp_field(lookup(es, "response_timestamp"@), format));
                let e3 = error_of(int_field(lookup(es, "latency_ms"@)));
                if e0 is Some {
                    e0
                } else if e1 is Some {
                    e1
                } else if e2 is Some {
                    e2
                } else if e3 is Some {
                    e3
                } else {
                    None
                }
            },
            _ => Some(CodecError::UnknownTopLevelShape),
        }
    }

    /// The record holds what each field of the document decodes to.
    pub open spec fn decoded_from(self, doc: DynamicValue, format: WireFormat) -> bool {
        &&& doc is Mapping
        &&& self.packet_type@ == Self::TYPE@
        &&& self.original_timestamp == timestamp_field(lookup(doc->Mapping_0@, "original_timestamp"@), format)
            ->Ok_0
        &&& self.response_timestamp == timestamp_field(lookup(doc->Mapping_0@, "response_timestamp"@), format)
            ->Ok_0
        &&& self.latency_ms == int_field(lookup(doc->Mapping_0@, "latency_ms"@))->Ok_0
    }

    /// Equal field for field; buffers and lists are compared by their contents.
    pub open spec fn same_fields(self, other: Self) -> bool {
        &&& self.packet_type@ == other.packet_type@
        &&& self.original_timestamp == other.original_timestamp
        &&& self.response_timestamp == other.response_timestamp
        &&& self.latency_ms == other.latency_ms
    }

    /// Writes the record as a document tree for the given wire form; fails with
    /// `EncodeFailure` exactly where the record is not `wf`.
    pub fn encode(self, format: WireFormat) -> (r: Result<DynamicValue, CodecError>)
        ensures
            r is Ok <==> self.wf(),
            r matches Ok(doc) ==> self.encoded_as(doc, format),
            r matches Err(e) ==> e == CodecError::EncodeFailure,
    {
        let valid = self.packet_type == Self::TYPE.to_owned()
            && self.original_timestamp.is_valid()
            && self.response_timestamp.is_valid();
        if !valid {
            return Err(CodecError::EncodeFailure);
        }
        let mut entries: Vec<(String, DynamicValue)> = Vec::new();
        entries.push(("packetType".to_owned(), DynamicValue::Text(Self::TYPE.to_owned())));
        entries.push(("original_timestamp".to_owned(), encode_timestamp(self.original_timestamp, format)));
        entries.push(("response_timestamp".to_owned(), encode_timestamp(self.response_timestamp, format)));
        entries.push(("latency_ms".to_owned(), DynamicValue::Int(self.latency_ms)));
        Ok(DynamicValue::Mapping(entries))
    }

    /// Reads a record from a document tree of the given wire form. An object
    /// key that names no field is ignored; where a key repeats, its first
    /// entry counts; an optional field may be absent or null.
    pub fn decode(doc: DynamicValue, format: WireFormat) -> (r: Result<Self, CodecError>)
        ensures
            r matches Err(e) ==> Self::decode_error(doc, format) == Some(e),
            r matches Ok(p) ==> Self::decode_error(doc, format) is None && p.decoded_from(doc, format),
    {
        let entries = match doc {
            DynamicValue::Mapping(entries) => entries,
            _ => {
                return Err(CodecError::UnknownTopLevelShape);
            },
        };
        let ghost es = entries@;
        proof {
            reveal_strlit("packetType");
            reveal_strlit("original_timestamp");
            reveal_strlit("response_timestamp");
            reveal_strlit("latency_ms");
            assert("packetType"@.len() == 10);
            assert("original_timestamp"@.len() == 18);
            assert("response_timestamp"@.len() == 18);
            assert("latency_ms"@.len() == 10);
            assert("packetType"@[0] == 'p');
            assert("latency_ms"@[0] == 'l');
            assert("original_timestamp"@[0] == 'o');
            assert("response_timestamp"@[0] == 'r');
        }
        let keys: Vec<String> = vec![
            "packetType".to_owned(),
            "original_timestamp".to_owned(),
            "response_timestamp".to_owned(),
            "latency_ms".to_owned(),
        ];
        let ghost names = seq![
            "packetType"@,
            "original_timestamp"@,
            "response_timestamp"@,
            "latency_ms"@,
        ];
        assert(forall|a: int| 0 <= a < 4 ==> keys@[a]@ == #[trigger] names[a]);
        assert(forall|a: int, b: int|
            0 <= a < b < 4 ==> #[trigger] names[a] != #[trigger] names[b]);
        let mut slots = take_fields(entries, &keys);
        let slot_latency_ms = slots.pop().unwrap();
        let slot_response_timestamp = slots.pop().unwrap();
        let slot_original_timestamp = slots.pop().unwrap();
        let slot_type_id = slots.pop().unwrap();
        match check_type_id(slot_type_id, Self::TYPE) {
            Ok(()) => {},
            Err(e) => {
                return Err(e);
            },
        }
        let original_timestamp = match decode_timestamp(slot_original_timestamp, format) {
            Ok(v) => v,
            Err(e) => {
                return Err(e);
            },
        };
        let response_timestamp = match decode_timestamp(slot_response_timestamp, format) {
            Ok(v) => v,
            Err(e) => {
                return Err(e);
            },
        };
        let latency_ms = match decode_int(slot_latency_ms) {
            Ok(v) => v,
            Err(e) => {
                return Err(e);
            },
        };
        Ok(PongPacket {
            packet_type: Self::TYPE.to_owned(),
            original_timestamp,
            response_timestamp,
            latency_ms,
        })
    }
}

/// Decoding the document that encoding a valid record produced succeeds, and
/// whatever it yields equals the record field for field.
pub proof fn lemma_round_trip(p: PongPacket, doc: DynamicValue, format: WireFormat)
    requires
        p.wf(),
        p.encoded_as(doc, format),
    ensures
        PongPacket::decode_error(doc, format) is None,
        p.decoded_from(doc, format),
        forall|q: PongPacket| #[trigger] q.decoded_from(doc, format) ==> q.same_fields(p),
{
    reveal_strlit("packetType");
    reveal_strlit("original_timestamp");
    reveal_strlit("response_timestamp");
    reveal_strlit("latency_ms");
    assert("packetType"@.len() == 10);
    assert("original_timestamp"@.len() == 18);
    assert("response_timestamp"@.len() == 18);
    assert("latency_ms"@.len() == 10);
    assert("packetType"@[0] == 'p');
    assert("latency_ms"@[0] == 'l');
    assert("original_timestamp"@[0] == 'o');
    assert("response_timestamp"@[0] == 'r');
    let es = doc->Mapping_0@;
    reveal_with_fuel(absent_before, 4);
    lemma_lookup_at(es, 0, "packetType"@);
    lemma_lookup_at(es, 1, "original_timestamp"@);
    lemma_lookup_at(es, 2, "response_timestamp"@);
    lemma_lookup_at(es, 3, "latency_ms"@);
    lemma_timestamp_round_trip(es[1].1, p.original_timestamp, format);
    lemma_timestamp_round_trip(es[2].1, p.response_timestamp, format);
}
} // verus!
