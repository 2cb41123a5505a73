use vstd::prelude::*;
use crate::error::CodecError;
use crate::field::{
    WireFormat, decode_int, decode_mapping, decode_text, error_of, int_field, mapping_field,
    text_field,
};
use crate::record::{check_type_id, type_id_field};
use crate::value::{absent_before, lemma_lookup_at, lookup, take_fields, DynamicValue};

verus! {

/// One chunk of a larger transfer, with its position, free-form data and a
/// checksum.
#[derive(Debug)]
pub struct DataChunkPacket {
    /// Always `Self::TYPE`.
    pub packet_type: String,
    pub chunk_index: i64,
    pub total_chunks: i64,
    /// Keyed free-form values.
    pub data: Vec<(String, DynamicValue)>,
    pub checksum: String,
}

impl DataChunkPacket {
    pub const TYPE: &'static str = "/example/DataChunkPacket";

    /// The record carries its own type id, and every instant, time of day and
    /// byte buffer in it can be carried by both wire forms.
    pub open spec fn wf(&self) -> bool {
        &&& self.packet_type@ == Self::TYPE@
    }

    /// The record with these field values; its type id is `Self::TYPE`.
    pub fn new(
        chunk_index: i64,
        total_chunks: i64,
        data: Vec<(String, DynamicValue)>,
        checksum: String,
    ) -> (p: Self)
        ensures
            p.packet_type@ == Self::TYPE@,
            p.chunk_index == chunk_index,
            p.total_chunks == total_chunks,
            p.data == data,
            p.checksum == checksum,
    {
        DataChunkPacket {
            packet_type: Self::TYPE.to_owned(),
            chunk_index,
            total_chunks,
            data,
            checksum,
        }
    }

    /// The document is an object with the type id first and then each field,
    /// in declaration order, in its wire form.
    pub open spec fn encoded_as(self, doc: DynamicValue, format: WireFormat) -> bool {
        &&& doc is Mapping
        &&& doc->Mapping_0@.len() == 5
        &&& doc->Mapping_0@[0].0@ == "packetType"@
        &&& doc->Mapping_0@[0].1 matches DynamicValue::Text(t) && t@ == Self::TYPE@
        &&& doc->Mapping_0@[1].0@ == "chunk_index"@
        &&& doc->Mapping_0@[1].1 == DynamicValue::Int(self.chunk_index)
        &&& doc->Mapping_0@[2].0@ == "total_chunks"@
        &&& doc->Mapping_0@[2].1 == DynamicValue::Int(self.total_chunks)
        &&& doc->Mapping_0@[3].0@ == "data"@
        &&& doc->Mapping_0@[3].1 == DynamicValue::Mapping(self.data)
        &&& doc->Mapping_0@[4].0@ == "checksum"@
        &&& doc->Mapping_0@[4].1 == DynamicValue::Text(self.checksum)
    }

    /// The error that decoding the document reports, or `None` where it succeeds:
    /// the first failing check among the top-level shape, the type id and the
    /// fields in declaration order.
    pub open spec fn decode_error(doc: DynamicValue, format: WireFormat) -> Option<CodecError> {
        match doc {
            DynamicValue::Mapping(entries) => {
                let es = entries@;
                let e0 = error_of(type_id_field(lookup(es, "packetType"@), Self::TYPE@));
                let e1 = error_of(int_field(lookup(es, "chunk_index"@)));
                let e2 = error_of(int_field(lookup(es, "total_chunks"@)));
                let e3 = error_of(mapping_field(lookup(es, "data"@)));
                let e4 = error_of(text_field(lookup(es, "checksum"@)));
                if e0 is Some {
                    e0
                } else if e1 is Some {
                    e1
                } else if e2 is Some {
                    e2
                } else if e3 is Some {
                    e3
                } else if e4 is Some {
                    e4
                } else {
                    None
                }
            },
            _ => Some(CodecError::UnknownTopLevelShape),
        }
    }

    /// The record holds what each field of the document decodes to.
    pub open spec fn decoded_from(self, doc: DynamicValue, format: WireFormat) -> bool {
        &&& doc is Mapping
        &&& self.packet_type@ == Self::TYPE@
        &&& self.chunk_index == int_field(lookup(doc->Mapping_0@, "chunk_index"@))->Ok_0
        &&& self.total_chunks == int_field(lookup(doc->Mapping_0@, "total_chunks"@))->Ok_0
        &&& self.data == mapping_field(lookup(doc->Mapping_0@, "data"@))->Ok_0
        &&& self.checksum == text_field(lookup(doc->Mapping_0@, "checksum"@))->Ok_0
    }

    /// Equal field for field; buffers and lists are compared by their contents.
    pub open spec fn same_fields(self, other: Self) -> bool {
        &&& self.packet_type@ == other.packet_type@
        &&& self.chunk_index == other.chunk_index
        &&& self.total_chunks == other.total_chunks
        &&& self.data == other.data
        &&& self.checksum == other.checksum
    }

    /// Writes the record as a document tree for the given wire form; fails with
    /// `EncodeFailure` exactly where the record is not `wf`.
    pub fn encode(self, format: WireFormat) -> (r: Result<DynamicValue, CodecError>)
        ensures
            r is Ok <==> self.wf(),
            r matches Ok(doc) ==> self.encoded_as(doc, format),
            r matches Err(e) ==> e == CodecError::EncodeFailure,
    {
        let valid = self.packet_type == Self::TYPE.to_owned();
        if !valid {
            return Err(CodecError::EncodeFailure);
        }
        let mut entries: Vec<(String, DynamicValue)> = Vec::new();
        entries.push(("packetType".to_owned(), DynamicValue::Text(Self::TYPE.to_owned())));
        entries.push(("chunk_index".to_owned(), DynamicValue::Int(self.chunk_index)));
        entries.push(("total_chunks".to_owned(), DynamicValue::Int(self.total_chunks)));
        entries.push(("data".to_owned(), DynamicValue::Mapping(self.data)));
        entries.push(("checksum".to_owned(), DynamicValue::Text(self.checksum)));
        Ok(DynamicValue::Mapping(entries))
    }

    /// Reads a record from a document tree of the given wire form. An object
    /// key that names no field is ignored; where a key repeats, its first
    /// entry counts; an optional field may be absent or null.
    pub fn decode(doc: DynamicValue, format: WireFormat) -> (r: Result<Self, CodecError>)
        ensures
            r matches Err(e) ==> Self::decode_error(doc, format) == Some(e),
            r matches Ok(p) ==> Self::decode_error(doc, format) is None && p.decoded_from(doc, format),
    {
        let entries = match doc {
            DynamicValue::Mapping(entries) => entries,
            _ => {
                return Err(CodecError::UnknownTopLevelShape);
            },
        };
        let ghost es = entries@;
        proof {
            reveal_strlit("packetType");
            reveal_strlit("chunk_index");
            reveal_strlit("total_chunks");
            reveal_strlit("data");
            reveal_strlit("checksum");
            assert("packetType"@.len() == 10);
            assert("chunk_index"@.len() == 11);
            assert("total_chunks"@.len() == 12);
            assert("data"@.len() == 4);
            assert("checksum"@.len() == 8);
        }
        let keys: Vec<String> = vec![
            "packetType".to_owned(),
            "chunk_index".to_owned(),
            "total_chunks".to_owned(),
            "data".to_owned(),
            "checksum".to_owned(),
        ];
        let ghost names = seq!["packetType"@, "chunk_index"@, "total_chunks"@, "data"@, "checksum"@];
        assert(forall|a: int| 0 <= a < 5 ==> keys@[a]@ == #[trigger] names[a]);
        assert(forall|a: int, b: int|
            0 <= a < b < 5 ==> #[trigger] names[a] != #[trigger] names[b]);
        let mut slots = take_fields(entries, &keys);
        let slot_checksum = slots.pop().unwrap();
        let slot_data = slots.pop().unwrap();
        let slot_total_chunks = slots.pop().unwrap();
        let slot_chunk_index = slots.pop().unwrap();
        let slot_type_id = slots.pop().unwrap();
        match check_type_id(slot_type_id, Self::TYPE) {
            Ok(()) => {},
            Err(e) => {
                return Err(e);
            },
        }
        let chunk_index = match decode_int(slot_chunk_index) {
            Ok(v) => v,
            Err(e) => {
                return Err(e);
            },
        };
        let total_chunks = match decode_int(slot_total_chunks) {
            Ok(v) => v,
            Err(e) => {
                return Err(e);
            },
        };
        let data = match decode_mapping(slot_data) {
            Ok(v) => v,
            Err(e) => {
                return Err(e);
            },
        };
        let checksum = match decode_text(slot_checksum) {
            Ok(v) => v,
            Err(e) => {
                return Err(e);
            },
        };
        Ok(DataChunkPacket {
            packet_type: Self::TYPE.to_owned(),
            chunk_index,
            total_chunks,
            data,
            checksum,
        })
    }
}

/// Decoding the document that encoding a valid record produced succeeds, and
/// whatever it yields equals the record field for field.
pub proof fn lemma_round_trip(p: DataChunkPacket, doc: DynamicValue, format: WireFormat)
    requires
        p.wf(),
        p.encoded_as(doc, format),
    ensures
        DataChunkPacket::decode_error(doc, format) is None,
        p.decoded_from(doc, format),
        forall|q: DataChunkPacket| #[trigger] q.decoded_from(doc, format) ==> q.same_fields(p),
{
    reveal_strlit("packetType");
    reveal_strlit("chunk_index");
    reveal_strlit("total_chunks");
    reveal_strlit("data");
    reveal_strlit("checksum");
    assert("packetType"@.len() == 10);
    assert("chunk_index"@.len() == 11);
    assert("total_chunks"@.len() == 12);
    assert("data"@.len() == 4);
    assert("checksum"@.len() == 8);
    let es = doc->Mapping_0@;
    reveal_with_fuel(absent_before, 5);
    lemma_lookup_at(es, 0, "packetType"@);
    lemma_lookup_at(es, 1, "chunk_index"@);
    lemma_lookup_at(es, 2, "total_chunks"@);
    lemma_lookup_at(es, 3, "data"@);
    lemma_lookup_at(es, 4, "checksum"@);
}
} // verus!
