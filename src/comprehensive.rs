use vstd::prelude::*;
use crate::error::CodecError;
use crate::field::{
    Float64, WireFormat, bool_field, bytes_field, bytes_wire, clock_field, clock_wire, decode_bool,
    decode_bytes, decode_clock, decode_float, decode_int, decode_int_list, decode_list,
    decode_mapping, decode_text, decode_text_list, decode_timestamp, encode_bytes, encode_clock,
    encode_int_list, encode_text_list, encode_timestamp, error_of, float_field, int_field,
    int_list_field, int_list_wire, lemma_bytes_round_trip, lemma_clock_round_trip,
    lemma_int_list_round_trip, lemma_text_list_round_trip, lemma_timestamp_round_trip, list_field,
    mapping_field, text_field, text_list_field, text_list_wire, timestamp_field, timestamp_wire,
};
use crate::record::{check_type_id, type_id_field};
use crate::time::{Timestamp, WallClockTime};
use crate::value::{absent_before, lemma_lookup_at, lookup, take_fields, DynamicValue};

verus! {

/// A record with one field of every field type.
#[derive(Debug)]
pub struct ComprehensivePacket {
    /// Always `Self::TYPE`.
    pub packet_type: String,
    pub int_field: i64,
    pub float_field: Float64,
    pub double_field: Float64,
    pub string_field: String,
    pub bool_field: bool,
    pub datetime_field: Timestamp,
    pub time_field: WallClockTime,
    pub list_field: Vec<DynamicValue>,
    pub list_int_field: Vec<i64>,
    pub list_string_field: Vec<String>,
    pub map_field: Vec<(String, DynamicValue)>,
    pub embedded_map_field: Vec<(String, DynamicValue)>,
    pub map_string_dynamic_field: Vec<(String, DynamicValue)>,
    pub bytes_field: Vec<u8>,
}

impl ComprehensivePacket {
    pub const TYPE: &'static str = "/test/ComprehensivePacket";

    /// The record carries its own type id, and every instant, time of day and
    /// byte buffer in it can be carried by both wire forms.
    pub open spec fn wf(&self) -> bool {
        &&& self.packet_type@ == Self::TYPE@
        &&& self.datetime_field.wf()
        &&& self.time_field.wf()
        &&& 2 * self.bytes_field@.len() <= usize::MAX
    }

    /// The record with these field values; its type id is `Self::TYPE`.
    pub fn new(
        int_field: i64,
        float_field: Float64,
        double_field: Float64,
        string_field: String,
        bool_field: bool,
        datetime_field: Timestamp,
        time_field: WallClockTime,
        list_field: Vec<DynamicValue>,
        list_int_field: Vec<i64>,
        list_string_field: Vec<String>,
        map_field: Vec<(String, DynamicValue)>,
        embedded_map_field: Vec<(String, DynamicValue)>,
        map_string_dynamic_field: Vec<(String, DynamicValue)>,
        bytes_field: Vec<u8>,
    ) -> (p: Self)
        ensures
            p.packet_type@ == Self::TYPE@,
            p.int_field == int_field,
            p.float_field == float_field,
            p.double_field == double_field,
            p.string_field == string_field,
            p.bool_field == bool_field,
            p.datetime_field == datetime_field,
            p.time_field == time_field,
            p.list_field == list_field,
            p.list_int_field == list_int_field,
            p.list_string_field == list_string_field,
            p.map_field == map_field,
            p.embedded_map_field == embedded_map_field,
            p.map_string_dynamic_field == map_string_dynamic_field,
            p.bytes_field == bytes_field,
    {
        ComprehensivePacket {
            packet_type: Self::TYPE.to_owned(),
            int_field,
            float_field,
            double_field,
            string_field,
            bool_field,
            datetime_field,
            time_field,
            list_field,
            list_int_field,
            list_string_field,
            map_field,
            embedded_map_field,
            map_string_dynamic_field,
            bytes_field,
        }
    }

    /// The document is an object with the type id first and then each field,
    /// in declaration order, in its wire form.
    pub open spec fn encoded_as(self, doc: DynamicValue, format: WireFormat) -> bool {
        &&& doc is Mapping
        &&& doc->Mapping_0@.len() == 15
        &&& doc->Mapping_0@[0].0@ == "packetType"@
        &&& doc->Mapping_0@[0].1 matches DynamicValue::Text(t) && t@ == Self::TYPE@
        &&& doc->Mapping_0@[1].0@ == "int_field"@
        &&& doc->Mapping_0@[1].1 == DynamicValue::Int(self.int_field)
        &&& doc->Mapping_0@[2].0@ == "float_field"@
        &&& doc->Mapping_0@[2].1 == DynamicValue::Float(self.float_field.bits)
        &&& doc->Mapping_0@[3].0@ == "double_field"@
        &&& doc->Mapping_0@[3].1 == DynamicValue::Float(self.double_field.bits)
        &&& doc->Mapping_0@[4].0@ == "string_field"@
        &&& doc->Mapping_0@[4].1 == DynamicValue::Text(self.string_field)
        &&& doc->Mapping_0@[5].0@ == "bool_field"@
        &&& doc->Mapping_0@[5].1 == DynamicValue::Bool(self.bool_field)
        &&& doc->Mapping_0@[6].0@ == "datetime_field"@
        &&& timestamp_wire(doc->Mapping_0@[6].1, self.datetime_field, format)
        &&& doc->Mapping_0@[7].0@ == "time_field"@
        &&& clock_wire(doc->Mapping_0@[7].1, self.time_field, format)
        &&& doc->Mapping_0@[8].0@ == "list_field"@
        &&& doc->Mapping_0@[8].1 == DynamicValue::List(self.list_field)
        &&& doc->Mapping_0@[9].0@ == "list_int_field"@
        &&& int_list_wire(doc->Mapping_0@[9].1, self.list_int_field@)
        &&& doc->Mapping_0@[10].0@ == "list_string_field"@
        &&& text_list_wire(doc->Mapping_0@[10].1, self.list_string_field@)
        &&& doc->Mapping_0@[11].0@ == "map_field"@
        &&& doc->Mapping_0@[11].1 == DynamicValue::Mapping(self.map_field)
        &&& doc->Mapping_0@[12].0@ == "embedded_map_field"@
        &&& doc->Mapping_0@[12].1 == DynamicValue::Mapping(self.embedded_map_field)
        &&& doc->Mapping_0@[13].0@ == "map_string_dynamic_field"@
        &&& doc->Mapping_0@[13].1 == DynamicValue::Mapping(self.map_string_dynamic_field)
        &&& doc->Mapping_0@[14].0@ == "bytes_field"@
        &&& bytes_wire(doc->Mapping_0@[14].1, self.bytes_field@, format)
    }

    /// The error that decoding the document reports, or `None` where it succeeds:
    /// the first failing check among the top-level shape, the type id and the
    /// fields in declaration order.
    pub open spec fn decode_error(doc: DynamicValue, format: WireFormat) -> Option<CodecError> {
        match doc {
            DynamicValue::Mapping(entries) => {
                let es = entries@;
                let e0 = error_of(type_id_field(lookup(es, "packetType"@), Self::TYPE@));
                let e1 = error_of(int_field(lookup(es, "int_field"@)));
                let e2 = error_of(float_field(lookup(es, "float_field"@)));
                let e3 = error_of(float_field(lookup(es, "double_field"@)));
                let e4 = error_of(text_field(lookup(es, "string_field"@)));
                let e5 = error_of(bool_field(lookup(es, "bool_field"@)));
                let e6 = error_of(timestamp_field(lookup(es, "datetime_field"@), format));
                let e7 = error_of(clock_field(lookup(es, "time_field"@), format));
                let e8 = error_of(list_field(lookup(es, "list_field"@)));
                let e9 = error_of(int_list_field(lookup(es, "list_int_field"@)));
                let e10 = error_of(text_list_field(lookup(es, "list_string_field"@)));
                let e11 = error_of(mapping_field(lookup(es, "map_field"@)));
                let e12 = error_of(mapping_field(lookup(es, "embedded_map_field"@)));
                let e13 = error_of(mapping_field(lookup(es, "map_string_dynamic_field"@)));
                let e14 = error_of(bytes_field(lookup(es, "bytes_field"@), format));
                if e0 is Some {
                    e0
                } else if e1 is Some {
                    e1
                } else if e2 is Some {
                    e2
                } else if e3 is Some {
                    e3
                } else if e4 is Some {
                    e4
                } else if e5 is Some {
                    e5
                } else if e6 is Some {
                    e6
                } else if e7 is Some {
                    e7
                } else if e8 is Some {
                    e8
                } else if e9 is Some {
                    e9
                } else if e10 is Some {
                    e10
                } else if e11 is Some {
                    e11
                } else if e12 is Some {
                    e12
                } else if e13 is Some {
                    e13
                } else if e14 is Some {
                    e14
                } else {
                    None
                }
            },
            _ => Some(CodecError::UnknownTopLevelShape),
        }
    }

    /// The record holds what each field of the document decodes to.
    pub open spec fn decoded_from(self, doc: DynamicValue, format: WireFormat) -> bool {
        &&& doc is Mapping
        &&& self.packet_type@ == Self::TYPE@
        &&& self.int_field == int_field(lookup(doc->Mapping_0@, "int_field"@))->Ok_0
        &&& self.float_field == float_field(lookup(doc->Mapping_0@, "float_field"@))->Ok_0
        &&& self.double_field == float_field(lookup(doc->Mapping_0@, "double_field"@))->Ok_0
        &&& self.string_field == text_field(lookup(doc->Mapping_0@, "string_field"@))->Ok_0
        &&& self.bool_field == bool_field(lookup(doc->Mapping_0@, "bool_field"@))->Ok_0
        &&& self.datetime_field == timestamp_field(lookup(doc->Mapping_0@, "datetime_field"@), format)
            ->Ok_0
        &&& self.time_field == clock_field(lookup(doc->Mapping_0@, "time_field"@), format)->Ok_0
        &&& self.list_field == list_field(lookup(doc->Mapping_0@, "list_field"@))->Ok_0
        &&& self.list_int_field@ == int_list_field(lookup(doc->Mapping_0@, "list_int_field"@))->Ok_0
        &&& self.list_string_field@ == text_list_field(lookup(doc->Mapping_0@, "list_string_field"@))
            ->Ok_0
        &&& self.map_field == mapping_field(lookup(doc->Mapping_0@, "map_field"@))->Ok_0
        &&& self.embedded_map_field == mapping_field(lookup(doc->Mapping_0@, "embedded_map_field"@))
            ->Ok_0
        &&& self.map_string_dynamic_field == mapping_field(lookup(doc->Mapping_0@, "map_string_dynamic_field"@))
            ->Ok_0
        &&& self.bytes_field@ == bytes_field(lookup(doc->Mapping_0@, "bytes_field"@), format)->Ok_0
    }

    /// Equal field for field; buffers and lists are compared by their contents.
    pub open spec fn same_fields(self, other: Self) -> bool {
        &&& self.packet_type@ == other.packet_type@
        &&& self.int_field == other.int_field
        &&& self.float_field == other.float_field
        &&& self.double_field == other.double_field
        &&& self.string_field == other.string_field
        &&& self.bool_field == other.bool_field
        &&& self.datetime_field == other.datetime_field
        &&& self.time_field == other.time_field
        &&& self.list_field == other.list_field
        &&& self.list_int_field@ == other.list_int_field@
        &&& self.list_string_field@ == other.list_string_field@
        &&& self.map_field == other.map_field
        &&& self.embedded_map_field == other.embedded_map_field
        &&& self.map_string_dynamic_field == other.map_string_dynamic_field
        &&& self.bytes_field@ == other.bytes_field@
    }

    /// Writes the record as a document tree for the given wire form; fails with
    /// `EncodeFailure` exactly where the record is not `wf`.
    pub fn encode(self, format: WireFormat) -> (r: Result<DynamicValue, CodecError>)
        ensures
            r is Ok <==> self.wf(),
            r matches Ok(doc) ==> self.encoded_as(doc, format),
            r matches Err(e) ==> e == CodecError::EncodeFailure,
    {
        let valid = self.packet_type == Self::TYPE.to_owned()
            && self.datetime_field.is_valid()
            && self.time_field.is_valid()
            && self.bytes_field.len() <= usize::MAX / 2;
        if !valid {
            return Err(CodecError::EncodeFailure);
        }
        let mut entries: Vec<(String, DynamicValue)> = Vec::new();
        entries.push(("packetType".to_owned(), DynamicValue::Text(Self::TYPE.to_owned())));
        entries.push(("int_field".to_owned(), DynamicValue::Int(self.int_field)));
        entries.push(("float_field".to_owned(), DynamicValue::Float(self.float_field.bits)));
        entries.push(("double_field".to_owned(), DynamicValue::Float(self.double_field.bits)));
        entries.push(("string_field".to_owned(), DynamicValue::Text(self.string_field)));
        entries.push(("bool_field".to_owned(), DynamicValue::Bool(self.bool_field)));
        entries.push(("datetime_field".to_owned(), encode_timestamp(self.datetime_field, format)));
        entries.push(("time_field".to_owned(), encode_clock(self.time_field, format)));
        entries.push(("list_field".to_owned(), DynamicValue::List(self.list_field)));
        entries.push(("list_int_field".to_owned(), encode_int_list(&self.list_int_field)));
        entries.push(("list_string_field".to_owned(), encode_text_list(self.list_string_field)));
        entries.push(("map_field".to_owned(), DynamicValue::Mapping(self.map_field)));
        entries.push(("embedded_map_field".to_owned(), DynamicValue::Mapping(self.embedded_map_field)));
        entries.push(("map_string_dynamic_field".to_owned(), DynamicValue::Mapping(self.map_string_dynamic_field)));
        entries.push(("bytes_field".to_owned(), encode_bytes(self.bytes_field, format)));
        Ok(DynamicValue::Mapping(entries))
    }

    /// Reads a record from a document tree of the given wire form. An object
    /// key that names no field is ignored; where a key repeats, its first
    /// entry counts; an optional field may be absent or null.
    pub fn decode(doc: DynamicValue, format: WireFormat) -> (r: Result<Self, CodecError>)
        ensures
            r matches Err(e) ==> Self::decode_error(doc, format) == Some(e),
            r matches Ok(p) ==> Self::decode_error(doc, format) is None && p.decoded_from(doc, format),
    {
        let entries = match doc {
            DynamicValue::Mapping(entries) => entries,
            _ => {
                return Err(CodecError::UnknownTopLevelShape);
            },
        };
        let ghost es = entries@;
        proof {
            reveal_strlit("packetType");
            reveal_strlit("int_field");
            reveal_strlit("float_field");
            reveal_strlit("double_field");
            reveal_strlit("string_field");
            reveal_strlit("bool_field");
            reveal_strlit("datetime_field");
            reveal_strlit("time_field");
            reveal_strlit("list_field");
            reveal_strlit("list_int_field");
            reveal_strlit("list_string_field");
            reveal_strlit("map_field");
            reveal_strlit("embedded_map_field");
            reveal_strlit("map_string_dynamic_field");
            reveal_strlit("bytes_field");
            assert("packetType"@.len() == 10);
            assert("int_field"@.len() == 9);
            assert("float_field"@.len() == 11);
            assert("double_field"@.len() == 12);
            assert("string_field"@.len() == 12);
            assert("bool_field"@.len() == 10);
            assert("datetime_field"@.len() == 14);
            assert("time_field"@.len() == 10);
            assert("list_field"@.len() == 10);
            assert("list_int_field"@.len() == 14);
            assert("list_string_field"@.len() == 17);
            assert("map_field"@.len() == 9);
            assert("embedded_map_field"@.len() == 18);
            assert("map_string_dynamic_field"@.len() == 24);
            assert("bytes_field"@.len() == 11);
            assert("packetType"@[0] == 'p');
            assert("bool_field"@[0] == 'b');
            assert("time_field"@[0] == 't');
            assert("list_field"@[0] == 'l');
            assert("int_field"@[0] == 'i');
            assert("map_field"@[0] == 'm');
            assert("float_field"@[0] == 'f');
            assert("bytes_field"@[0] == 'b');
            assert("double_field"@[0] == 'd');
            assert("string_field"@[0] == 's');
            assert("datetime_field"@[0] == 'd');
            assert("list_int_field"@[0] == 'l');
        }
        let keys: Vec<String> = vec![
            "packetType".to_owned(),
            "int_field".to_owned(),
            "float_field".to_owned(),
            "double_field".to_owned(),
            "string_field".to_owned(),
            "bool_field".to_owned(),
            "datetime_field".to_owned(),
            "time_field".to_owned(),
            "list_field".to_owned(),
            "list_int_field".to_owned(),
            "list_string_field".to_owned(),
            "map_field".to_owned(),
            "embedded_map_field".to_owned(),
            "map_string_dynamic_field".to_owned(),
            "bytes_field".to_owned(),
        ];
        let ghost names = seq![
            "packetType"@,
            "int_field"@,
            "float_field"@,
            "double_field"@,
            "string_field"@,
            "bool_field"@,
            "datetime_field"@,
            "time_field"@,
            "list_field"@,
            "list_int_field"@,
            "list_string_field"@,
            "map_field"@,
            "embedded_map_field"@,
            "map_string_dynamic_field"@,
            "bytes_field"@,
        ];
        assert(forall|a: int| 0 <= a < 15 ==> keys@[a]@ == #[trigger] names[a]);
        assert(forall|a: int, b: int|
            0 <= a < b < 15 ==> #[trigger] names[a] != #[trigger] names[b]);
        let mut slots = take_fields(entries, &keys);
        let slot_bytes_field = slots.pop().unwrap();
        let slot_map_string_dynamic_field = slots.pop().unwrap();
        let slot_embedded_map_field = slots.pop().unwrap();
        let slot_map_field = slots.pop().unwrap();
        let slot_list_string_field = slots.pop().unwrap();
        let slot_list_int_field = slots.pop().unwrap();
        let slot_list_field = slots.pop().unwrap();
        let slot_time_field = slots.pop().unwrap();
        let slot_datetime_field = slots.pop().unwrap();
        let slot_bool_field = slots.pop().unwrap();
        let slot_string_field = slots.pop().unwrap();
        let slot_double_field = slots.pop().unwrap();
        let slot_float_field = slots.pop().unwrap();
        let slot_int_field = slots.pop().unwrap();
        let slot_type_id = slots.pop().unwrap();
        match check_type_id(slot_type_id, Self::TYPE) {
            Ok(()) => {},
            Err(e) => {
                return Err(e);
            },
        }
        let int_field = match decode_int(slot_int_field) {
            Ok(v) => v,
            Err(e) => {
                return Err(e);
            },
        };
        let float_field = match decode_float(slot_float_field) {
            Ok(v) => v,
            Err(e) => {
                return Err(e);
            },
        };
        let double_field = match decode_float(slot_double_field) {
            Ok(v) => v,
            Err(e) => {
                return Err(e);
            },
        };
        let string_field = match decode_text(slot_string_field) {
            Ok(v) => v,
            Err(e) => {
                return Err(e);
            },
        };
        let bool_field = match decode_bool(slot_bool_field) {
            Ok(v) => v,
            Err(e) => {
                return Err(e);
            },
        };
        let datetime_field = match decode_timestamp(slot_datetime_field, format) {
            Ok(v) => v,
            Err(e) => {
                return Err(e);
            },
        };
        let time_field = match decode_clock(slot_time_field, format) {
            Ok(v) => v,
            Err(e) => {
                return Err(e);
            },
        };
        let list_field = match decode_list(slot_list_field) {
            Ok(v) => v,
            Err(e) => {
                return Err(e);
            },
        };
        let list_int_field = match decode_int_list(slot_list_int_field) {
            Ok(v) => v,
            Err(e) => {
                return Err(e);
            },
        };
        let list_string_field = match decode_text_list(slot_list_string_field) {
            Ok(v) => v,
            Err(e) => {
                return Err(e);
            },
        };
        let map_field = match decode_mapping(slot_map_field) {
            Ok(v) => v,
            Err(e) => {
                return Err(e);
            },
        };
        let embedded_map_field = match decode_mapping(slot_embedded_map_field) {
            Ok(v) => v,
            Err(e) => {
                return Err(e);
            },
        };
        let map_string_dynamic_field = match decode_mapping(slot_map_string_dynamic_field) {
            Ok(v) => v,
            Err(e) => {
                return Err(e);
            },
        };
        let bytes_field = match decode_bytes(slot_bytes_field, format) {
            Ok(v) => v,
            Err(e) => {
                return Err(e);
            },
        };
        Ok(ComprehensivePacket {
            packet_type: Self::TYPE.to_owned(),
            int_field,
            float_field,
            double_field,
            string_field,
            bool_field,
            datetime_field,
            time_field,
            list_field,
            list_int_field,
            list_string_field,
            map_field,
            embedded_map_field,
            map_string_dynamic_field,
            bytes_field,
        })
    }
}

/// Decoding the document that encoding a valid record produced succeeds, and
/// whatever it yields equals the record field for field.
pub proof fn lemma_round_trip(p: ComprehensivePacket, doc: DynamicValue, format: WireFormat)
    requires
        p.wf(),
        p.encoded_as(doc, format),
    ensures
        ComprehensivePacket::decode_error(doc, format) is None,
        p.decoded_from(doc, format),
        forall|q: ComprehensivePacket| #[trigger] q.decoded_from(doc, format) ==> q.same_fields(p),
{
    reveal_strlit("packetType");
    reveal_strlit("int_field");
    reveal_strlit("float_field");
    reveal_strlit("double_field");
    reveal_strlit("string_field");
    reveal_strlit("bool_field");
    reveal_strlit("datetime_field");
    reveal_strlit("time_field");
    reveal_strlit("list_field");
    reveal_strlit("list_int_field");
    reveal_strlit("list_string_field");
    reveal_strlit("map_field");
    reveal_strlit("embedded_map_field");
    reveal_strlit("map_string_dynamic_field");
    reveal_strlit("bytes_field");
    assert("packetType"@.len() == 10);
    assert("int_field"@.len() == 9);
    assert("float_field"@.len() == 11);
    assert("double_field"@.len() == 12);
    assert("string_field"@.len() == 12);
    assert("bool_field"@.len() == 10);
    assert("datetime_field"@.len() == 14);
    assert("time_field"@.len() == 10);
    assert("list_field"@.len() == 10);
    assert("list_int_field"@.len() == 14);
    assert("list_string_field"@.len() == 17);
    assert("map_field"@.len() == 9);
    assert("embedded_map_field"@.len() == 18);
    assert("map_string_dynamic_field"@.len() == 24);
    assert("bytes_field"@.len() == 11);
    assert("packetType"@[0] == 'p');
    assert("bool_field"@[0] == 'b');
    assert("time_field"@[0] == 't');
    assert("list_field"@[0] == 'l');
    assert("int_field"@[0] == 'i');
    assert("map_field"@[0] == 'm');
    assert("float_field"@[0] == 'f');
    assert("bytes_field"@[0] == 'b');
    assert("double_field"@[0] == 'd');
    assert("string_field"@[0] == 's');
    assert("datetime_field"@[0] == 'd');
    assert("list_int_field"@[0] == 'l');
    let es = doc->Mapping_0@;
    reveal_with_fuel(absent_before, 15);
    lemma_lookup_at(es, 0, "packetType"@);
    lemma_lookup_at(es, 1, "int_field"@);
    lemma_lookup_at(es, 2, "float_field"@);
    lemma_lookup_at(es, 3, "double_field"@);
    lemma_lookup_at(es, 4, "string_field"@);
    lemma_lookup_at(es, 5, "bool_field"@);
    lemma_lookup_at(es, 6, "datetime_field"@);
    lemma_lookup_at(es, 7, "time_field"@);
    lemma_lookup_at(es, 8, "list_field"@);
    lemma_lookup_at(es, 9, "list_int_field"@);
    lemma_lookup_at(es, 10, "list_string_field"@);
    lemma_lookup_at(es, 11, "map_field"@);
    lemma_lookup_at(es, 12, "embedded_map_field"@);
    lemma_lookup_at(es, 13, "map_string_dynamic_field"@);
    lemma_lookup_at(es, 14, "bytes_field"@);
    lemma_timestamp_round_trip(es[6].1, p.datetime_field, format);
    lemma_clock_round_trip(es[7].1, p.time_field, format);
    lemma_int_list_round_trip(es[9].1, p.list_int_field@);
    lemma_text_list_round_trip(es[10].1, p.list_string_field@);
    lemma_bytes_round_trip(es[14].1, p.bytes_field@, format);
}
/// List and mapping fields are written as lists and objects, never as null,
/// and read back with exactly as many elements as they had, none included.
pub proof fn lemma_collections_keep_their_size(p: ComprehensivePacket, doc: DynamicValue, format: WireFormat)
    requires
        p.wf(),
        p.encoded_as(doc, format),
    ensures
        doc->Mapping_0@[8].1 is List,
        doc->Mapping_0@[9].1 is List,
        doc->Mapping_0@[10].1 is List,
        doc->Mapping_0@[11].1 is Mapping,
        doc->Mapping_0@[12].1 is Mapping,
        doc->Mapping_0@[13].1 is Mapping,
        forall|q: ComprehensivePacket| #[trigger] q.decoded_from(doc, format) ==> {
            &&& q.list_field@.len() == p.list_field@.len()
            &&& q.list_int_field@.len() == p.list_int_field@.len()
            &&& q.list_string_field@.len() == p.list_string_field@.len()
            &&& q.map_field@.len() == p.map_field@.len()
            &&& q.embedded_map_field@.len() == p.embedded_map_field@.len()
            &&& q.map_string_dynamic_field@.len() == p.map_string_dynamic_field@.len()
        },
{
    lemma_round_trip(p, doc, format);
}

} // verus!
