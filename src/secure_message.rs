use vstd::prelude::*;
use crate::error::CodecError;
use crate::field::{
    WireFormat, bool_field, bytes_field, bytes_wire, decode_bool, decode_bytes, decode_int,
    decode_list, decode_text, decode_timestamp, encode_bytes, encode_timestamp, error_of, int_field,
    is_unset, lemma_bytes_round_trip, lemma_timestamp_round_trip, list_field, present, text_field,
    timestamp_field, timestamp_wire,
};
use crate::record::{check_type_id, type_id_field};
use crate::time::Timestamp;
use crate::value::{absent_before, lemma_lookup_at, lookup, take_fields, DynamicValue};

verus! {

/// A message whose encrypted payload is carried as opaque bytes, never read.
#[derive(Debug)]
pub struct SecureMessagePacket {
    /// Always `Self::TYPE`.
    pub packet_type: String,
    pub message_id: String,
    pub sender_id: i64,
    pub recipient_id: i64,
    pub subject: String,
    pub body: String,
    pub attachments: Vec<DynamicValue>,
    pub encrypted_payload: Option<Vec<u8>>,
    pub priority: i64,
    pub is_read: bool,
    pub sent_at: Timestamp,
}

impl SecureMessagePacket {
    pub const TYPE: &'static str = "/example/SecureMessagePacket";

    /// The record carries its own type id, and every instant, time of day and
    /// byte buffer in it can be carried by both wire forms.
    pub open spec fn wf(&self) -> bool {
        &&& self.packet_type@ == Self::TYPE@
        &&& (self.encrypted_payload matches Some(v) ==> 2 * v@.len() <= usize::MAX)
        &&& self.sent_at.wf()
    }

    /// The record with these field values; its type id is `Self::TYPE`.
    pub fn new(
        message_id: String,
        sender_id: i64,
        recipient_id: i64,
        subject: String,
        body: String,
        attachments: Vec<DynamicValue>,
        encrypted_payload: Option<Vec<u8>>,
        priority: i64,
        is_read: bool,
        sent_at: Timestamp,
    ) -> (p: Self)
        ensures
            p.packet_type@ == Self::TYPE@,
            p.message_id == message_id,
            p.sender_id == sender_id,
            p.recipient_id == recipient_id,
            p.subject == subject,
            p.body == body,
            p.attachments == attachments,
            p.encrypted_payload == encrypted_payload,
            p.priority == priority,
            p.is_read == is_read,
            p.sent_at == sent_at,
    {
        SecureMessagePacket {
            packet_type: Self::TYPE.to_owned(),
            message_id,
            sender_id,
            recipient_id,
            subject,
            body,
            attachments,
            encrypted_payload,
            priority,
            is_read,
            sent_at,
        }
    }

    /// The document is an object with the type id first and then each field,
    /// in declaration order, in its wire form.
    pub open spec fn encoded_as(self, doc: DynamicValue, format: WireFormat) -> bool {
        &&& doc is Mapping
        &&& doc->Mapping_0@.len() == 11
        &&& doc->Mapping_0@[0].0@ == "packetType"@
        &&& doc->Mapping_0@[0].1 matches DynamicValue::Text(t) && t@ == Self::TYPE@
        &&& doc->Mapping_0@[1].0@ == "message_id"@
        &&& doc->Mapping_0@[1].1 == DynamicValue::Text(self.message_id)
        &&& doc->Mapping_0@[2].0@ == "sender_id"@
        &&& doc->Mapping_0@[2].1 == DynamicValue::Int(self.sender_id)
        &&& doc->Mapping_0@[3].0@ == "recipient_id"@
        &&& doc->Mapping_0@[3].1 == DynamicValue::Int(self.recipient_id)
        &&& doc->Mapping_0@[4].0@ == "subject"@
        &&& doc->Mapping_0@[4].1 == DynamicValue::Text(self.subject)
        &&& doc->Mapping_0@[5].0@ == "body"@
        &&& doc->Mapping_0@[5].1 == DynamicValue::Text(self.body)
        &&& doc->Mapping_0@[6].0@ == "attachments"@
        &&& doc->Mapping_0@[6].1 == DynamicValue::List(self.attachments)
        &&& doc->Mapping_0@[7].0@ == "encrypted_payload"@
        &&& match self.encrypted_payload {
            Some(v) => bytes_wire(doc->Mapping_0@[7].1, v@, format),
            None => doc->Mapping_0@[7].1 == DynamicValue::Null,
        }
        &&& doc->Mapping_0@[8].0@ == "priority"@
        &&& doc->Mapping_0@[8].1 == DynamicValue::Int(self.priority)
        &&& doc->Mapping_0@[9].0@ == "is_read"@
        &&& doc->Mapping_0@[9].1 == DynamicValue::Bool(self.is_read)
        &&& doc->Mapping_0@[10].0@ == "sent_at"@
        &&& timestamp_wire(doc->Mapping_0@[10].1, self.sent_at, format)
    }

    /// The error that decoding the document reports, or `None` where it succeeds:
    /// the first failing check among the top-level shape, the type id and the
    /// fields in declaration order.
    pub open spec fn decode_error(doc: DynamicValue, format: WireFormat) -> Option<CodecError> {
        match doc {
            DynamicValue::Mapping(entries) => {
                let es = entries@;
                let e0 = error_of(type_id_field(lookup(es, "packetType"@), Self::TYPE@));
                let e1 = error_of(text_field(lookup(es, "message_id"@)));
                let e2 = error_of(int_field(lookup(es, "sender_id"@)));
                let e3 = error_of(int_field(lookup(es, "recipient_id"@)));
                let e4 = error_of(text_field(lookup(es, "subject"@)));
                let e5 = error_of(text_field(lookup(es, "body"@)));
                let e6 = error_of(list_field(lookup(es, "attachments"@)));
                let e7 = if is_unset(lookup(es, "encrypted_payload"@)) {
                    None
                } else {
                    error_of(bytes_field(lookup(es, "encrypted_payload"@), format))
                };
                let e8 = error_of(int_field(lookup(es, "priority"@)));
                let e9 = error_of(bool_field(lookup(es, "is_read"@)));
                let e10 = error_of(timestamp_field(lookup(es, "sent_at"@), format));
                if e0 is Some {
                    e0
                } else if e1 is Some {
                    e1
                } else if e2 is Some {
                    e2
                } else if e3 is Some {
                    e3
                } else if e4 is Some {
                    e4
                } else if e5 is Some {
                    e5
                } else if e6 is Some {
                    e6
                } else if e7 is Some {
                    e7
                } else if e8 is Some {
                    e8
                } else if e9 is Some {
                    e9
                } else if e10 is Some {
                    e10
                } else {
                    None
                }
            },
            _ => Some(CodecError::UnknownTopLevelShape),
        }
    }

    /// The record holds what each field of the document decodes to.
    pub open spec fn decoded_from(self, doc: DynamicValue, format: WireFormat) -> bool {
        &&& doc is Mapping
        &&& self.packet_type@ == Self::TYPE@
        &&& self.message_id == text_field(lookup(doc->Mapping_0@, "message_id"@))->Ok_0
        &&& self.sender_id == int_field(lookup(doc->Mapping_0@, "sender_id"@))->Ok_0
        &&& self.recipient_id == int_field(lookup(doc->Mapping_0@, "recipient_id"@))->Ok_0
        &&& self.subject == text_field(lookup(doc->Mapping_0@, "subject"@))->Ok_0
        &&& self.body == text_field(lookup(doc->Mapping_0@, "body"@))->Ok_0
        &&& self.attachments == list_field(lookup(doc->Mapping_0@, "attachments"@))->Ok_0
        &&& if is_unset(lookup(doc->Mapping_0@, "encrypted_payload"@)) {
            self.encrypted_payload is None
        } else {
            self.encrypted_payload matches Some(v) && v@ == bytes_field(lookup(doc->Mapping_0@, "encrypted_payload"@), format)
                ->Ok_0
        }
        &&& self.priority == int_field(lookup(doc->Mapping_0@, "priority"@))->Ok_0
        &&& self.is_read == bool_field(lookup(doc->Mapping_0@, "is_read"@))->Ok_0
        &&& self.sent_at == timestamp_field(lookup(doc->Mapping_0@, "sent_at"@), format)->Ok_0
    }

    /// Equal field for field; buffers and lists are compared by their contents.
    pub open spec fn same_fields(self, other: Self) -> bool {
        &&& self.packet_type@ == other.packet_type@
        &&& self.message_id == other.message_id
        &&& self.sender_id == other.sender_id
        &&& self.recipient_id == other.recipient_id
        &&& self.subject == other.subject
        &&& self.body == other.body
        &&& self.attachments == other.attachments
        &&& (self.encrypted_payload is None <==> other.encrypted_payload is None)
        &&& (self.encrypted_payload is Some ==> self.encrypted_payload->Some_0@ == other.encrypted_payload->Some_0@)
        &&& self.priority == other.priority
        &&& self.is_read == other.is_read
        &&& self.sent_at == other.sent_at
    }

    /// Writes the record as a document tree for the given wire form; fails with
    /// `EncodeFailure` exactly where the record is not `wf`.
    pub fn encode(self, format: WireFormat) -> (r: Result<DynamicValue, CodecError>)
        ensures
            r is Ok <==> self.wf(),
            r matches Ok(doc) ==> self.encoded_as(doc, format),
            r matches Err(e) ==> e == CodecError::EncodeFailure,
    {
        let valid = self.packet_type == Self::TYPE.to_owned()
            && (match &self.encrypted_payload {
                Some(v) => v.len() <= usize::MAX / 2,
                None => true,
            })
            && self.sent_at.is_valid();
        if !valid {
            return Err(CodecError::EncodeFailure);
        }
        let mut entries: Vec<(String, DynamicValue)> = Vec::new();
        entries.push(("packetType".to_owned(), DynamicValue::Text(Self::TYPE.to_owned())));
        entries.push(("message_id".to_owned(), DynamicValue::Text(self.message_id)));
        entries.push(("sender_id".to_owned(), DynamicValue::Int(self.sender_id)));
        entries.push(("recipient_id".to_owned(), DynamicValue::Int(self.recipient_id)));
        entries.push(("subject".to_owned(), DynamicValue::Text(self.subject)));
        entries.push(("body".to_owned(), DynamicValue::Text(self.body)));
        entries.push(("attachments".to_owned(), DynamicValue::List(self.attachments)));
        let encrypted_payload = match self.encrypted_payload {
            Some(v) => encode_bytes(v, format),
            None => DynamicValue::Null,
        };
        entries.push(("encrypted_payload".to_owned(), encrypted_payload));
        entries.push(("priority".to_owned(), DynamicValue::Int(self.priority)));
        entries.push(("is_read".to_owned(), DynamicValue::Bool(self.is_read)));
        entries.push(("sent_at".to_owned(), encode_timestamp(self.sent_at, format)));
        Ok(DynamicValue::Mapping(entries))
    }

    /// Reads a record from a document tree of the given wire form. An object
    /// key that names no field is ignored; where a key repeats, its first
    /// entry counts; an optional field may be absent or null.
    pub fn decode(doc: DynamicValue, format: WireFormat) -> (r: Result<Self, CodecError>)
        ensures
            r matches Err(e) ==> Self::decode_error(doc, format) == Some(e),
            r matches Ok(p) ==> Self::decode_error(doc, format) is None && p.decoded_from(doc, format),
    {
        let entries = match doc {
            DynamicValue::Mapping(entries) => entries,
            _ => {
                return Err(CodecError::UnknownTopLevelShape);
            },
        };
        let ghost es = entries@;
        proof {
            reveal_strlit("packetType");
            reveal_strlit("message_id");
            reveal_strlit("sender_id");
            reveal_strlit("recipient_id");
            reveal_strlit("subject");
            reveal_strlit("body");
            reveal_strlit("attachments");
            reveal_strlit("encrypted_payload");
            reveal_strlit("priority");
            reveal_strlit("is_read");
            reveal_strlit("sent_at");
            assert("packetType"@.len() == 10);
            assert("message_id"@.len() == 10);
            assert("sender_id"@.len() == 9);
            assert("recipient_id"@.len() == 12);
            assert("subject"@.len() == 7);
            assert("body"@.len() == 4);
            assert("attachments"@.len() == 11);
            assert("encrypted_payload"@.len() == 17);
            assert("priority"@.len() == 8);
            assert("is_read"@.len() == 7);
            assert("sent_at"@.len() == 7);
            assert("packetType"@[0] == 'p');
            assert("message_id"@[0] == 'm');
            assert("subject"@[0] == 's');
            assert("is_read"@[0] == 'i');
            assert("subject"@[1] == 'u');
            assert("sent_at"@[1] == 'e');
            assert("sent_at"@[0] == 's');
        }
        let keys: Vec<String> = vec![
            "packetType".to_owned(),
            "message_id".to_owned(),
            "sender_id".to_owned(),
            "recipient_id".to_owned(),
            "subject".to_owned(),
            "body".to_owned(),
            "attachments".to_owned(),
            "encrypted_payload".to_owned(),
            "priority".to_owned(),
            "is_read".to_owned(),
            "sent_at".to_owned(),
        ];
        let ghost names = seq![
            "packetType"@,
            "message_id"@,
            "sender_id"@,
            "recipient_id"@,
            "subject"@,
            "body"@,
            "attachments"@,
            "encrypted_payload"@,
            "priority"@,
            "is_read"@,
            "sent_at"@,
        ];
        assert(forall|a: int| 0 <= a < 11 ==> keys@[a]@ == #[trigger] names[a]);
        assert(forall|a: int, b: int|
            0 <= a < b < 11 ==> #[trigger] names[a] != #[trigger] names[b]);
        let mut slots = take_fields(entries, &keys);
        let slot_sent_at = slots.pop().unwrap();
        let slot_is_read = slots.pop().unwrap();
        let slot_priority = slots.pop().unwrap();
        let slot_encrypted_payload = slots.pop().unwrap();
        let slot_attachments = slots.pop().unwrap();
        let slot_body = slots.pop().unwrap();
        let slot_subject = slots.pop().unwrap();
        let slot_recipient_id = slots.pop().unwrap();
        let slot_sender_id = slots.pop().unwrap();
        let slot_message_id = slots.pop().unwrap();
        let slot_type_id = slots.pop().unwrap();
        match check_type_id(slot_type_id, Self::TYPE) {
            Ok(()) => {},
            Err(e) => {
                return Err(e);
            },
        }
        let message_id = match decode_text(slot_message_id) {
            Ok(v) => v,
            Err(e) => {
                return Err(e);
            },
        };
        let sender_id = match decode_int(slot_sender_id) {
            Ok(v) => v,
            Err(e) => {
                return Err(e);
            },
        };
        let recipient_id = match decode_int(slot_recipient_id) {
            Ok(v) => v,
            Err(e) => {
                return Err(e);
            },
        };
        let subject = match decode_text(slot_subject) {
            Ok(v) => v,
            Err(e) => {
                return Err(e);
            },
        };
        let body = match decode_text(slot_body) {
            Ok(v) => v,
            Err(e) => {
                return Err(e);
            },
        };
        let attachments = match decode_list(slot_attachments) {
            Ok(v) => v,
            Err(e) => {
                return Err(e);
            },
        };
        let encrypted_payload = match present(slot_encrypted_payload) {
            None => None,
            Some(w) => match decode_bytes(Some(w), format) {
                Ok(v) => Some(v),
                Err(e) => {
                    return Err(e);
                },
            },
        };
        let priority = match decode_int(slot_priority) {
            Ok(v) => v,
            Err(e) => {
                return Err(e);
            },
        };
        let is_read = match decode_bool(slot_is_read) {
            Ok(v) => v,
            Err(e) => {
                return Err(e);
            },
        };
        let sent_at = match decode_timestamp(slot_sent_at, format) {
            Ok(v) => v,
            Err(e) => {
                return Err(e);
            },
        };
        Ok(SecureMessagePacket {
            packet_type: Self::TYPE.to_owned(),
            message_id,
            sender_id,
            recipient_id,
            subject,
            body,
            attachments,
            encrypted_payload,
            priority,
            is_read,
            sent_at,
        })
    }
}

/// Decoding the document that encoding a valid record produced succeeds, and
/// whatever it yields equals the record field for field.
pub proof fn lemma_round_trip(p: SecureMessagePacket, doc: DynamicValue, format: WireFormat)
    requires
        p.wf(),
        p.encoded_as(doc, format),
    ensures
        SecureMessagePacket::decode_error(doc, format) is None,
        p.decoded_from(doc, format),
        forall|q: SecureMessagePacket| #[trigger] q.decoded_from(doc, format) ==> q.same_fields(p),
{
    reveal_strlit("packetType");
    reveal_strlit("message_id");
    reveal_strlit("sender_id");
    reveal_strlit("recipient_id");
    reveal_strlit("subject");
    reveal_strlit("body");
    reveal_strlit("attachments");
    reveal_strlit("encrypted_payload");
    reveal_strlit("priority");
    reveal_strlit("is_read");
    reveal_strlit("sent_at");
    assert("packetType"@.len() == 10);
    assert("message_id"@.len() == 10);
    assert("sender_id"@.len() == 9);
    assert("recipient_id"@.len() == 12);
    assert("subject"@.len() == 7);
    assert("body"@.len() == 4);
    assert("attachments"@.len() == 11);
    assert("encrypted_payload"@.len() == 17);
    assert("priority"@.len() == 8);
    assert("is_read"@.len() == 7);
    assert("sent_at"@.len() == 7);
    assert("packetType"@[0] == 'p');
    assert("message_id"@[0] == 'm');
    assert("subject"@[0] == 's');
    assert("is_read"@[0] == 'i');
    assert("subject"@[1] == 'u');
    assert("sent_at"@[1] == 'e');
    assert("sent_at"@[0] == 's');
    let es = doc->Mapping_0@;
    reveal_with_fuel(absent_before, 11);
    lemma_lookup_at(es, 0, "packetType"@);
    lemma_lookup_at(es, 1, "message_id"@);
    lemma_lookup_at(es, 2, "sender_id"@);
    lemma_lookup_at(es, 3, "recipient_id"@);
    lemma_lookup_at(es, 4, "subject"@);
    lemma_lookup_at(es, 5, "body"@);
    lemma_lookup_at(es, 6, "attachments"@);
    lemma_lookup_at(es, 7, "encrypted_payload"@);
    lemma_lookup_at(es, 8, "priority"@);
    lemma_lookup_at(es, 9, "is_read"@);
    lemma_lookup_at(es, 10, "sent_at"@);
    if p.encrypted_payload is Some {
        lemma_bytes_round_trip(es[7].1, p.encrypted_payload->Some_0@, format);
    }
    lemma_timestamp_round_trip(es[10].1, p.sent_at, format);
}
/// An unset encrypted payload is written as null, and reads back unset rather
/// than as an empty buffer.
pub proof fn lemma_unset_payload_stays_unset(p: SecureMessagePacket, doc: DynamicValue, format: WireFormat)
    requires
        p.wf(),
        p.encoded_as(doc, format),
        p.encrypted_payload is None,
    ensures
        lookup(doc->Mapping_0@, "encrypted_payload"@) == Some(DynamicValue::Null),
        forall|q: SecureMessagePacket| #[trigger] q.decoded_from(doc, format) ==> q.encrypted_payload is None,
{
    lemma_round_trip(p, doc, format);
    reveal_strlit("packetType");
    reveal_strlit("message_id");
    reveal_strlit("sender_id");
    reveal_strlit("recipient_id");
    reveal_strlit("subject");
    reveal_strlit("body");
    reveal_strlit("attachments");
    reveal_strlit("encrypted_payload");
    assert("encrypted_payload"@.len() == 17);
    assert("packetType"@.len() == 10);
    assert("message_id"@.len() == 10);
    assert("sender_id"@.len() == 9);
    assert("recipient_id"@.len() == 12);
    assert("subject"@.len() == 7);
    assert("body"@.len() == 4);
    assert("attachments"@.len() == 11);
    reveal_with_fuel(absent_before, 8);
    lemma_lookup_at(doc->Mapping_0@, 7, "encrypted_payload"@);
}

} // verus!
