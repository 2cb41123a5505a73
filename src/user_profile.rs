use vstd::prelude::*;
use crate::error::CodecError;
use crate::field::{
    Float64, WireFormat, bytes_field, bytes_wire, decode_bytes, decode_float, decode_int,
    decode_mapping, decode_text, decode_text_list, decode_timestamp, encode_bytes, encode_text_list,
    encode_timestamp, error_of, float_field, int_field, is_unset, lemma_bytes_round_trip,
    lemma_text_list_round_trip, lemma_timestamp_round_trip, mapping_field, present, text_field,
    text_list_field, text_list_wire, timestamp_field, timestamp_wire,
};
use crate::record::{check_type_id, type_id_field};
use crate::time::Timestamp;
use crate::value::{absent_before, lemma_lookup_at, lookup, take_fields, DynamicValue};

verus! {

/// A user profile with required and optional fields.
#[derive(Debug)]
pub struct UserProfilePacket {
    /// Always `Self::TYPE`.
    pub packet_type: String,
    pub user_id: i64,
    pub username: String,
    pub email: String,
    pub bio: Option<String>,
    pub age: Option<i64>,
    pub balance: Float64,
    pub tags: Vec<String>,
    pub preferences: Vec<(String, DynamicValue)>,
    pub avatar: Option<Vec<u8>>,
    pub created_at: Timestamp,
    pub last_login: Option<Timestamp>,
}

impl UserProfilePacket {
    pub const TYPE: &'static str = "/example/UserProfilePacket";

    /// The record carries its own type id, and every instant, time of day and
    /// byte buffer in it can be carried by both wire forms.
    pub open spec fn wf(&self) -> bool {
        &&& self.packet_type@ == Self::TYPE@
        &&& (self.avatar matches Some(v) ==> 2 * v@.len() <= usize::MAX)
        &&& self.created_at.wf()
        &&& (self.last_login matches Some(v) ==> v.wf())
    }

    /// The record with these field values; its type id is `Self::TYPE`.
    pub fn new(
        user_id: i64,
        username: String,
        email: String,
        bio: Option<String>,
        age: Option<i64>,
        balance: Float64,
        tags: Vec<String>,
        preferences: Vec<(String, DynamicValue)>,
        avatar: Option<Vec<u8>>,
        created_at: Timestamp,
        last_login: Option<Timestamp>,
    ) -> (p: Self)
        ensures
            p.packet_type@ == Self::TYPE@,
            p.user_id == user_id,
            p.username == username,
            p.email == email,
            p.bio == bio,
            p.age == age,
            p.balance == balance,
            p.tags == tags,
            p.preferences == preferences,
            p.avatar == avatar,
            p.created_at == created_at,
            p.last_login == last_login,
    {
        UserProfilePacket {
            packet_type: Self::TYPE.to_owned(),
            user_id,
            username,
            email,
            bio,
            age,
            balance,
            tags,
            preferences,
            avatar,
            created_at,
            last_login,
        }
    }

    /// The document is an object with the type id first and then each field,
    /// in declaration order, in its wire form.
    pub open spec fn encoded_as(self, doc: DynamicValue, format: WireFormat) -> bool {
        &&& doc is Mapping
        &&& doc->Mapping_0@.len() == 12
        &&& doc->Mapping_0@[0].0@ == "packetType"@
        &&& doc->Mapping_0@[0].1 matches DynamicValue::Text(t) && t@ == Self::TYPE@
        &&& doc->Mapping_0@[1].0@ == "user_id"@
        &&& doc->Mapping_0@[1].1 == DynamicValue::Int(self.user_id)
        &&& doc->Mapping_0@[2].0@ == "username"@
        &&& doc->Mapping_0@[2].1 == DynamicValue::Text(self.username)
        &&& doc->Mapping_0@[3].0@ == "email"@
        &&& doc->Mapping_0@[3].1 == DynamicValue::Text(self.email)
        &&& doc->Mapping_0@[4].0@ == "bio"@
        &&& match self.bio {
            Some(v) => doc->Mapping_0@[4].1 == DynamicValue::Text(v),
            None => doc->Mapping_0@[4].1 == DynamicValue::Null,
        }
        &&& doc->Mapping_0@[5].0@ == "age"@
        &&& match self.age {
            Some(v) => doc->Mapping_0@[5].1 == DynamicValue::Int(v),
            None => doc->Mapping_0@[5].1 == DynamicValue::Null,
        }
        &&& doc->Mapping_0@[6].0@ == "balance"@
        &&& doc->Mapping_0@[6].1 == DynamicValue::Float(self.balance.bits)
        &&& doc->Mapping_0@[7].0@ == "tags"@
        &&& text_list_wire(doc->Mapping_0@[7].1, self.tags@)
        &&& doc->Mapping_0@[8].0@ == "preferences"@
        &&& doc->Mapping_0@[8].1 == DynamicValue::Mapping(self.preferences)
        &&& doc->Mapping_0@[9].0@ == "avatar"@
        &&& match self.avatar {
            Some(v) => bytes_wire(doc->Mapping_0@[9].1, v@, format),
            None => doc->Mapping_0@[9].1 == DynamicValue::Null,
        }
        &&& doc->Mapping_0@[10].0@ == "created_at"@
        &&& timestamp_wire(doc->Mapping_0@[10].1, self.created_at, format)
        &&& doc->Mapping_0@[11].0@ == "last_login"@
        &&& match self.last_login {
            Some(v) => timestamp_wire(doc->Mapping_0@[11].1, v, format),
            None => doc->Mapping_0@[11].1 == DynamicValue::Null,
        }
    }

    /// The error that decoding the document reports, or `None` where it succeeds:
    /// the first failing check among the top-level shape, the type id and the
    /// fields in declaration order.
    pub open spec fn decode_error(doc: DynamicValue, format: WireFormat) -> Option<CodecError> {
        match doc {
            DynamicValue::Mapping(entries) => {
                let es = entries@;
                let e0 = error_of(type_id_field(lookup(es, "packetType"@), Self::TYPE@));
                let e1 = error_of(int_field(lookup(es, "user_id"@)));
                let e2 = error_of(text_field(lookup(es, "username"@)));
                let e3 = error_of(text_field(lookup(es, "email"@)));
                let e4 = if is_unset(lookup(es, "bio"@)) {
                    None
                } else {
                    error_of(text_field(lookup(es, "bio"@)))
                };
                let e5 = if is_unset(lookup(es, "age"@)) {
                    None
                } else {
                    error_of(int_field(lookup(es, "age"@)))
                };
                let e6 = error_of(float_field(lookup(es, "balance"@)));
                let e7 = error_of(text_list_field(lookup(es, "tags"@)));
                let e8 = error_of(mapping_field(lookup(es, "preferences"@)));
                let e9 = if is_unset(lookup(es, "avatar"@)) {
                    None
                } else {
                    error_of(bytes_field(lookup(es, "avatar"@), format))
                };
                let e10 = error_of(timestamp_field(lookup(es, "created_at"@), format));
                let e11 = if is_unset(lookup(es, "last_login"@)) {
                    None
                } else {
                    error_of(timestamp_field(lookup(es, "last_login"@), format))
                };
                if e0 is Some {
                    e0
                } else if e1 is Some {
                    e1
                } else if e2 is Some {
                    e2
                } else if e3 is Some {
                    e3
                } else if e4 is Some {
                    e4
                } else if e5 is Some {
                    e5
                } else if e6 is Some {
                    e6
                } else if e7 is Some {
                    e7
                } else if e8 is Some {
                    e8
                } else if e9 is Some {
                    e9
                } else if e10 is Some {
                    e10
                } else if e11 is Some {
                    e11
                } else {
                    None
                }
            },
            _ => Some(CodecError::UnknownTopLevelShape),
        }
    }

    /// The record holds what each field of the document decodes to.
    pub open spec fn decoded_from(self, doc: DynamicValue, format: WireFormat) -> bool {
        &&& doc is Mapping
        &&& self.packet_type@ == Self::TYPE@
        &&& self.user_id == int_field(lookup(doc->Mapping_0@, "user_id"@))->Ok_0
        &&& self.username == text_field(lookup(doc->Mapping_0@, "username"@))->Ok_0
        &&& self.email == text_field(lookup(doc->Mapping_0@, "email"@))->Ok_0
        &&& if is_unset(lookup(doc->Mapping_0@, "bio"@)) {
            self.bio is None
        } else {
            self.bio matches Some(v) && v == text_field(lookup(doc->Mapping_0@, "bio"@))->Ok_0
        }
        &&& if is_unset(lookup(doc->Mapping_0@, "age"@)) {
            self.age is None
        } else {
            self.age matches Some(v) && v == int_field(lookup(doc->Mapping_0@, "age"@))->Ok_0
        }
        &&& self.balance == float_field(lookup(doc->Mapping_0@, "balance"@))->Ok_0
        &&& self.tags@ == text_list_field(lookup(doc->Mapping_0@, "tags"@))->Ok_0
        &&& self.preferences == mapping_field(lookup(doc->Mapping_0@, "preferences"@))->Ok_0
        &&& if is_unset(lookup(doc->Mapping_0@, "avatar"@)) {
            self.avatar is None
        } else {
            self.avatar matches Some(v) && v@ == bytes_field(lookup(doc->Mapping_0@, "avatar"@), format)
                ->Ok_0
        }
        &&& self.created_at == timestamp_field(lookup(doc->Mapping_0@, "created_at"@), format)->Ok_0
        &&& if is_unset(lookup(doc->Mapping_0@, "last_login"@)) {
            self.last_login is None
        } else {
            self.last_login matches Some(v) && v == timestamp_field(lookup(doc->Mapping_0@, "last_login"@), format)
                ->Ok_0
        }
    }

    /// Equal field for field; buffers and lists are compared by their contents.
    pub open spec fn same_fields(self, other: Self) -> bool {
        &&& self.packet_type@ == other.packet_type@
        &&& self.user_id == other.user_id
        &&& self.username == other.username
        &&& self.email == other.email
        &&& self.bio == other.bio
        &&& self.age == other.age
        &&& self.balance == other.balance
        &&& self.tags@ == other.tags@
        &&& self.preferences == other.preferences
        &&& (self.avatar is None <==> other.avatar is None)
        &&& (self.avatar is Some ==> self.avatar->Some_0@ == other.avatar->Some_0@)
        &&& self.created_at == other.created_at
        &&& self.last_login == other.last_login
    }

    /// Writes the record as a document tree for the given wire form; fails with
    /// `EncodeFailure` exactly where the record is not `wf`.
    pub fn encode(self, format: WireFormat) -> (r: Result<DynamicValue, CodecError>)
        ensures
            r is Ok <==> self.wf(),
            r matches Ok(doc) ==> self.encoded_as(doc, format),
            r matches Err(e) ==> e == CodecError::EncodeFailure,
    {
        let valid = self.packet_type == Self::TYPE.to_owned()
            && (match &self.avatar {
                Some(v) => v.len() <= usize::MAX / 2,
                None => true,
            })
            && self.created_at.is_valid()
            && (match &self.last_login {
                Some(v) => v.is_valid(),
                None => true,
            });
        if !valid {
            return Err(CodecError::EncodeFailure);
        }
        let mut entries: Vec<(String, DynamicValue)> = Vec::new();
        entries.push(("packetType".to_owned(), DynamicValue::Text(Self::TYPE.to_owned())));
        entries.push(("user_id".to_owned(), DynamicValue::Int(self.user_id)));
        entries.push(("username".to_owned(), DynamicValue::Text(self.username)));
        entries.push(("email".to_owned(), DynamicValue::Text(self.email)));
        let bio = match self.bio {
            Some(v) => DynamicValue::Text(v),
            None => DynamicValue::Null,
        };
        entries.push(("bio".to_owned(), bio));
        let age = match self.age {
            Some(v) => DynamicValue::Int(v),
            None => DynamicValue::Null,
        };
        entries.push(("age".to_owned(), age));
        entries.push(("balance".to_owned(), DynamicValue::Float(self.balance.bits)));
        entries.push(("tags".to_owned(), encode_text_list(self.tags)));
        entries.push(("preferences".to_owned(), DynamicValue::Mapping(self.preferences)));
        let avatar = match self.avatar {
            Some(v) => encode_bytes(v, format),
            None => DynamicValue::Null,
        };
        entries.push(("avatar".to_owned(), avatar));
        entries.push(("created_at".to_owned(), encode_timestamp(self.created_at, format)));
        let last_login = match self.last_login {
            Some(v) => encode_timestamp(v, format),
            None => DynamicValue::Null,
        };
        entries.push(("last_login".to_owned(), last_login));
        Ok(DynamicValue::Mapping(entries))
    }

    /// Reads a record from a document tree of the given wire form. An object
    /// key that names no field is ignored; where a key repeats, its first
    /// entry counts; an optional field may be absent or null.
    pub fn decode(doc: DynamicValue, format: WireFormat) -> (r: Result<Self, CodecError>)
        ensures
            r matches Err(e) ==> Self::decode_error(doc, format) == Some(e),
            r matches Ok(p) ==> Self::decode_error(doc, format) is None && p.decoded_from(doc, format),
    {
        let entries = match doc {
            DynamicValue::Mapping(entries) => entries,
            _ => {
                return Err(CodecError::UnknownTopLevelShape);
            },
        };
        let ghost es = entries@;
        proof {
            reveal_strlit("packetType");
            reveal_strlit("user_id");
            reveal_strlit("username");
            reveal_strlit("email");
            reveal_strlit("bio");
            reveal_strlit("age");
            reveal_strlit("balance");
            reveal_strlit("tags");
            reveal_strlit("preferences");
            reveal_strlit("avatar");
            reveal_strlit("created_at");
            reveal_strlit("last_login");
            assert("packetType"@.len() == 10);
            assert("user_id"@.len() == 7);
            assert("username"@.len() == 8);
            assert("email"@.len() == 5);
            assert("bio"@.len() == 3);
            assert("age"@.len() == 3);
            assert("balance"@.len() == 7);
            assert("tags"@.len() == 4);
            assert("preferences"@.len() == 11);
            assert("avatar"@.len() == 6);
            assert("created_at"@.len() == 10);
            assert("last_login"@.len() == 10);
            assert("packetType"@[0] == 'p');
            assert("created_at"@[0] == 'c');
            assert("last_login"@[0] == 'l');
            assert("user_id"@[0] == 'u');
            assert("balance"@[0] == 'b');
            assert("bio"@[0] == 'b');
            assert("age"@[0] == 'a');
        }
        let keys: Vec<String> = vec![
            "packetType".to_owned(),
            "user_id".to_owned(),
            "username".to_owned(),
            "email".to_owned(),
            "bio".to_owned(),
            "age".to_owned(),
            "balance".to_owned(),
            "tags".to_owned(),
            "preferences".to_owned(),
            "avatar".to_owned(),
            "created_at".to_owned(),
            "last_login".to_owned(),
        ];
        let ghost names = seq![
            "packetType"@,
            "user_id"@,
            "username"@,
            "email"@,
            "bio"@,
            "age"@,
            "balance"@,
            "tags"@,
            "preferences"@,
            "avatar"@,
            "created_at"@,
            "last_login"@,
        ];
        assert(forall|a: int| 0 <= a < 12 ==> keys@[a]@ == #[trigger] names[a]);
        assert(forall|a: int, b: int|
            0 <= a < b < 12 ==> #[trigger] names[a] != #[trigger] names[b]);
        let mut slots = take_fields(entries, &keys);
        let slot_last_login = slots.pop().unwrap();
        let slot_created_at = slots.pop().unwrap();
        let slot_avatar = slots.pop().unwrap();
        let slot_preferences = slots.pop().unwrap();
        let slot_tags = slots.pop().unwrap();
        let slot_balance = slots.pop().unwrap();
        let slot_age = slots.pop().unwrap();
        let slot_bio = slots.pop().unwrap();
        let slot_email = slots.pop().unwrap();
        let slot_username = slots.pop().unwrap();
        let slot_user_id = slots.pop().unwrap();
        let slot_type_id = slots.pop().unwrap();
        match check_type_id(slot_type_id, Self::TYPE) {
            Ok(()) => {},
            Err(e) => {
                return Err(e);
            },
        }
        let user_id = match decode_int(slot_user_id) {
            Ok(v) => v,
            Err(e) => {
                return Err(e);
            },
        };
        let username = match decode_text(slot_username) {
            Ok(v) => v,
            Err(e) => {
                return Err(e);
            },
        };
        let email = match decode_text(slot_email) {
            Ok(v) => v,
            Err(e) => {
                return Err(e);
            },
        };
        let bio = match present(slot_bio) {
            None => None,
            Some(w) => match decode_text(Some(w)) {
                Ok(v) => Some(v),
                Err(e) => {
                    return Err(e);
                },
            },
        };
        let age = match present(slot_age) {
            None => None,
            Some(w) => match decode_int(Some(w)) {
                Ok(v) => Some(v),
                Err(e) => {
                    return Err(e);
                },
            },
        };
        let balance = match decode_float(slot_balance) {
            Ok(v) => v,
            Err(e) => {
                return Err(e);
            },
        };
        let tags = match decode_text_list(slot_tags) {
            Ok(v) => v,
            Err(e) => {
                return Err(e);
            },
        };
        let preferences = match decode_mapping(slot_preferences) {
            Ok(v) => v,
            Err(e) => {
                return Err(e);
            },
        };
        let avatar = match present(slot_avatar) {
            None => None,
            Some(w) => match decode_bytes(Some(w), format) {
                Ok(v) => Some(v),
                Err(e) => {
                    return Err(e);
                },
            },
        };
        let created_at = match decode_timestamp(slot_created_at, format) {
            Ok(v) => v,
            Err(e) => {
                return Err(e);
            },
        };
        let last_login = match present(slot_last_login) {
            None => None,
            Some(w) => match decode_timestamp(Some(w), format) {
                Ok(v) => Some(v),
                Err(e) => {
                    return Err(e);
                },
            },
        };
        Ok(UserProfilePacket {
            packet_type: Self::TYPE.to_owned(),
            user_id,
            username,
            email,
            bio,
            age,
            balance,
            tags,
            preferences,
            avatar,
            created_at,
            last_login,
        })
    }
}

/// Decoding the document that encoding a valid record produced succeeds, and
/// whatever it yields equals the record field for field.
pub proof fn lemma_round_trip(p: UserProfilePacket, doc: DynamicValue, format: WireFormat)
    requires
        p.wf(),
        p.encoded_as(doc, format),
    ensures
        UserProfilePacket::decode_error(doc, format) is None,
        p.decoded_from(doc, format),
        forall|q: UserProfilePacket| #[trigger] q.decoded_from(doc, format) ==> q.same_fields(p),
{
    reveal_strlit("packetType");
    reveal_strlit("user_id");
    reveal_strlit("username");
    reveal_strlit("email");
    reveal_strlit("bio");
    reveal_strlit("age");
    reveal_strlit("balance");
    reveal_strlit("tags");
    reveal_strlit("preferences");
    reveal_strlit("avatar");
    reveal_strlit("created_at");
    reveal_strlit("last_login");
    assert("packetType"@.len() == 10);
    assert("user_id"@.len() == 7);
    assert("username"@.len() == 8);
    assert("email"@.len() == 5);
    assert("bio"@.len() == 3);
    assert("age"@.len() == 3);
    assert("balance"@.len() == 7);
    assert("tags"@.len() == 4);
    assert("preferences"@.len() == 11);
    assert("avatar"@.len() == 6);
    assert("created_at"@.len() == 10);
    assert("last_login"@.len() == 10);
    assert("packetType"@[0] == 'p');
    assert("created_at"@[0] == 'c');
    assert("last_login"@[0] == 'l');
    assert("user_id"@[0] == 'u');
    assert("balance"@[0] == 'b');
    assert("bio"@[0] == 'b');
    assert("age"@[0] == 'a');
    let es = doc->Mapping_0@;
    reveal_with_fuel(absent_before, 12);
    lemma_lookup_at(es, 0, "packetType"@);
    lemma_lookup_at(es, 1, "user_id"@);
    lemma_lookup_at(es, 2, "username"@);
    lemma_lookup_at(es, 3, "email"@);
    lemma_lookup_at(es, 4, "bio"@);
    lemma_lookup_at(es, 5, "age"@);
    lemma_lookup_at(es, 6, "balance"@);
    lemma_lookup_at(es, 7, "tags"@);
    lemma_lookup_at(es, 8, "preferences"@);
    lemma_lookup_at(es, 9, "avatar"@);
    lemma_lookup_at(es, 10, "created_at"@);
    lemma_lookup_at(es, 11, "last_login"@);
    lemma_text_list_round_trip(es[7].1, p.tags@);
    if p.avatar is Some {
        lemma_bytes_round_trip(es[9].1, p.avatar->Some_0@, format);
    }
    lemma_timestamp_round_trip(es[10].1, p.created_at, format);
    if p.last_login is Some {
        lemma_timestamp_round_trip(es[11].1, p.last_login->Some_0, format);
    }
}
/// Each optional field that is unset is written as null and reads back unset,
/// not as a default value.
pub proof fn lemma_unset_fields_stay_unset(p: UserProfilePacket, doc: DynamicValue, format: WireFormat)
    requires
        p.wf(),
        p.encoded_as(doc, format),
    ensures
        forall|q: UserProfilePacket| #[trigger] q.decoded_from(doc, format) ==> {
            &&& p.bio is None ==> q.bio is None
            &&& p.age is None ==> q.age is None
            &&& p.avatar is None ==> q.avatar is None
            &&& p.last_login is None ==> q.last_login is None
        },
{
    lemma_round_trip(p, doc, format);
}

} // verus!
