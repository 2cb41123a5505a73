use vstd::prelude::*;
use crate::error::CodecError;
use crate::hex::{bytes_of_hex, decode_hex, encode_hex, hex_of, lemma_hex_round_trip};
use crate::time::{
    format_clock, format_instant, parse_clock, parse_instant, clock_of_text, clock_text,
    instant_of_text, instant_text, Timestamp, WallClockTime, MAX_UNIX_SECS, MIN_UNIX_SECS,
    NANOS_PER_SEC, SECS_PER_DAY,
};
use crate::value::DynamicValue;

verus! {

/// Which of the two wire forms a document tree is meant for.
#[derive(Debug, Clone, Copy, PartialEq, Eq, Structural)]
pub enum WireFormat {
    /// The text form: byte buffers as hex text, instants and times of day as
    /// ISO-8601 text.
    Text,
    /// The binary form: byte buffers raw, instants and times of day as a
    /// two-element list of seconds and nanoseconds.
    Binary,
}

/// An IEEE-754 double, held as its bits.
#[derive(Debug, Clone, Copy, PartialEq, Eq, Structural)]
pub struct Float64 {
    pub bits: u64,
}

impl Float64 {
    pub fn from_bits(bits: u64) -> (r: Float64)
        ensures
            r.bits == bits,
    {
        Float64 { bits }
    }
}

// ---- what a field's value looks like on the wire ----
pub open spec fn timestamp_wire(w: DynamicValue, t: Timestamp, format: WireFormat) -> bool {
    match format {
        WireFormat::Text => w matches DynamicValue::Text(s) && s@ == instant_text(
            t.secs as int,
            t.nanos as int,
        ) && instant_of_text(s@) == Some((t.secs as int, t.nanos as int)),
        WireFormat::Binary => w matches DynamicValue::List(items) && items@ == seq![
            DynamicValue::Int(t.secs),
            DynamicValue::Int(t.nanos as i64),
        ],
    }
}

pub open spec fn clock_wire(w: DynamicValue, t: WallClockTime, format: WireFormat) -> bool {
    match format {
        WireFormat::Text => w matches DynamicValue::Text(s) && s@ == clock_text(
            t.secs as int,
            t.nanos as int,
        ) && clock_of_text(s@) == Some((t.secs as int, t.nanos as int)),
        WireFormat::Binary => w matches DynamicValue::List(items) && items@ == seq![
            DynamicValue::Int(t.secs as i64),
            DynamicValue::Int(t.nanos as i64),
        ],
    }
}

pub open spec fn bytes_wire(w: DynamicValue, b: Seq<u8>, format: WireFormat) -> bool {
    match format {
        WireFormat::Text => w matches DynamicValue::Text(s) && s@ == hex_of(b),
        WireFormat::Binary => w matches DynamicValue::Bytes(v) && v@ == b,
    }
}

pub open spec fn int_list_wire(w: DynamicValue, v: Seq<i64>) -> bool {
    w matches DynamicValue::List(items) && items@.len() == v.len() && forall|i: int|
        0 <= i < v.len() ==> items@[i] == DynamicValue::Int(#[trigger] v[i])
}

pub open spec fn text_list_wire(w: DynamicValue, v: Seq<String>) -> bool {
    w matches DynamicValue::List(items) && items@.len() == v.len() && forall|i: int|
        0 <= i < v.len() ==> items@[i] == DynamicValue::Text(#[trigger] v[i])
}

// ---- what a field slot decodes to ----
pub open spec fn int_field(slot: Option<DynamicValue>) -> Result<i64, CodecError> {
    match slot {
        None => Err(CodecError::MissingRequiredField),
        Some(DynamicValue::Int(i)) => Ok(i),
        Some(_) => Err(CodecError::ShapeMismatch),
    }
}

pub open spec fn float_field(slot: Option<DynamicValue>) -> Result<Float64, CodecError> {
    match slot {
        None => Err(CodecError::MissingRequiredField),
        Some(DynamicValue::Float(bits)) => Ok(Float64 { bits }),
        Some(_) => Err(CodecError::ShapeMismatch),
    }
}

pub open spec fn bool_field(slot: Option<DynamicValue>) -> Result<bool, CodecError> {
    match slot {
        None => Err(CodecError::MissingRequiredField),
        Some(DynamicValue::Bool(b)) => Ok(b),
        Some(_) => Err(CodecError::ShapeMismatch),
    }
}

pub open spec fn text_field(slot: Option<DynamicValue>) -> Result<String, CodecError> {
    match slot {
        None => Err(CodecError::MissingRequiredField),
        Some(DynamicValue::Text(s)) => Ok(s),
        Some(_) => Err(CodecError::ShapeMismatch),
    }
}

pub open spec fn timestamp_field(slot: Option<DynamicValue>, format: WireFormat) -> Result<
    Timestamp,
    CodecError,
> {
    match slot {
        None => Err(CodecError::MissingRequiredField),
        Some(w) => {
            let parts = match format {
                WireFormat::Text => match w {
                    DynamicValue::Text(s) => instant_of_text(s@),
                    _ => None,
                },
                WireFormat::Binary => pair_of(w),
            };
            match parts {
                Some(p) => match Timestamp::from_parts(p.0, p.1) {
                    Some(t) => Ok(t),
                    None => Err(CodecError::ShapeMismatch),
                },
                None => Err(CodecError::ShapeMismatch),
            }
        },
    }
}

pub open spec fn clock_field(slot: Option<DynamicValue>, format: WireFormat) -> Result<
    WallClockTime,
    CodecError,
> {
    match slot {
        None => Err(CodecError::MissingRequiredField),
        Some(w) => {
            let parts = match format {
                WireFormat::Text => match w {
                    DynamicValue::Text(s) => clock_of_text(s@),
                    _ => None,
                },
                WireFormat::Binary => pair_of(w),
            };
            match parts {
                Some(p) => match WallClockTime::from_parts(p.0, p.1) {
                    Some(t) => Ok(t),
                    None => Err(CodecError::ShapeMismatch),
                },
                None => Err(CodecError::ShapeMismatch),
            }
        },
    }
}

/// The two integers of a two-element list of integers.
pub open spec fn pair_of(w: DynamicValue) -> Option<(int, int)> {
    match w {
        DynamicValue::List(items) => if items@.len() == 2 && items@[0] is Int && items@[1] is Int {
            Some((items@[0]->Int_0 as int, items@[1]->Int_0 as int))
        } else {
            None
        },
        _ => None,
    }
}

pub open spec fn bytes_field(slot: Option<DynamicValue>, format: WireFormat) -> Result<
    Seq<u8>,
    CodecError,
> {
    match slot {
        None => Err(CodecError::MissingRequiredField),
        Some(w) => match (format, w) {
            (WireFormat::Text, DynamicValue::Text(s)) => match bytes_of_hex(s@) {
                Some(b) => Ok(b),
                None => Err(CodecError::ShapeMismatch),
            },
            (WireFormat::Binary, DynamicValue::Bytes(v)) => Ok(v@),
            _ => Err(CodecError::ShapeMismatch),
        },
    }
}

pub open spec fn int_list_field(slot: Option<DynamicValue>) -> Result<Seq<i64>, CodecError> {
    match slot {
        None => Err(CodecError::MissingRequiredField),
        Some(DynamicValue::List(items)) => if forall|i: int|
            0 <= i < items@.len() ==> (#[trigger] items@[i]) is Int {
            Ok(items@.map_values(|x: DynamicValue| x->Int_0))
        } else {
            Err(CodecError::ShapeMismatch)
        },
        Some(_) => Err(CodecError::ShapeMismatch),
    }
}

pub open spec fn text_list_field(slot: Option<DynamicValue>) -> Result<Seq<String>, CodecError> {
    match slot {
        None => Err(CodecError::MissingRequiredField),
        Some(DynamicValue::List(items)) => if forall|i: int|
            0 <= i < items@.len() ==> (#[trigger] items@[i]) is Text {
            Ok(items@.map_values(|x: DynamicValue| x->Text_0))
        } else {
            Err(CodecError::ShapeMismatch)
        },
        Some(_) => Err(CodecError::ShapeMismatch),
    }
}

pub open spec fn list_field(slot: Option<DynamicValue>) -> Result<Vec<DynamicValue>, CodecError> {
    match slot {
        None => Err(CodecError::MissingRequiredField),
        Some(DynamicValue::List(items)) => Ok(items),
        Some(_) => Err(CodecError::ShapeMismatch),
    }
}

pub open spec fn mapping_field(slot: Option<DynamicValue>) -> Result<
    Vec<(String, DynamicValue)>,
    CodecError,
> {
    match slot {
        None => Err(CodecError::MissingRequiredField),
        Some(DynamicValue::Mapping(entries)) => Ok(entries),
        Some(_) => Err(CodecError::ShapeMismatch),
    }
}

/// An optional field is unset where its key is absent or holds null.
pub open spec fn is_unset(slot: Option<DynamicValue>) -> bool {
    slot is None || slot == Some(DynamicValue::Null)
}

/// The error of a field's result, if any.
pub open spec fn error_of<T>(r: Result<T, CodecError>) -> Option<CodecError> {
    match r {
        Ok(_) => None,
        Err(e) => Some(e),
    }
}

// ---- encoders ----
pub(crate) fn encode_timestamp(t: Timestamp, format: WireFormat) -> (w: DynamicValue)
    requires
        t.wf(),
    ensures
        timestamp_wire(w, t, format),
{
    match format {
        WireFormat::Text => DynamicValue::Text(format_instant(t.secs, t.nanos)),
        WireFormat::Binary => {
            let items = vec![DynamicValue::Int(t.secs), DynamicValue::Int(t.nanos as i64)];
            assert(items@ =~= seq![DynamicValue::Int(t.secs), DynamicValue::Int(t.nanos as i64)]);
            DynamicValue::List(items)
        },
    }
}

pub(crate) fn encode_clock(t: WallClockTime, format: WireFormat) -> (w: DynamicValue)
    requires
        t.wf(),
    ensures
        clock_wire(w, t, format),
{
    match format {
        WireFormat::Text => DynamicValue::Text(format_clock(t.secs, t.nanos)),
        WireFormat::Binary => {
            let items = vec![DynamicValue::Int(t.secs as i64), DynamicValue::Int(t.nanos as i64)];
            assert(items@ =~= seq![
                DynamicValue::Int(t.secs as i64),
                DynamicValue::Int(t.nanos as i64),
            ]);
            DynamicValue::List(items)
        },
    }
}

pub(crate) fn encode_bytes(b: Vec<u8>, format: WireFormat) -> (w: DynamicValue)
    requires
        2 * b@.len() <= usize::MAX,
    ensures
        bytes_wire(w, b@, format),
{
    match format {
        WireFormat::Text => DynamicValue::Text(encode_hex(&b)),
        WireFormat::Binary => DynamicValue::Bytes(b),
    }
}

pub(crate) fn encode_int_list(v: &Vec<i64>) -> (w: DynamicValue)
    ensures
        int_list_wire(w, v@),
{
    let mut items: Vec<DynamicValue> = Vec::new();
    let mut i: usize = 0;
    while i < v.len()
        invariant
            i <= v@.len(),
            items@.len() == i,
            forall|k: int| 0 <= k < i ==> items@[k] == DynamicValue::Int(v@[k]),
        decreases v@.len() - i,
    {
        items.push(DynamicValue::Int(v[i]));
        i = i + 1;
    }
    DynamicValue::List(items)
}

pub(crate) fn encode_text_list(v: Vec<String>) -> (w: DynamicValue)
    ensures
        text_list_wire(w, v@),
{
    let ghost all = v@;
    let mut rest = v;
    let mut items: Vec<DynamicValue> = Vec::new();
    while rest.len() > 0
        invariant
            items@.len() + rest@.len() == all.len(),
            rest@ == all.subrange(items@.len() as int, all.len() as int),
            forall|k: int| 0 <= k < items@.len() ==> items@[k] == DynamicValue::Text(all[k]),
        decreases rest@.len(),
    {
        let ghost n: int = items@.len() as int;
        let s = rest.remove(0);
        assert(s == all[n as int]);
        items.push(DynamicValue::Text(s));
        assert(rest@ =~= all.subrange(n + 1, all.len() as int));
    }
    DynamicValue::List(items)
}

// ---- decoders ----
pub(crate) fn decode_int(slot: Option<DynamicValue>) -> (r: Result<i64, CodecError>)
    ensures
        r == int_field(slot),
{
    match slot {
        None => Err(CodecError::MissingRequiredField),
        Some(DynamicValue::Int(i)) => Ok(i),
        Some(_) => Err(CodecError::ShapeMismatch),
    }
}

pub(crate) fn decode_float(slot: Option<DynamicValue>) -> (r: Result<Float64, CodecError>)
    ensures
        r == float_field(slot),
{
    match slot {
        None => Err(CodecError::MissingRequiredField),
        Some(DynamicValue::Float(bits)) => Ok(Float64 { bits }),
        Some(_) => Err(CodecError::ShapeMismatch),
    }
}

pub(crate) fn decode_bool(slot: Option<DynamicValue>) -> (r: Result<bool, CodecError>)
    ensures
        r == bool_field(slot),
{
    match slot {
        None => Err(CodecError::MissingRequiredField),
        Some(DynamicValue::Bool(b)) => Ok(b),
        Some(_) => Err(CodecError::ShapeMismatch),
    }
}

pub(crate) fn decode_text(slot: Option<DynamicValue>) -> (r: Result<String, CodecError>)
    ensures
        r == text_field(slot),
{
    match slot {
        None => Err(CodecError::MissingRequiredField),
        Some(DynamicValue::Text(s)) => Ok(s),
        Some(_) => Err(CodecError::ShapeMismatch),
    }
}

fn pair_parts(w: &DynamicValue) -> (r: Option<(i64, i64)>)
    ensures
        r matches Some(p) ==> pair_of(*w) == Some((p.0 as int, p.1 as int)),
        r is None ==> pair_of(*w) is None,
{
    match w {
        DynamicValue::List(items) => {
            if items.len() == 2 {
                match (&items[0], &items[1]) {
                    (DynamicValue::Int(a), DynamicValue::Int(b)) => Some((*a, *b)),
                    _ => None,
                }
            } else {
                None
            }
        },
        _ => None,
    }
}

fn timestamp_from(secs: i64, nanos: i64) -> (r: Result<Timestamp, CodecError>)
    ensures
        r == (match Timestamp::from_parts(secs as int, nanos as int) {
            Some(t) => Ok(t),
            None => Err(CodecError::ShapeMismatch),
        }),
{
    if MIN_UNIX_SECS <= secs && secs <= MAX_UNIX_SECS && 0 <= nanos && nanos < NANOS_PER_SEC as i64 {
        Ok(Timestamp { secs, nanos: nanos as u32 })
    } else {
        Err(CodecError::ShapeMismatch)
    }
}

fn clock_from(secs: i64, nanos: i64) -> (r: Result<WallClockTime, CodecError>)
    ensures
        r == (match WallClockTime::from_parts(secs as int, nanos as int) {
            Some(t) => Ok(t),
            None => Err(CodecError::ShapeMismatch),
        }),
{
    if 0 <= secs && secs < SECS_PER_DAY as i64 && 0 <= nanos && nanos < NANOS_PER_SEC as i64 {
        Ok(WallClockTime { secs: secs as u32, nanos: nanos as u32 })
    } else {
        Err(CodecError::ShapeMismatch)
    }
}

pub(crate) fn decode_timestamp(slot: Option<DynamicValue>, format: WireFormat) -> (r: Result<
    Timestamp,
    CodecError,
>)
    ensures
        r == timestamp_field(slot, format),
{
    match slot {
        None => Err(CodecError::MissingRequiredField),
        Some(w) => {
            let parts: Option<(i64, i64)> = match format {
                WireFormat::Text => match &w {
                    DynamicValue::Text(s) => match parse_instant(s.as_str()) {
                        Some(p) => Some((p.0, p.1 as i64)),
                        None => None,
                    },
                    _ => None,
                },
                WireFormat::Binary => pair_parts(&w),
            };
            match parts {
                Some(p) => timestamp_from(p.0, p.1),
                None => Err(CodecError::ShapeMismatch),
            }
        },
    }
}

pub(crate) fn decode_clock(slot: Option<DynamicValue>, format: WireFormat) -> (r: Result<
    WallClockTime,
    CodecError,
>)
    ensures
        r == clock_field(slot, format),
{
    match slot {
        None => Err(CodecError::MissingRequiredField),
        Some(w) => {
            let parts: Option<(i64, i64)> = match format {
                WireFormat::Text => match &w {
                    DynamicValue::Text(s) => match parse_clock(s.as_str()) {
                        Some(p) => Some((p.0 as i64, p.1 as i64)),
                        None => None,
                    },
                    _ => None,
                },
                WireFormat::Binary => pair_parts(&w),
            };
            match parts {
                Some(p) => clock_from(p.0, p.1),
                None => Err(CodecError::ShapeMismatch),
            }
        },
    }
}

pub(crate) fn decode_bytes(slot: Option<DynamicValue>, format: WireFormat) -> (r: Result<
    Vec<u8>,
    CodecError,
>)
    ensures
        r matches Ok(v) ==> bytes_field(slot, format) == Ok::<Seq<u8>, CodecError>(v@),
        r matches Err(e) ==> bytes_field(slot, format) == Err::<Seq<u8>, CodecError>(e),
{
    match slot {
        None => Err(CodecError::MissingRequiredField),
        Some(w) => match format {
            WireFormat::Text => match w {
                DynamicValue::Text(s) => match decode_hex(s.as_str()) {
                    Some(b) => Ok(b),
                    None => Err(CodecError::ShapeMismatch),
                },
                _ => Err(CodecError::ShapeMismatch),
            },
            WireFormat::Binary => match w {
                DynamicValue::Bytes(v) => Ok(v),
                _ => Err(CodecError::ShapeMismatch),
            },
        },
    }
}

pub(crate) fn decode_int_list(slot: Option<DynamicValue>) -> (r: Result<Vec<i64>, CodecError>)
    ensures
        r matches Ok(v) ==> int_list_field(slot) == Ok::<Seq<i64>, CodecError>(v@),
        r matches Err(e) ==> int_list_field(slot) == Err::<Seq<i64>, CodecError>(e),
{
    match slot {
        None => Err(CodecError::MissingRequiredField),
        Some(DynamicValue::List(items)) => {
            let mut out: Vec<i64> = Vec::new();
            let mut i: usize = 0;
            while i < items.len()
                invariant
                    slot == Some(DynamicValue::List(items)),
                    i <= items@.len(),
                    out@.len() == i,
                    forall|k: int| 0 <= k < i ==> (#[trigger] items@[k]) is Int,
                    forall|k: int| 0 <= k < i ==> out@[k] == items@[k]->Int_0,
                decreases items@.len() - i,
            {
                match &items[i] {
                    DynamicValue::Int(x) => out.push(*x),
                    _ => {
                        assert(!(items@[i as int] is Int));
                        return Err(CodecError::ShapeMismatch);
                    },
                }
                i = i + 1;
            }
            assert(out@ =~= items@.map_values(|x: DynamicValue| x->Int_0));
            Ok(out)
        },
        Some(_) => Err(CodecError::ShapeMismatch),
    }
}

pub(crate) fn decode_text_list(slot: Option<DynamicValue>) -> (r: Result<Vec<String>, CodecError>)
    ensures
        r matches Ok(v) ==> text_list_field(slot) == Ok::<Seq<String>, CodecError>(v@),
        r matches Err(e) ==> text_list_field(slot) == Err::<Seq<String>, CodecError>(e),
{
    match slot {
        None => Err(CodecError::MissingRequiredField),
        Some(DynamicValue::List(items)) => {
            let ghost all = items@;
            let mut rest = items;
            let mut out: Vec<String> = Vec::new();
            while rest.len() > 0
                invariant
                    slot matches Some(DynamicValue::List(v)) && v@ == all,
                    out@.len() + rest@.len() == all.len(),
                    rest@ == all.subrange(out@.len() as int, all.len() as int),
                    forall|k: int| 0 <= k < out@.len() ==> (#[trigger] all[k]) is Text,
                    forall|k: int| 0 <= k < out@.len() ==> out@[k] == all[k]->Text_0,
                decreases rest@.len(),
            {
                let ghost n: int = out@.len() as int;
                let x = rest.remove(0);
                assert(x == all[n as int]);
                assert(rest@ =~= all.subrange(n + 1, all.len() as int));
                match x {
                    DynamicValue::Text(s) => out.push(s),
                    _ => {
                        assert(!(all[n] is Text));
                        return Err(CodecError::ShapeMismatch);
                    },
                }
            }
            assert(out@ =~= all.map_values(|x: DynamicValue| x->Text_0));
            Ok(out)
        },
        Some(_) => Err(CodecError::ShapeMismatch),
    }
}

pub(crate) fn decode_list(slot: Option<DynamicValue>) -> (r: Result<Vec<DynamicValue>, CodecError>)
    ensures
        r == list_field(slot),
{
    match slot {
        None => Err(CodecError::MissingRequiredField),
        Some(DynamicValue::List(items)) => Ok(items),
        Some(_) => Err(CodecError::ShapeMismatch),
    }
}

pub(crate) fn decode_mapping(slot: Option<DynamicValue>) -> (r: Result<
    Vec<(String, DynamicValue)>,
    CodecError,
>)
    ensures
        r == mapping_field(slot),
{
    match slot {
        None => Err(CodecError::MissingRequiredField),
        Some(DynamicValue::Mapping(entries)) => Ok(entries),
        Some(_) => Err(CodecError::ShapeMismatch),
    }
}

/// Separates an unset optional slot from one that holds a value.
pub(crate) fn present(slot: Option<DynamicValue>) -> (r: Option<DynamicValue>)
    ensures
        is_unset(slot) ==> r is None,
        !is_unset(slot) ==> r == slot,
{
    match slot {
        None => None,
        Some(DynamicValue::Null) => None,
        Some(w) => Some(w),
    }
}

// ---- each field type reads back what it wrote ----
pub proof fn lemma_timestamp_round_trip(w: DynamicValue, t: Timestamp, format: WireFormat)
    requires
        t.wf(),
        timestamp_wire(w, t, format),
    ensures
        timestamp_field(Some(w), format) == Ok::<Timestamp, CodecError>(t),
{
}

pub proof fn lemma_clock_round_trip(w: DynamicValue, t: WallClockTime, format: WireFormat)
    requires
        t.wf(),
        clock_wire(w, t, format),
    ensures
        clock_field(Some(w), format) == Ok::<WallClockTime, CodecError>(t),
{
}

pub proof fn lemma_bytes_round_trip(w: DynamicValue, b: Seq<u8>, format: WireFormat)
    requires
        bytes_wire(w, b, format),
    ensures
        bytes_field(Some(w), format) == Ok::<Seq<u8>, CodecError>(b),
{
    lemma_hex_round_trip(b);
}

pub proof fn lemma_int_list_round_trip(w: DynamicValue, v: Seq<i64>)
    requires
        int_list_wire(w, v),
    ensures
        int_list_field(Some(w)) == Ok::<Seq<i64>, CodecError>(v),
{
    let items = w->List_0@;
    assert forall|i: int| 0 <= i < items.len() implies (#[trigger] items[i]) is Int by {
        assert(items[i] == DynamicValue::Int(v[i]));
    }
    assert(items.map_values(|x: DynamicValue| x->Int_0) =~= v);
}

pub proof fn lemma_text_list_round_trip(w: DynamicValue, v: Seq<String>)
    requires
        text_list_wire(w, v),
    ensures
        text_list_field(Some(w)) == Ok::<Seq<String>, CodecError>(v),
{
    let items = w->List_0@;
    assert forall|i: int| 0 <= i < items.len() implies (#[trigger] items[i]) is Text by {
        assert(items[i] == DynamicValue::Text(v[i]));
    }
    assert(items.map_values(|x: DynamicValue| x->Text_0) =~= v);
}

} // verus!
