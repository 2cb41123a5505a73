use vstd::prelude::*;

verus! {

/// The lowercase hex digit of a value below 16.
pub open spec fn hex_digit(n: u8) -> char {
    if n < 10 {
        (n + 48) as char
    } else {
        (n + 87) as char
    }
}

/// The value of a hex digit of either case, or `None` for any other character.
pub open spec fn digit_value(c: char) -> Option<u8> {
    if '0' <= c && c <= '9' {
        Some((c as u32 - 48) as u8)
    } else if 'a' <= c && c <= 'f' {
        Some((c as u32 - 87) as u8)
    } else if 'A' <= c && c <= 'F' {
        Some((c as u32 - 55) as u8)
    } else {
        None
    }
}

/// Two lowercase hex digits per byte, high half first.
pub open spec fn hex_of(bytes: Seq<u8>) -> Seq<char> {
    Seq::new(
        2 * bytes.len(),
        |i: int|
            if i % 2 == 0 {
                hex_digit(bytes[i / 2] / 16)
            } else {
                hex_digit(bytes[i / 2] % 16)
            },
    )
}

/// The bytes that hex text spells, or `None` where its length is odd or a
/// character is not a hex digit.
pub open spec fn bytes_of_hex(text: Seq<char>) -> Option<Seq<u8>> {
    if text.len() % 2 == 0 && forall|i: int| 0 <= i < text.len() ==> (#[trigger] digit_value(text[i])) is Some {
        Some(
            Seq::new(
                text.len() / 2,
                |i: int| (digit_value(text[2 * i])->0 * 16 + digit_value(text[2 * i + 1])->0) as u8,
            ),
        )
    } else {
        None
    }
}

proof fn lemma_digit_value(n: u8)
    requires
        n < 16,
    ensures
        digit_value(hex_digit(n)) == Some(n),
{
}

/// Reading back the hex text of a byte buffer gives the same bytes.
pub proof fn lemma_hex_round_trip(bytes: Seq<u8>)
    ensures
        bytes_of_hex(hex_of(bytes)) == Some(bytes),
{
    let text = hex_of(bytes);
    assert forall|i: int| 0 <= i < text.len() implies (#[trigger] digit_value(text[i])) is Some by {
        lemma_digit_value(bytes[i / 2] / 16);
        lemma_digit_value(bytes[i / 2] % 16);
    }
    let back = bytes_of_hex(text)->0;
    assert forall|i: int| 0 <= i < bytes.len() implies back[i] == bytes[i] by {
        assert(text[2 * i] == hex_digit(bytes[i] / 16));
        assert(text[2 * i + 1] == hex_digit(bytes[i] % 16));
        lemma_digit_value(bytes[i] / 16);
        lemma_digit_value(bytes[i] % 16);
    }
    assert(back =~= bytes);
}

fn digit(n: u8) -> (c: char)
    requires
        n < 16,
    ensures
        c == hex_digit(n),
{
    if n < 10 {
        (n + 48) as char
    } else {
        (n + 87) as char
    }
}

fn value_of_digit(c: char) -> (r: Option<u8>)
    ensures
        r == digit_value(c),
{
    if '0' <= c && c <= '9' {
        Some((c as u32 - 48) as u8)
    } else if 'a' <= c && c <= 'f' {
        Some((c as u32 - 87) as u8)
    } else if 'A' <= c && c <= 'F' {
        Some((c as u32 - 55) as u8)
    } else {
        None
    }
}

/// Relies on `String::push`: appends one character at the end.
#[verifier::external_body]
fn push_char(s: &mut String, c: char)
    ensures
        final(s)@ == old(s)@.push(c),
{
    s.push(c)
}

/// Relies on `str::chars`: the characters of the text, in order.
#[verifier::external_body]
fn chars_of(s: &str) -> (r: Vec<char>)
    ensures
        r@ == s@,
{
    s.chars().collect()
}

/// Writes a byte buffer as lowercase hex text.
pub fn encode_hex(bytes: &Vec<u8>) -> (text: String)
    requires
        2 * bytes@.len() <= usize::MAX,
    ensures
        text@ == hex_of(bytes@),
{
    let mut text = String::new();
    let mut i: usize = 0;
    while i < bytes.len()
        invariant
            i <= bytes@.len(),
            text@ =~= hex_of(bytes@).subrange(0, 2 * i as int),
        decreases bytes@.len() - i,
    {
        let b = bytes[i];
        push_char(&mut text, digit(b / 16));
        push_char(&mut text, digit(b % 16));
        assert(text@ =~= hex_of(bytes@).subrange(0, 2 * (i + 1) as int));
        i = i + 1;
    }
    assert(hex_of(bytes@).subrange(0, 2 * i as int) =~= hex_of(bytes@));
    text
}

/// Reads hex text of either case back into bytes; `None` where the text is
/// not an even number of hex digits.
pub fn decode_hex(text: &str) -> (r: Option<Vec<u8>>)
    ensures
        r matches Some(v) ==> bytes_of_hex(text@) == Some(v@),
        r is None ==> bytes_of_hex(text@) is None,
{
    let chars = chars_of(text);
    if chars.len() % 2 != 0 {
        return None;
    }
    let mut out: Vec<u8> = Vec::new();
    let mut i: usize = 0;
    while i < chars.len() / 2
        invariant
            chars@ == text@,
            chars@.len() % 2 == 0,
            i <= chars@.len() / 2,
            out@.len() == i,
            forall|k: int| 0 <= k < 2 * i ==> (#[trigger] digit_value(chars@[k])) is Some,
            forall|k: int|
                0 <= k < i ==> out@[k] == (digit_value(chars@[2 * k])->0 * 16 + digit_value(
                    chars@[2 * k + 1],
                )->0) as u8,
        decreases chars@.len() / 2 - i,
    {
        let hi = value_of_digit(chars[2 * i]);
        let lo = value_of_digit(chars[2 * i + 1]);
        match (hi, lo) {
            (Some(h), Some(l)) => {
                assert(h < 16 && l < 16);
                out.push(h * 16 + l);
            },
            _ => {
                return None;
            },
        }
        i = i + 1;
    }
    assert(out@ =~= bytes_of_hex(text@)->0);
    Some(out)
}

} // verus!
