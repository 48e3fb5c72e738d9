//! Names that Vulkan reports as NUL-terminated C strings in fixed-size
//! arrays (layer names, extension names, device names), turned into
//! `String`s.
use vstd::prelude::*;

verus! {

/// What std's `str::from_utf8` makes of `bytes`: the characters they
/// encode, or nothing where they are not valid UTF-8.
pub uninterp spec fn utf8_decoded(bytes: Seq<u8>) -> Option<Seq<char>>;

/// Every byte is ASCII.
pub open spec fn is_ascii_bytes(bytes: Seq<u8>) -> bool {
    forall|i: int| 0 <= i < bytes.len() ==> #[trigger] bytes[i] < 0x80
}

/// The characters of ASCII bytes, one per byte.
pub open spec fn ascii_chars(bytes: Seq<u8>) -> Seq<char> {
    bytes.map_values(|b: u8| b as char)
}

/// Calls std's `str::from_utf8` and copies the text it finds. What it
/// decodes is named [`utf8_decoded`]; std documents that ASCII is valid
/// UTF-8 with each byte standing for the character of the same code, which
/// is the one fact claimed of the name.
#[verifier::external_body]
fn decode_utf8(bytes: &[u8]) -> (text: Option<String>)
    ensures
        match text {
            Some(s) => utf8_decoded(bytes@) == Some(s@),
            None => utf8_decoded(bytes@) is None,
        },
        is_ascii_bytes(bytes@) ==> text is Some && text.unwrap()@ == ascii_chars(bytes@),
{
    match std::str::from_utf8(bytes) {
        Ok(s) => Some(s.to_owned()),
        Err(_) => None,
    }
}

/// The position of the first NUL at or after `k`.
pub open spec fn first_nul_from(c_string: Seq<i8>, k: int) -> Option<int>
    decreases c_string.len() - k,
{
    if k < 0 || k >= c_string.len() {
        None
    } else if c_string[k] == 0 {
        Some(k)
    } else {
        first_nul_from(c_string, k + 1)
    }
}

/// The bytes of the C string: those before the first NUL.
pub open spec fn c_string_bytes(c_string: Seq<i8>) -> Seq<u8> {
    c_string.take(first_nul_from(c_string, 0).unwrap()).map_values(|c: i8| c as u8)
}

/// The bytes before the first NUL, where there is one.
fn bytes_before_nul(c_string: &[i8]) -> (r: Option<Vec<u8>>)
    ensures
        match first_nul_from(c_string@, 0) {
            Some(_) => r is Some && r.unwrap()@ == c_string_bytes(c_string@),
            None => r is None,
        },
{
    let mut bytes: Vec<u8> = Vec::new();
    let mut k: usize = 0;
    while k < c_string.len()
        invariant
            k <= c_string.len(),
            first_nul_from(c_string@, k as int) == first_nul_from(c_string@, 0),
            bytes@ == c_string@.take(k as int).map_values(|c: i8| c as u8),
        decreases c_string.len() - k,
    {
        if c_string[k] == 0 {
            return Some(bytes);
        }
        bytes.push(c_string[k] as u8);
        proof {
            assert(c_string@.take(k + 1).map_values(|c: i8| c as u8) =~= c_string@.take(
                k as int,
            ).map_values(|c: i8| c as u8).push(c_string@[k as int] as u8));
        }
        k += 1;
    }
    None
}

/// The text of a C string: the UTF-8 text of the bytes before its first
/// NUL.
pub fn raw_c_string_to_string(c_string: &[i8]) -> (s: String)
    requires
        first_nul_from(c_string@, 0) is Some,
        utf8_decoded(c_string_bytes(c_string@)) is Some,
    ensures
        Some(s@) == utf8_decoded(c_string_bytes(c_string@)),
{
    let bytes = bytes_before_nul(c_string).unwrap();
    decode_utf8(bytes.as_slice()).unwrap()
}

/// The text of a C string, where the array holds a NUL and the bytes before
/// it are UTF-8; nothing otherwise.
pub fn try_raw_c_string_to_string(c_string: &[i8]) -> (s: Option<String>)
    ensures
        match first_nul_from(c_string@, 0) {
            None => s is None,
            Some(_) => match utf8_decoded(c_string_bytes(c_string@)) {
                Some(text) => s is Some && s.unwrap()@ == text,
                None => s is None,
            },
        },
        first_nul_from(c_string@, 0) is Some && is_ascii_bytes(c_string_bytes(c_string@)) ==> s
            is Some && s.unwrap()@ == ascii_chars(c_string_bytes(c_string@)),
{
    match bytes_before_nul(c_string) {
        None => None,
        Some(bytes) => {
            match decode_utf8(bytes.as_slice()) {
                Some(_) => Some(raw_c_string_to_string(c_string)),
                None => None,
            }
        },
    }
}

} // verus!
