//! Fixed-width, NUL-terminated text fields of the native interface.
use libc::c_char;
use std::str::Utf8Error;
use vstd::prelude::*;
use vstd::string::StringSliceAdditionalSpecFns;
use vstd::utf8::{decode_utf8, pop_first_scalar, valid_utf8};

use crate::composition::{is_invalid_input, padded};
use crate::errors::RefpropError;

verus! {

/// Width of the diagnostic-text field of every native entry point.
pub const MESSAGE_WIDTH: usize = 255;

pub open spec fn has_nul(bytes: Seq<u8>) -> bool {
    exists|i: int| 0 <= i < bytes.len() && bytes[i] == 0
}

/// Bytes as the native library's characters.
pub open spec fn as_chars(bytes: Seq<u8>) -> Seq<c_char> {
    bytes.map_values(|b: u8| b as c_char)
}

/// A field of width `w` holding `bytes`, padded with NULs.
pub open spec fn text_field(bytes: Seq<u8>, w: nat) -> Seq<c_char> {
    padded(as_chars(bytes), w, 0 as c_char)
}

/// The bytes of a field before its first NUL (all of them when it has none).
pub open spec fn field_text(field: Seq<c_char>) -> Seq<u8>
    decreases field.len(),
{
    if field.len() == 0 || field[0] == 0 {
        Seq::empty()
    } else {
        seq![field[0] as u8] + field_text(field.drop_first())
    }
}

/// Copies `bytes` into a zeroed field of `W` characters.
fn fill_field<const W: usize>(bytes: &[u8], n: usize) -> (r: [c_char; W])
    requires
        n <= bytes@.len(),
        n < W,
    ensures
        r@ == text_field(bytes@.subrange(0, n as int), W as nat),
{
    let mut buf: [c_char; W] = vstd::array::array_fill_for_copy_types(0 as c_char);
    let mut i: usize = 0;
    while i < n
        invariant
            i <= n,
            n <= bytes@.len(),
            n < W,
            buf@.len() == W,
            forall|k: int| 0 <= k < i ==> buf@[k] == bytes@[k] as c_char,
            forall|k: int| i <= k < W ==> buf@[k] == 0 as c_char,
        decreases n - i,
    {
        buf[i] = #[verifier::truncate] (bytes[i] as c_char);
        i = i + 1;
    }
    assert(buf@ =~= text_field(bytes@.subrange(0, n as int), W as nat));
    buf
}

/// Finds a NUL among the bytes.
fn contains_nul(bytes: &[u8]) -> (r: bool)
    ensures
        r == has_nul(bytes@),
{
    let mut i: usize = 0;
    while i < bytes.len()
        invariant
            i <= bytes@.len(),
            forall|k: int| 0 <= k < i ==> bytes@[k] != 0,
        decreases bytes@.len() - i,
    {
        if bytes[i] == 0 {
            return true;
        }
        i = i + 1;
    }
    false
}

/// A string as a field of `W` characters, NUL-terminated. The whole string
/// must fit: fails with `InvalidInput` when it holds a NUL or when it has
/// `W` bytes or more.
pub fn pack_text<const W: usize>(s: &str) -> (r: Result<[c_char; W], RefpropError>)
    ensures
        r is Ok <==> !has_nul(s.spec_bytes()) && s.spec_bytes().len() < W,
        r is Err ==> is_invalid_input(r),
        r matches Ok(f) ==> f@ == text_field(s.spec_bytes(), W as nat),
{
    let bytes = s.as_bytes();
    if contains_nul(bytes) {
        return Err(RefpropError::InvalidInput("string contains a null byte".to_string()));
    }
    if bytes.len() >= W {
        return Err(RefpropError::InvalidInput("string is too long for its field".to_string()));
    }
    let f = fill_field::<W>(bytes, bytes.len());
    assert(bytes@.subrange(0, bytes@.len() as int) =~= bytes@);
    Ok(f)
}

/// A string as a field of `W` characters, NUL-terminated, cut to its first
/// `W - 1` bytes where it is longer. Fails with `InvalidInput` when it holds a NUL.
pub fn pack_text_truncated<const W: usize>(s: &str) -> (r: Result<[c_char; W], RefpropError>)
    requires
        W >= 1,
    ensures
        r is Ok <==> !has_nul(s.spec_bytes()),
        r is Err ==> is_invalid_input(r),
        r matches Ok(f) ==> f@ == text_field(
            s.spec_bytes().subrange(0, vstd::math::min(s.spec_bytes().len() as int, W - 1)),
            W as nat,
        ),
{
    let bytes = s.as_bytes();
    if contains_nul(bytes) {
        return Err(RefpropError::InvalidInput("string contains a null byte".to_string()));
    }
    let n: usize = if bytes.len() > W - 1 {
        W - 1
    } else {
        bytes.len()
    };
    Ok(fill_field::<W>(bytes, n))
}

/// The text of a field: its bytes before the first NUL.
pub fn field_bytes<const W: usize>(field: &[c_char; W]) -> (r: Vec<u8>)
    ensures
        r@ == field_text(field@),
{
    let mut out: Vec<u8> = Vec::new();
    let mut i: usize = 0;
    assert(field@.subrange(0, W as int) =~= field@);
    assert(out@ + field_text(field@) =~= field_text(field@));
    while i < W
        invariant
            i <= W,
            field@.len() == W,
            field_text(field@) == out@ + field_text(field@.subrange(i as int, W as int)),
        decreases W - i,
    {
        let c = field[i];
        assert(field@.subrange(i as int, W as int).drop_first() =~= field@.subrange(
            i + 1,
            W as int,
        ));
        if c == 0 {
            assert(field_text(field@.subrange(i as int, W as int)) =~= Seq::empty());
            assert(out@ + Seq::<u8>::empty() =~= out@);
            return out;
        }
        let ghost before = out@;
        out.push(#[verifier::truncate] (c as u8));
        assert(out@ + field_text(field@.subrange(i + 1, W as int)) =~= before + field_text(
            field@.subrange(i as int, W as int),
        ));
        i = i + 1;
    }
    assert(field_text(field@.subrange(W as int, W as int)) =~= Seq::empty());
    assert(out@ + Seq::<u8>::empty() =~= out@);
    out
}

/// Relies on `std::str::from_utf8`, which succeeds exactly on valid UTF-8
/// and then reads the bytes as the characters they encode.
#[verifier::external_body]
fn utf8_string(bytes: &Vec<u8>) -> (r: Result<String, Utf8Error>)
    ensures
        r is Ok <==> valid_utf8(bytes@),
        r matches Ok(s) ==> s@ == decode_utf8(bytes@),
{
    std::str::from_utf8(bytes.as_slice()).map(|s| s.to_owned())
}

/// Decodes the text of a field as UTF-8.
pub fn decode_field<const W: usize>(field: &[c_char; W]) -> (r: Result<String, RefpropError>)
    ensures
        r is Ok <==> valid_utf8(field_text(field@)),
        r matches Ok(s) ==> s@ == decode_utf8(field_text(field@)),
        r is Err ==> r matches Err(RefpropError::Utf8Error(_)),
{
    let bytes = field_bytes(field);
    match utf8_string(&bytes) {
        Ok(s) => Ok(s),
        Err(e) => Err(RefpropError::Utf8Error(e)),
    }
}

} // verus!

verus! {

/// A string of printable ASCII characters holds no NUL byte.
pub proof fn lemma_printable_no_nul(s: &str)
    requires
        forall|i: int| 0 <= i < s@.len() ==> ' ' <= #[trigger] s@[i] <= '~',
    ensures
        !has_nul(s.spec_bytes()),
{
    broadcast use vstd::string::is_ascii_spec_bytes;

    assert(vstd::utf8::is_ascii_chars(s@));
    assert(vstd::string::is_ascii(s));
    assert forall|i: int| 0 <= i < s.spec_bytes().len() implies s.spec_bytes()[i] != 0 by {
        let c = s@[i];
        let v = c as u32;
        assert(32 <= v <= 126);
        assert(32 <= v <= 126 ==> v as u8 != 0) by (bit_vector);
        assert(s.spec_bytes()[i] == c as u8);
    }
}

/// The text of a field is no longer than the field.
pub proof fn lemma_field_text_len(field: Seq<c_char>)
    ensures
        field_text(field).len() <= field.len(),
    decreases field.len(),
{
    if field.len() > 0 && field[0] != 0 {
        lemma_field_text_len(field.drop_first());
    }
}

/// Decoding UTF-8 gives at most one character per byte.
pub proof fn lemma_decode_len(bytes: Seq<u8>)
    requires
        valid_utf8(bytes),
    ensures
        decode_utf8(bytes).len() <= bytes.len(),
    decreases bytes.len(),
{
    if bytes.len() > 0 {
        let rest = pop_first_scalar(bytes);
        assert(rest.len() < bytes.len());
        lemma_decode_len(rest);
    }
}

} // verus!
