//! Errors from the C library, and the checks that produce them.

use vstd::prelude::*;
use crate::text::{nul_index, c_text, c_text_of, decimal, push_decimal, push_signed_decimal, signed_decimal};

verus! {

/// An error from regor, or from preparing an argument for it.
#[derive(Debug)]
pub enum Error {
    /// The C library returned a non-zero status code.
    RegorError { code: i32, message: String },
    /// An argument contained an interior NUL byte, first at `position`.
    NulError { position: usize, bytes: Vec<u8> },
}

impl Error {
    /// The message this error reads as.
    pub open spec fn text(self) -> Seq<char> {
        match self {
            Error::RegorError { code, message } => "regor error "@ + signed_decimal(code as int)
                + ": "@ + message@,
            Error::NulError { position, bytes } => "interior NUL byte: nul byte found in provided data at position: "@
                + decimal(position as nat),
        }
    }

    /// The message this error reads as.
    pub fn message(&self) -> (s: String)
        ensures
            s@ == self.text(),
    {
        match self {
            Error::RegorError { code, message } => {
                let mut s = String::from_str("regor error ");
                push_signed_decimal(&mut s, *code as i64);
                s.append(": ");
                s.append(message.as_str());
                s
            },
            Error::NulError { position, bytes } => {
                let mut s = String::from_str(
                    "interior NUL byte: nul byte found in provided data at position: ",
                );
                push_decimal(&mut s, *position as u64);
                s
            },
        }
    }
}

/// Turn a status code of the C library into a result: success for zero,
/// otherwise a [`Error::RegorError`] carrying the code and the text of
/// `error_buffer`, the buffer `regor_get_error` filled in (empty when it
/// reported no message).
pub fn check(code: i32, error_buffer: &[u8]) -> (r: Result<(), Error>)
    ensures
        code == 0 <==> r is Ok,
        r matches Err(e) ==> e matches Error::RegorError { code: c, message } && c == code
            && message@ == c_text_of(error_buffer@),
{
    if code == 0 {
        Ok(())
    } else {
        Err(Error::RegorError { code, message: c_text(error_buffer) })
    }
}

/// The bytes of `s` ready to be handed over as a C string, or the
/// [`Error::NulError`] for the first NUL byte inside it.
pub fn c_string(s: &str) -> (r: Result<Vec<u8>, Error>)
    ensures
        r is Err <==> s@.contains('\0'),
        r matches Ok(v) ==> v@ == vstd::utf8::encode_utf8(s@),
        r matches Ok(v) ==> forall|i: int| 0 <= i < v@.len() ==> v@[i] != 0,
        r matches Err(e) ==> (e matches Error::NulError { position: p, bytes: v } && {
            &&& v@ == vstd::utf8::encode_utf8(s@)
            &&& p < v@.len()
            &&& v@[p as int] == 0
            &&& forall|i: int| 0 <= i < p ==> v@[i] != 0
        }),
{
    let bytes = s.as_bytes();
    let n = nul_index(bytes);
    let copy = bytes_to_vec(bytes);
    proof {
        law_nul_char_is_zero_byte(s@);
        if n < bytes.len() {
            assert(bytes@[n as int] == 0);
        } else {
            assert forall|i: int| 0 <= i < bytes@.len() implies bytes@[i] != 0u8 by {}
        }
    }
    if n < bytes.len() {
        Err(Error::NulError { position: n, bytes: copy })
    } else {
        Ok(copy)
    }
}

/// A vector holding the bytes of `b`.
fn bytes_to_vec(b: &[u8]) -> (v: Vec<u8>)
    ensures
        v@ == b@,
{
    let mut v: Vec<u8> = Vec::new();
    let mut i: usize = 0;
    while i < b.len()
        invariant
            0 <= i <= b@.len(),
            v@ == b@.take(i as int),
        decreases b.len() - i,
    {
        v.push(b[i]);
        assert(b@.take(i + 1) =~= b@.take(i as int).push(b@[i as int]));
        i += 1;
    }
    assert(b@.take(b.len() as int) =~= b@);
    v
}

/// The UTF-8 encoding of a scalar holds a zero byte exactly when the scalar
/// is zero: a one-byte encoding is the scalar itself, and every byte of a
/// longer one has its top bit set.
proof fn lemma_scalar_zero_byte(v: u32)
    requires
        vstd::utf8::is_scalar(v),
    ensures
        vstd::utf8::encode_scalar(v).contains(0u8) <==> v == 0,
{
    let e = vstd::utf8::encode_scalar(v);
    if vstd::utf8::has_width_1_encoding(v) {
        assert(((v & 0x7F) as u8 == 0) <==> v == 0) by (bit_vector)
            requires
                v <= 0x7F,
        ;
        assert(e[0] == (v & 0x7F) as u8);
        if v == 0 {
            assert(e[0] == 0u8);
        }
    } else {
        assert((0xC0u8 | ((v >> 6) & 0x1F) as u8) != 0u8) by (bit_vector);
        assert((0xE0u8 | ((v >> 12) & 0x0F) as u8) != 0u8) by (bit_vector);
        assert((0xF0u8 | ((v >> 18) & 0x7) as u8) != 0u8) by (bit_vector);
        assert((0x80u8 | (v & 0x3F) as u8) != 0u8) by (bit_vector);
        assert((0x80u8 | ((v >> 6) & 0x3F) as u8) != 0u8) by (bit_vector);
        assert((0x80u8 | ((v >> 12) & 0x3F) as u8) != 0u8) by (bit_vector);
        assert forall|i: int| 0 <= i < e.len() implies e[i] != 0u8 by {}
    }
}

/// Text holds a NUL character exactly when its UTF-8 encoding holds a zero
/// byte, so a C string can be made of it exactly when it holds no NUL.
pub proof fn law_nul_char_is_zero_byte(s: Seq<char>)
    ensures
        vstd::utf8::encode_utf8(s).contains(0u8) <==> s.contains('\0'),
    decreases s.len(),
{
    if s.len() > 0 {
        let c = s[0];
        vstd::utf8::char_is_scalar(c);
        vstd::utf8::char_u32_cast(c, c as u32);
        vstd::utf8::char_u32_cast('\0', 0u32);
        lemma_scalar_zero_byte(c as u32);
        law_nul_char_is_zero_byte(s.drop_first());
        let head = vstd::utf8::encode_scalar(c as u32);
        let tail = vstd::utf8::encode_utf8(s.drop_first());
        let whole = vstd::utf8::encode_utf8(s);
        assert(whole == head + tail);
        if whole.contains(0u8) {
            let k = choose|k: int| 0 <= k < whole.len() && whole[k] == 0u8;
            if k < head.len() {
                assert(head[k] == 0u8);
                assert(c as u32 == 0);
                assert(s[0] == '\0');
            } else {
                assert(tail[k - head.len()] == 0u8);
                let j = choose|j: int| 0 <= j < s.drop_first().len() && s.drop_first()[j] == '\0';
                assert(s[j + 1] == '\0');
            }
        }
        if s.contains('\0') {
            let j = choose|j: int| 0 <= j < s.len() && s[j] == '\0';
            if j == 0 {
                assert(c as u32 == 0);
                let k = choose|k: int| 0 <= k < head.len() && head[k] == 0u8;
                assert(whole[k] == 0u8);
            } else {
                assert(s.drop_first()[j - 1] == '\0');
                let k = choose|k: int| 0 <= k < tail.len() && tail[k] == 0u8;
                assert(whole[k + head.len()] == 0u8);
            }
        }
    }
}

} // verus!
