//! Decoding of the fixed-size, null-terminated text fields returned by the runtime.

use vstd::prelude::*;
use vstd::utf8::{decode_utf8, valid_utf8};
use crate::status::ExtensionError;

verus! {

/// Size of the name and serial buffers of a device's properties.
pub const TEXT_FIELD_SIZE: usize = 256;

/// `n` is the position of the first zero byte of `b`.
pub open spec fn is_text_end(b: Seq<u8>, n: int) -> bool {
    &&& 0 <= n < b.len()
    &&& b[n] == 0
    &&& forall|j: int| 0 <= j < n ==> b[j] != 0
}

/// `b` is a null-terminated buffer whose bytes before the terminator are the
/// UTF-8 encoding of `t`.
pub open spec fn decodes_to(b: Seq<u8>, t: Seq<char>) -> bool {
    exists|n: int|
        is_text_end(b, n) && valid_utf8(#[trigger] b.subrange(0, n)) && t == decode_utf8(
            b.subrange(0, n),
        )
}

/// Relies on `String::from_utf8`: it succeeds exactly on valid UTF-8, and the
/// string then holds the characters those bytes encode.
#[verifier::external_body]
fn utf8_string(bytes: Vec<u8>) -> (r: Option<String>)
    ensures
        r is Some <==> valid_utf8(bytes@),
        r matches Some(s) ==> s@ == decode_utf8(bytes@),
{
    String::from_utf8(bytes).ok()
}

/// Decodes a null-terminated text buffer. A buffer without a terminator, or
/// whose bytes before it are not valid UTF-8, is `InvalidText`.
pub fn decode_text(buf: &Vec<u8>) -> (r: Result<String, ExtensionError>)
    ensures
        r matches Ok(s) ==> decodes_to(buf@, s@),
        r is Err ==> r == Err::<String, ExtensionError>(ExtensionError::InvalidText)
            && forall|t: Seq<char>| !decodes_to(buf@, t),
{
    let mut n: usize = 0;
    while n < buf.len() && buf[n] != 0
        invariant
            0 <= n <= buf@.len(),
            forall|j: int| 0 <= j < n ==> buf@[j] != 0,
        decreases buf@.len() - n,
    {
        n = n + 1;
    }
    if n == buf.len() {
        assert forall|t: Seq<char>| !decodes_to(buf@, t) by {
            assert forall|m: int| !is_text_end(buf@, m) by {
                if 0 <= m < buf@.len() {
                    assert(buf@[m] != 0);
                }
            }
        }
        return Err(ExtensionError::InvalidText);
    }
    let mut prefix: Vec<u8> = Vec::new();
    let mut i: usize = 0;
    while i < n
        invariant
            0 <= i <= n,
            n < buf@.len(),
            prefix@ == buf@.subrange(0, i as int),
        decreases n - i,
    {
        prefix.push(buf[i]);
        i = i + 1;
        assert(prefix@ =~= buf@.subrange(0, i as int));
    }
    assert(is_text_end(buf@, n as int));
    assert forall|m: int| #[trigger] is_text_end(buf@, m) implies m == n by {
        if m < n {
            assert(buf@[m] != 0);
        } else if m > n {
            assert(buf@[n as int] != 0);
        }
    }
    match utf8_string(prefix) {
        Some(s) => Ok(s),
        None => Err(ExtensionError::InvalidText),
    }
}

} // verus!
