//! Text that crosses into the native library.
//!
//! The native library reads a string up to its first zero byte, so a name or a
//! value that holds one cannot be passed on: it is refused before any call is
//! made, with the position of the offending byte.

use crate::error::{Error, ErrorView};
use vstd::prelude::*;
use vstd::utf8::encode_utf8;

verus! {

/// Whether `i` is the position of the first zero byte of `bytes`.
pub open spec fn is_first_nul(bytes: Seq<u8>, i: int) -> bool {
    &&& 0 <= i < bytes.len()
    &&& bytes[i] == 0
    &&& forall|j: int| 0 <= j < i ==> bytes[j] != 0
}

/// Whether `bytes` holds a zero byte.
pub open spec fn has_nul(bytes: Seq<u8>) -> bool {
    exists|i: int| 0 <= i < bytes.len() && bytes[i] == 0
}

/// The position of the first zero byte of `bytes`, where there is one.
pub open spec fn nul_position(bytes: Seq<u8>) -> int {
    choose|i: int| is_first_nul(bytes, i)
}

/// The bytes that the native library is handed for the text `chars`.
pub open spec fn native_bytes(chars: Seq<char>) -> Seq<u8> {
    encode_utf8(chars)
}

/// Whether the text `chars` can be handed to the native library whole.
pub open spec fn is_native_text(chars: Seq<char>) -> bool {
    !has_nul(native_bytes(chars))
}

/// A first zero byte is unique: any position that qualifies is `nul_position`.
pub proof fn first_nul_is_unique(bytes: Seq<u8>, i: int)
    requires
        is_first_nul(bytes, i),
    ensures
        has_nul(bytes),
        nul_position(bytes) == i,
{
}

/// Looks for a zero byte in `s`, as encoded for the native library.
///
/// Returns the position of the first one, or `None` where `s` holds none.
pub fn find_nul(s: &str) -> (r: Option<usize>)
    ensures
        r is Some <==> has_nul(native_bytes(s@)),
        r matches Some(i) ==> i as int == nul_position(native_bytes(s@)),
{
    let bytes = s.as_bytes();
    let n = bytes.len();
    let mut i: usize = 0;
    while i < n
        invariant
            n == bytes@.len(),
            bytes@ == native_bytes(s@),
            i <= n,
            forall|j: int| 0 <= j < i ==> bytes@[j] != 0,
        decreases n - i,
    {
        if bytes[i] == 0 {
            proof {
                first_nul_is_unique(bytes@, i as int);
            }
            return Some(i);
        }
        i += 1;
    }
    None
}

/// The error that refuses the text `chars`, which holds a zero byte.
pub open spec fn nul_error(chars: Seq<char>) -> ErrorView {
    ErrorView::FfiNulError { position: nul_position(native_bytes(chars)) as usize }
}

/// Accepts `s` where it can be handed to the native library whole, and
/// refuses it with the position of its first zero byte where it cannot.
pub fn check_text(s: &str) -> (r: Result<(), Error>)
    ensures
        r is Ok <==> is_native_text(s@),
        r matches Err(e) ==> e@ == nul_error(s@),
{
    match find_nul(s) {
        Some(position) => Err(Error::FfiNulError { position }),
        None => Ok(()),
    }
}

} // verus!
