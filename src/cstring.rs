use vstd::prelude::*;
use vstd::utf8::{decode_utf8, valid_utf8};

use crate::error::Error;

verus! {

/// No byte of `b` before index `end` is NUL.
pub open spec fn nul_free(b: Seq<u8>, end: int) -> bool {
    forall|i: int| 0 <= i < end ==> b[i] != 0
}

/// The index of the first NUL byte of `b`; meaningful only when `b` holds one.
pub open spec fn first_nul(b: Seq<u8>) -> int {
    choose|p: int| 0 <= p < b.len() && b[p] == 0 && nul_free(b, p)
}

/// What a NUL-terminated native string buffer decodes to: the characters
/// before the terminator, provided the terminator is the buffer's last byte,
/// no other NUL byte precedes it, and the bytes before it are UTF-8.
pub open spec fn c_string(b: Seq<u8>) -> Result<Seq<char>, Error> {
    if nul_free(b, b.len() as int) {
        Err(Error::NotNulTerminated)
    } else if first_nul(b) + 1 != b.len() {
        Err(Error::InteriorNul { position: first_nul(b) as usize })
    } else if !valid_utf8(b.take(first_nul(b))) {
        Err(Error::InvalidUtf8)
    } else {
        Ok(decode_utf8(b.take(first_nul(b))))
    }
}

/// A decoded string seen through its characters.
pub open spec fn string_result(r: Result<String, Error>) -> Result<Seq<char>, Error> {
    match r {
        Ok(s) => Ok(s@),
        Err(e) => Err(e),
    }
}

/// Any NUL byte at `p` with none before it is the first one.
pub(crate) proof fn lemma_first_nul_unique(b: Seq<u8>, p: int)
    requires
        0 <= p < b.len(),
        b[p] == 0,
        nul_free(b, p),
    ensures
        first_nul(b) == p,
{
    let q = first_nul(b);
    assert(0 <= q < b.len() && b[q] == 0 && nul_free(b, q));
    if q < p {
        assert(b[q] != 0);
    } else if p < q {
        assert(b[p] != 0);
    }
}

/// Relies on `String::from_utf8`: it succeeds exactly when the bytes are
/// valid UTF-8, and the string then holds the characters they encode.
#[verifier::external_body]
fn string_from_utf8(bytes: Vec<u8>) -> (r: Option<String>)
    ensures
        r is Some <==> valid_utf8(bytes@),
        r matches Some(s) ==> s@ == decode_utf8(bytes@),
{
    String::from_utf8(bytes).ok()
}

/// Decodes a NUL-terminated buffer filled by the engine into a host string.
pub fn decode_c_string(bytes: Vec<u8>) -> (r: Result<String, Error>)
    ensures
        string_result(r) == c_string(bytes@),
{
    let n = bytes.len();
    let mut i: usize = 0;
    while i < n && bytes[i] != 0
        invariant
            i <= n,
            n == bytes@.len(),
            nul_free(bytes@, i as int),
        decreases n - i,
    {
        i = i + 1;
    }
    if i == n {
        return Err(Error::NotNulTerminated);
    }
    proof {
        lemma_first_nul_unique(bytes@, i as int);
    }
    if i + 1 != n {
        return Err(Error::InteriorNul { position: i });
    }
    let mut text = bytes;
    text.truncate(i);
    assert(text@ == bytes@.take(i as int));
    match string_from_utf8(text) {
        Some(s) => Ok(s),
        None => Err(Error::InvalidUtf8),
    }
}

} // verus!
