use vstd::prelude::*;
use vstd::bytes::{
    lemma_auto_spec_u32_to_from_le_bytes, lemma_auto_spec_u64_to_from_le_bytes,
    spec_u32_from_le_bytes, spec_u32_to_le_bytes, spec_u64_from_le_bytes, spec_u64_to_le_bytes,
    u32_from_le_bytes, u64_from_le_bytes,
};
use vstd::slice::slice_subrange;
use vstd::utf8::{
    char_is_scalar, encode_scalar, encode_utf8, encode_utf8_decode_utf8, encode_utf8_valid_utf8,
};

use crate::cstring::{c_string, decode_c_string, lemma_first_nul_unique, nul_free};
use crate::error::Error;

verus! {

/// Attribute type tags of the native ABI.
#[derive(Debug, Clone, Copy, PartialEq, Eq, Structural)]
pub enum OpAttrType {
    Undefined,
    Int,
    Ints,
    Float,
    Floats,
    String,
    Strings,
}

/// The host types an attribute can be requested as.
#[derive(Debug, Clone, Copy, PartialEq, Eq, Structural)]
pub enum AttributeKind {
    /// A 32-bit float.
    Float,
    /// A 64-bit integer.
    Int,
    /// A string.
    String,
    /// An array of 32-bit floats.
    Floats,
    /// An array of 64-bit integers.
    Ints,
    /// A constant tensor held by the engine.
    Tensor,
}

/// A decoded attribute. 32-bit floats are carried as their IEEE-754 bit
/// patterns, so that the value round-trips bit for bit.
#[derive(Debug, Clone, PartialEq)]
pub enum AttributeValue {
    Float(u32),
    Int(i64),
    String(String),
    Floats(Vec<u32>),
    Ints(Vec<i64>),
}

/// The mathematical value of an [`AttributeValue`].
pub enum AttributeModel {
    Float(u32),
    Int(i64),
    String(Seq<char>),
    Floats(Seq<u32>),
    Ints(Seq<i64>),
}

impl View for AttributeValue {
    type V = AttributeModel;

    open spec fn view(&self) -> AttributeModel {
        match self {
            AttributeValue::Float(x) => AttributeModel::Float(*x),
            AttributeValue::Int(x) => AttributeModel::Int(*x),
            AttributeValue::String(s) => AttributeModel::String(s@),
            AttributeValue::Floats(xs) => AttributeModel::Floats(xs@),
            AttributeValue::Ints(xs) => AttributeModel::Ints(xs@),
        }
    }
}

/// A decoding outcome seen through the value's model.
pub open spec fn value_result(r: Result<AttributeValue, Error>) -> Result<AttributeModel, Error> {
    match r {
        Ok(v) => Ok(v@),
        Err(e) => Err(e),
    }
}

/// The native tag each kind is stored under; a tensor has none.
pub open spec fn spec_attr_type(kind: AttributeKind) -> Option<OpAttrType> {
    match kind {
        AttributeKind::Float => Some(OpAttrType::Float),
        AttributeKind::Int => Some(OpAttrType::Int),
        AttributeKind::String => Some(OpAttrType::String),
        AttributeKind::Floats => Some(OpAttrType::Floats),
        AttributeKind::Ints => Some(OpAttrType::Ints),
        AttributeKind::Tensor => None,
    }
}

/// The kind a value is decoded as.
pub open spec fn kind_of(v: AttributeModel) -> AttributeKind {
    match v {
        AttributeModel::Float(_) => AttributeKind::Float,
        AttributeModel::Int(_) => AttributeKind::Int,
        AttributeModel::String(_) => AttributeKind::String,
        AttributeModel::Floats(_) => AttributeKind::Floats,
        AttributeModel::Ints(_) => AttributeKind::Ints,
    }
}

/// Size in bytes of the buffer handed to the raw attribute reader for an
/// attribute that reports `len` bytes: one scalar, or as many whole elements
/// as fit in `len`.
pub open spec fn spec_read_buffer_len(kind: AttributeKind, len: nat) -> nat {
    match kind {
        AttributeKind::Float => 4,
        AttributeKind::Int => 8,
        AttributeKind::String => len,
        AttributeKind::Floats => (len - len % 4) as nat,
        AttributeKind::Ints => (len - len % 8) as nat,
        AttributeKind::Tensor => 0,
    }
}

/// The engine filled a buffer of `buffer_len` bytes and reported `reported`
/// bytes in a way that matches the element width of `kind`. Anything else
/// means the native contract is broken.
pub open spec fn spec_read_op_complete(kind: AttributeKind, buffer_len: nat, reported: nat) -> bool {
    match kind {
        AttributeKind::Float => buffer_len == 4 && reported == 4,
        AttributeKind::Int => buffer_len == 8 && reported == 8,
        AttributeKind::String => buffer_len == reported,
        AttributeKind::Floats => buffer_len % 4 == 0 && buffer_len / 4 == reported / 4,
        AttributeKind::Ints => buffer_len % 8 == 0 && buffer_len / 8 == reported / 8,
        AttributeKind::Tensor => true,
    }
}

/// The `k`-th `width`-byte element of `b`.
pub open spec fn chunk(b: Seq<u8>, width: int, k: int) -> Seq<u8> {
    b.subrange(width * k, width * k + width)
}

/// Consecutive little-endian 32-bit words of `b`.
pub open spec fn u32s_of(b: Seq<u8>) -> Seq<u32> {
    Seq::new(b.len() / 4, |k: int| spec_u32_from_le_bytes(chunk(b, 4, k)))
}

/// Consecutive little-endian 64-bit signed integers of `b`.
pub open spec fn i64s_of(b: Seq<u8>) -> Seq<i64> {
    Seq::new(b.len() / 8, |k: int| spec_u64_from_le_bytes(chunk(b, 8, k)) as i64)
}

/// What the raw attribute reader's bytes decode to. Numbers are laid out in
/// little-endian order; a string is NUL-terminated.
pub open spec fn read_op_value(kind: AttributeKind, b: Seq<u8>) -> Result<AttributeModel, Error> {
    match kind {
        AttributeKind::Float => Ok(AttributeModel::Float(spec_u32_from_le_bytes(b))),
        AttributeKind::Int => Ok(AttributeModel::Int(spec_u64_from_le_bytes(b) as i64)),
        AttributeKind::String => match c_string(b) {
            Ok(s) => Ok(AttributeModel::String(s)),
            Err(e) => Err(e),
        },
        AttributeKind::Floats => Ok(AttributeModel::Floats(u32s_of(b))),
        AttributeKind::Ints => Ok(AttributeModel::Ints(i64s_of(b))),
        AttributeKind::Tensor => Err(Error::NotImplemented),
    }
}

/// The native tag `kind` is stored under, if it has one.
pub fn attr_type(kind: AttributeKind) -> (r: Option<OpAttrType>)
    ensures
        r == spec_attr_type(kind),
{
    match kind {
        AttributeKind::Float => Some(OpAttrType::Float),
        AttributeKind::Int => Some(OpAttrType::Int),
        AttributeKind::String => Some(OpAttrType::String),
        AttributeKind::Floats => Some(OpAttrType::Floats),
        AttributeKind::Ints => Some(OpAttrType::Ints),
        AttributeKind::Tensor => None,
    }
}

/// Size of the buffer to hand the raw attribute reader for an attribute that
/// reports `len` bytes.
pub fn read_buffer_len(kind: AttributeKind, len: usize) -> (r: usize)
    ensures
        r == spec_read_buffer_len(kind, len as nat),
{
    match kind {
        AttributeKind::Float => 4,
        AttributeKind::Int => 8,
        AttributeKind::String => len,
        AttributeKind::Floats => len - len % 4,
        AttributeKind::Ints => len - len % 8,
        AttributeKind::Tensor => 0,
    }
}

/// Whether the engine's report on a filled buffer matches the element width;
/// callers treat `false` as a broken native contract.
pub fn read_op_complete(kind: AttributeKind, buffer_len: usize, reported: usize) -> (r: bool)
    ensures
        r == spec_read_op_complete(kind, buffer_len as nat, reported as nat),
{
    match kind {
        AttributeKind::Float => buffer_len == 4 && reported == 4,
        AttributeKind::Int => buffer_len == 8 && reported == 8,
        AttributeKind::String => buffer_len == reported,
        AttributeKind::Floats => buffer_len % 4 == 0 && buffer_len / 4 == reported / 4,
        AttributeKind::Ints => buffer_len % 8 == 0 && buffer_len / 8 == reported / 8,
        AttributeKind::Tensor => true,
    }
}

proof fn lemma_chunk_in_bounds(len: int, width: int, k: int)
    requires
        0 < width,
        0 <= k < len / width,
    ensures
        0 <= width * k,
        width * k + width <= len,
{
    assert(width * k + width <= len) by (nonlinear_arith)
        requires
            0 < width,
            0 <= k < len / width,
    {
        assert(width * (len / width) <= len) by (nonlinear_arith)
            requires
                0 < width,
        {
            assert(len == width * (len / width) + len % width);
        }
        assert(width * (k + 1) <= width * (len / width));
    }
    assert(0 <= width * k) by (nonlinear_arith)
        requires
            0 < width,
            0 <= k,
    ;
}

fn decode_u32s(bytes: &Vec<u8>) -> (r: Vec<u32>)
    ensures
        r@ == u32s_of(bytes@),
{
    let len = bytes.len();
    let n = len / 4;
    let mut out: Vec<u32> = Vec::new();
    let mut k: usize = 0;
    while k < n
        invariant
            k <= n,
            len == bytes@.len(),
            n == len / 4,
            out@.len() == k,
            forall|j: int| 0 <= j < k ==> out@[j] == u32s_of(bytes@)[j],
        decreases n - k,
    {
        proof {
            lemma_chunk_in_bounds(bytes@.len() as int, 4, k as int);
        }
        let word = slice_subrange(bytes.as_slice(), 4 * k, 4 * k + 4);
        out.push(u32_from_le_bytes(word));
        k = k + 1;
    }
    assert(out@ =~= u32s_of(bytes@));
    out
}

fn decode_i64s(bytes: &Vec<u8>) -> (r: Vec<i64>)
    ensures
        r@ == i64s_of(bytes@),
{
    let len = bytes.len();
    let n = len / 8;
    let mut out: Vec<i64> = Vec::new();
    let mut k: usize = 0;
    while k < n
        invariant
            k <= n,
            len == bytes@.len(),
            n == len / 8,
            out@.len() == k,
            forall|j: int| 0 <= j < k ==> out@[j] == i64s_of(bytes@)[j],
        decreases n - k,
    {
        proof {
            lemma_chunk_in_bounds(bytes@.len() as int, 8, k as int);
        }
        let word = slice_subrange(bytes.as_slice(), 8 * k, 8 * k + 8);
        out.push(#[verifier::truncate] (u64_from_le_bytes(word) as i64));
        k = k + 1;
    }
    assert(out@ =~= i64s_of(bytes@));
    out
}

/// Decodes the bytes the raw attribute reader wrote for an attribute read
/// as `kind`. A tensor cannot be read this way.
pub fn from_read_op(kind: AttributeKind, bytes: Vec<u8>, reported: usize) -> (r: Result<
    AttributeValue,
    Error,
>)
    requires
        spec_read_op_complete(kind, bytes@.len(), reported as nat),
    ensures
        value_result(r) == read_op_value(kind, bytes@),
{
    match kind {
        AttributeKind::Float => Ok(AttributeValue::Float(u32_from_le_bytes(bytes.as_slice()))),
        AttributeKind::Int => Ok(AttributeValue::Int(#[verifier::truncate] (u64_from_le_bytes(bytes.as_slice()) as i64))),
        AttributeKind::String => match decode_c_string(bytes) {
            Ok(s) => Ok(AttributeValue::String(s)),
            Err(e) => Err(e),
        },
        AttributeKind::Floats => Ok(AttributeValue::Floats(decode_u32s(&bytes))),
        AttributeKind::Ints => Ok(AttributeValue::Ints(decode_i64s(&bytes))),
        AttributeKind::Tensor => Err(Error::NotImplemented),
    }
}

/// The little-endian bytes of consecutive 32-bit words.
pub open spec fn u32s_le(xs: Seq<u32>) -> Seq<u8>
    decreases xs.len(),
{
    if xs.len() == 0 {
        seq![]
    } else {
        u32s_le(xs.drop_last()) + spec_u32_to_le_bytes(xs.last())
    }
}

/// The little-endian bytes of consecutive 64-bit signed integers.
pub open spec fn i64s_le(xs: Seq<i64>) -> Seq<u8>
    decreases xs.len(),
{
    if xs.len() == 0 {
        seq![]
    } else {
        i64s_le(xs.drop_last()) + spec_u64_to_le_bytes(xs.last() as u64)
    }
}

/// The bytes the engine writes into a raw attribute buffer for a value.
pub open spec fn native_bytes(v: AttributeModel) -> Seq<u8> {
    match v {
        AttributeModel::Float(x) => spec_u32_to_le_bytes(x),
        AttributeModel::Int(x) => spec_u64_to_le_bytes(x as u64),
        AttributeModel::String(s) => encode_utf8(s).push(0),
        AttributeModel::Floats(xs) => u32s_le(xs),
        AttributeModel::Ints(xs) => i64s_le(xs),
    }
}

proof fn lemma_u32s_le(xs: Seq<u32>)
    ensures
        u32s_le(xs).len() == 4 * xs.len(),
        forall|k: int|
            0 <= k < xs.len() ==> #[trigger] chunk(u32s_le(xs), 4, k) == spec_u32_to_le_bytes(
                xs[k],
            ),
    decreases xs.len(),
{
    lemma_auto_spec_u32_to_from_le_bytes();
    if xs.len() > 0 {
        let ys = xs.drop_last();
        lemma_u32s_le(ys);
        let b = u32s_le(xs);
        assert forall|k: int| 0 <= k < xs.len() implies #[trigger] chunk(b, 4, k)
            == spec_u32_to_le_bytes(xs[k]) by {
            if k < ys.len() {
                assert(chunk(b, 4, k) =~= chunk(u32s_le(ys), 4, k));
            } else {
                assert(chunk(b, 4, k) =~= spec_u32_to_le_bytes(xs.last()));
            }
        }
    }
}

proof fn lemma_i64s_le(xs: Seq<i64>)
    ensures
        i64s_le(xs).len() == 8 * xs.len(),
        forall|k: int|
            0 <= k < xs.len() ==> #[trigger] chunk(i64s_le(xs), 8, k) == spec_u64_to_le_bytes(
                xs[k] as u64,
            ),
    decreases xs.len(),
{
    lemma_auto_spec_u64_to_from_le_bytes();
    if xs.len() > 0 {
        let ys = xs.drop_last();
        lemma_i64s_le(ys);
        let b = i64s_le(xs);
        assert forall|k: int| 0 <= k < xs.len() implies #[trigger] chunk(b, 8, k)
            == spec_u64_to_le_bytes(xs[k] as u64) by {
            if k < ys.len() {
                assert(chunk(b, 8, k) =~= chunk(i64s_le(ys), 8, k));
            } else {
                assert(chunk(b, 8, k) =~= spec_u64_to_le_bytes(xs.last() as u64));
            }
        }
    }
}

proof fn lemma_i64_bits(x: i64)
    ensures
        (x as u64) as i64 == x,
{
    assert((x as u64) as i64 == x) by (bit_vector);
}

proof fn lemma_scalar_nul_free(c: char)
    requires
        c != '\0',
    ensures
        nul_free(encode_scalar(c as u32), encode_scalar(c as u32).len() as int),
{
    let v = c as u32;
    char_is_scalar(c);
    assert(v != 0);
    let b = encode_scalar(v);
    assert forall|i: int| 0 <= i < b.len() implies b[i] != 0 by {
        assert(v <= 0x7F && v != 0 ==> (v & 0x7F) as u8 != 0) by (bit_vector);
        assert((0xC0u8 | ((v >> 6) & 0x1F) as u8) != 0) by (bit_vector);
        assert((0xE0u8 | ((v >> 12) & 0x0F) as u8) != 0) by (bit_vector);
        assert((0xF0u8 | ((v >> 18) & 0x7) as u8) != 0) by (bit_vector);
        assert((0x80u8 | (v & 0x3F) as u8) != 0) by (bit_vector);
        assert((0x80u8 | ((v >> 6) & 0x3F) as u8) != 0) by (bit_vector);
        assert((0x80u8 | ((v >> 12) & 0x3F) as u8) != 0) by (bit_vector);
    }
}

proof fn lemma_encode_utf8_nul_free(s: Seq<char>)
    requires
        !s.contains('\0'),
    ensures
        nul_free(encode_utf8(s), encode_utf8(s).len() as int),
    decreases s.len(),
{
    if s.len() > 0 {
        let rest = s.drop_first();
        assert(s[0] != '\0');
        assert(!rest.contains('\0')) by {
            if rest.contains('\0') {
                let i = choose|i: int| 0 <= i < rest.len() && rest[i] == '\0';
                assert(s[i + 1] == '\0');
            }
        }
        lemma_encode_utf8_nul_free(rest);
        lemma_scalar_nul_free(s[0]);
    }
}

/// Reading back, through the raw attribute buffer, the bytes the engine writes
/// for a value yields that value again: for every float, integer, float array
/// and integer array (empty ones included) and for every string (the empty one
/// included) that holds no NUL character. The buffer sized for the reported
/// length is exactly that long, and the engine's report is consistent with it.
pub proof fn lemma_read_op_round_trip(v: AttributeModel)
    requires
        v matches AttributeModel::String(s) ==> !s.contains('\0'),
    ensures
        spec_read_buffer_len(kind_of(v), native_bytes(v).len()) == native_bytes(v).len(),
        spec_read_op_complete(kind_of(v), native_bytes(v).len(), native_bytes(v).len()),
        read_op_value(kind_of(v), native_bytes(v)) == Ok::<AttributeModel, Error>(v),
{
    lemma_auto_spec_u32_to_from_le_bytes();
    lemma_auto_spec_u64_to_from_le_bytes();
    match v {
        AttributeModel::Float(x) => {},
        AttributeModel::Int(x) => {
            lemma_i64_bits(x);
        },
        AttributeModel::String(s) => {
            let e = encode_utf8(s);
            let b = e.push(0);
            lemma_encode_utf8_nul_free(s);
            assert(nul_free(b, e.len() as int));
            lemma_first_nul_unique(b, e.len() as int);
            assert(b.take(e.len() as int) =~= e);
            encode_utf8_valid_utf8(s);
            encode_utf8_decode_utf8(s);
        },
        AttributeModel::Floats(xs) => {
            lemma_u32s_le(xs);
            let b = u32s_le(xs);
            assert(u32s_of(b) =~= xs) by {
                assert forall|k: int| 0 <= k < xs.len() implies u32s_of(b)[k] == xs[k] by {
                    assert(chunk(b, 4, k) == spec_u32_to_le_bytes(xs[k]));
                }
            }
        },
        AttributeModel::Ints(xs) => {
            lemma_i64s_le(xs);
            let b = i64s_le(xs);
            assert(i64s_of(b) =~= xs) by {
                assert forall|k: int| 0 <= k < xs.len() implies i64s_of(b)[k] == xs[k] by {
                    assert(chunk(b, 8, k) == spec_u64_to_le_bytes(xs[k] as u64));
                    lemma_i64_bits(xs[k]);
                }
            }
        },
    }
}

} // verus!
