use ort_kernel::{
    attr_type, decode_c_string, from_read_op, read_buffer_len, read_op_complete, AttributeKind,
    AttributeValue, Error, OpAttrType,
};

fn c_bytes(s: &str) -> Vec<u8> {
    let mut b = s.as_bytes().to_vec();
    b.push(0);
    b
}

fn read(kind: AttributeKind, bytes: Vec<u8>) -> Result<AttributeValue, Error> {
    let n = bytes.len();
    assert!(read_op_complete(kind, n, n));
    from_read_op(kind, bytes, n)
}

#[test]
fn c_string_plain() {
    assert_eq!(decode_c_string(c_bytes("node_0")), Ok("node_0".to_string()));
}

#[test]
fn c_string_empty() {
    assert_eq!(decode_c_string(vec![0]), Ok(String::new()));
}

#[test]
fn c_string_multibyte() {
    assert_eq!(decode_c_string(c_bytes("größe→σ")), Ok("größe→σ".to_string()));
}

#[test]
fn c_string_without_terminator() {
    assert_eq!(decode_c_string(Vec::new()), Err(Error::NotNulTerminated));
    assert_eq!(decode_c_string(b"abc".to_vec()), Err(Error::NotNulTerminated));
}

#[test]
fn c_string_interior_nul() {
    assert_eq!(decode_c_string(b"a\0b\0".to_vec()), Err(Error::InteriorNul { position: 1 }));
    assert_eq!(decode_c_string(vec![0, 0]), Err(Error::InteriorNul { position: 0 }));
}

#[test]
fn c_string_invalid_utf8() {
    assert_eq!(decode_c_string(vec![b'a', 0xff, 0]), Err(Error::InvalidUtf8));
    assert_eq!(decode_c_string(vec![0xe2, 0x82, 0]), Err(Error::InvalidUtf8));
}

#[test]
fn attr_type_table() {
    assert_eq!(attr_type(AttributeKind::Float), Some(OpAttrType::Float));
    assert_eq!(attr_type(AttributeKind::Int), Some(OpAttrType::Int));
    assert_eq!(attr_type(AttributeKind::String), Some(OpAttrType::String));
    assert_eq!(attr_type(AttributeKind::Floats), Some(OpAttrType::Floats));
    assert_eq!(attr_type(AttributeKind::Ints), Some(OpAttrType::Ints));
    assert_eq!(attr_type(AttributeKind::Tensor), None);
}

#[test]
fn buffer_len_per_kind() {
    assert_eq!(read_buffer_len(AttributeKind::Float, 100), 4);
    assert_eq!(read_buffer_len(AttributeKind::Int, 0), 8);
    assert_eq!(read_buffer_len(AttributeKind::String, 5), 5);
    assert_eq!(read_buffer_len(AttributeKind::Floats, 10), 8);
    assert_eq!(read_buffer_len(AttributeKind::Ints, 17), 16);
    assert_eq!(read_buffer_len(AttributeKind::Ints, 7), 0);
    assert_eq!(read_buffer_len(AttributeKind::Tensor, 9), 0);
}

#[test]
fn fill_report_consistency() {
    assert!(read_op_complete(AttributeKind::Float, 4, 4));
    assert!(!read_op_complete(AttributeKind::Float, 4, 8));
    assert!(!read_op_complete(AttributeKind::Int, 8, 4));
    assert!(read_op_complete(AttributeKind::String, 3, 3));
    assert!(!read_op_complete(AttributeKind::String, 3, 4));
    assert!(read_op_complete(AttributeKind::Floats, 8, 9));
    assert!(!read_op_complete(AttributeKind::Floats, 8, 12));
    assert!(!read_op_complete(AttributeKind::Floats, 6, 6));
    assert!(read_op_complete(AttributeKind::Ints, 16, 16));
    assert!(!read_op_complete(AttributeKind::Ints, 16, 8));
}

#[test]
fn round_trip_float() {
    let v = -1.5f32;
    let got = read(AttributeKind::Float, v.to_le_bytes().to_vec());
    assert_eq!(got, Ok(AttributeValue::Float(v.to_bits())));
    match got {
        Ok(AttributeValue::Float(bits)) => assert_eq!(f32::from_bits(bits), -1.5f32),
        other => panic!("unexpected {:?}", other),
    }
}

#[test]
fn round_trip_int() {
    for v in [0i64, 42, -2, i64::MIN, i64::MAX] {
        assert_eq!(read(AttributeKind::Int, v.to_le_bytes().to_vec()), Ok(AttributeValue::Int(v)));
    }
}

#[test]
fn round_trip_string() {
    assert_eq!(
        read(AttributeKind::String, c_bytes("relu")),
        Ok(AttributeValue::String("relu".to_string()))
    );
}

#[test]
fn round_trip_empty_string() {
    assert_eq!(read(AttributeKind::String, vec![0]), Ok(AttributeValue::String(String::new())));
}

#[test]
fn round_trip_floats() {
    let xs = [1.0f32, -2.5, 0.125];
    let bytes: Vec<u8> = xs.iter().flat_map(|x| x.to_le_bytes()).collect();
    let bits: Vec<u32> = xs.iter().map(|x| x.to_bits()).collect();
    assert_eq!(read(AttributeKind::Floats, bytes), Ok(AttributeValue::Floats(bits)));
}

#[test]
fn round_trip_empty_arrays() {
    assert_eq!(read(AttributeKind::Floats, Vec::new()), Ok(AttributeValue::Floats(Vec::new())));
    assert_eq!(read(AttributeKind::Ints, Vec::new()), Ok(AttributeValue::Ints(Vec::new())));
}

#[test]
fn round_trip_ints() {
    let xs = [i64::MIN, -1, 0, 7, 1 << 40];
    let bytes: Vec<u8> = xs.iter().flat_map(|x| x.to_le_bytes()).collect();
    assert_eq!(read(AttributeKind::Ints, bytes), Ok(AttributeValue::Ints(xs.to_vec())));
}

#[test]
fn ints_ignore_trailing_partial_report() {
    let bytes = 5i64.to_le_bytes().to_vec();
    assert!(read_op_complete(AttributeKind::Ints, 8, 12));
    assert_eq!(from_read_op(AttributeKind::Ints, bytes, 12), Ok(AttributeValue::Ints(vec![5])));
}

#[test]
fn string_attribute_with_bad_bytes() {
    assert_eq!(read(AttributeKind::String, vec![0xc3, 0x28, 0]), Err(Error::InvalidUtf8));
    assert_eq!(read(AttributeKind::String, b"ab".to_vec()), Err(Error::NotNulTerminated));
}

#[test]
fn tensor_not_readable_from_raw_buffer() {
    assert_eq!(from_read_op(AttributeKind::Tensor, Vec::new(), 0), Err(Error::NotImplemented));
}
