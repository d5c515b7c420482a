use heed::{Bytes, BytesDecode, BytesEncode, CodecError, FixedSizeBytes, NonEmptyError, SerdeJson, Str, Unit};

#[test]
fn bytes_round_trip() {
    let item: Vec<u8> = vec![0, 1, 2, 254, 255];
    let encoded = <Bytes as BytesEncode>::bytes_encode(&item).unwrap();
    assert_eq!(encoded, item);
    let decoded = <Bytes as BytesDecode>::bytes_decode(&encoded).unwrap();
    assert_eq!(decoded, item);
}

#[test]
fn bytes_empty_round_trip() {
    let item: Vec<u8> = Vec::new();
    let encoded = <Bytes as BytesEncode>::bytes_encode(&item).unwrap();
    let decoded = <Bytes as BytesDecode>::bytes_decode(&encoded).unwrap();
    assert_eq!(decoded, item);
}

#[test]
fn fixed_size_round_trip() {
    let item: [u8; 4] = [9, 8, 7, 6];
    let encoded = <FixedSizeBytes<4> as BytesEncode>::bytes_encode(&item).unwrap();
    assert_eq!(encoded, vec![9, 8, 7, 6]);
    let decoded = <FixedSizeBytes<4> as BytesDecode>::bytes_decode(&encoded).unwrap();
    assert_eq!(decoded, item);
}

#[test]
fn fixed_size_rejects_wrong_length() {
    let err = <FixedSizeBytes<4> as BytesDecode>::bytes_decode(&[1, 2, 3]).unwrap_err();
    assert_eq!(err, CodecError::WrongLength { expected: 4, found: 3 });
    let err = <FixedSizeBytes<2> as BytesDecode>::bytes_decode(&[1, 2, 3]).unwrap_err();
    assert_eq!(err, CodecError::WrongLength { expected: 2, found: 3 });
}

#[test]
fn str_round_trip() {
    let item = String::from("hello, transactions");
    let encoded = <Str as BytesEncode>::bytes_encode(&item).unwrap();
    assert_eq!(encoded, item.as_bytes().to_vec());
    let decoded = <Str as BytesDecode>::bytes_decode(&encoded).unwrap();
    assert_eq!(decoded, item);
}

#[test]
fn str_round_trip_multibyte() {
    let item = String::from("snowman \u{2603} and cat \u{1F408}");
    let encoded = <Str as BytesEncode>::bytes_encode(&item).unwrap();
    let decoded = <Str as BytesDecode>::bytes_decode(&encoded).unwrap();
    assert_eq!(decoded, item);
}

#[test]
fn str_rejects_invalid_utf8() {
    let err = <Str as BytesDecode>::bytes_decode(&[0xff, 0xfe, 0xfd]).unwrap_err();
    assert_eq!(err, CodecError::InvalidUtf8);
    // a lone continuation byte is not valid UTF-8 either
    let err = <Str as BytesDecode>::bytes_decode(&[0x80]).unwrap_err();
    assert_eq!(err, CodecError::InvalidUtf8);
}

#[test]
fn unit_round_trip() {
    let encoded = <Unit as BytesEncode>::bytes_encode(&()).unwrap();
    assert_eq!(encoded, Vec::<u8>::new());
    <Unit as BytesDecode>::bytes_decode(&encoded).unwrap();
}

#[test]
fn unit_rejects_non_empty() {
    let err = <Unit as BytesDecode>::bytes_decode(&[0]).unwrap_err();
    assert_eq!(err, CodecError::NonEmpty(NonEmptyError));
    assert!(!err.message().is_empty());
}

#[test]
fn encode_into_writer_appends() {
    let mut sink: Vec<u8> = vec![42];
    let item: Vec<u8> = vec![1, 2, 3];
    let n = <Bytes as BytesEncode>::bytes_encode_into_writer(&item, &mut sink).unwrap();
    assert_eq!(n, 3);
    assert_eq!(sink, vec![42, 1, 2, 3]);
}

#[test]
fn serde_json_round_trip() {
    let item = serde_json::Value::Array(vec![
        serde_json::Value::from(17u64),
        serde_json::Value::String(String::from("key")),
        serde_json::Value::Bool(true),
    ]);
    let encoded = SerdeJson::<serde_json::Value>::bytes_encode(&item).unwrap();
    let decoded = SerdeJson::<serde_json::Value>::bytes_decode(&encoded).unwrap();
    assert_eq!(decoded, item);
}

#[test]
fn serde_json_rejects_malformed() {
    let err = SerdeJson::<serde_json::Value>::bytes_decode(b"{ not json").unwrap_err();
    assert_eq!(err, CodecError::Serialization);
}

#[test]
fn codec_error_messages_name_the_cause() {
    assert_eq!(
        NonEmptyError.message(),
        "the slice of bytes is non-empty and therefore is not a unit `()` type"
    );
    assert_eq!(
        CodecError::NonEmpty(NonEmptyError).message(),
        "the slice of bytes is non-empty and therefore is not a unit `()` type"
    );
    assert_eq!(CodecError::InvalidUtf8.message(), "the input slice is not valid UTF-8");
    assert_eq!(
        CodecError::WrongLength { expected: 4, found: 3 }.message(),
        "the input slice's length differs from the codec's fixed size"
    );
}
