use zmq2::{z85_decode, z85_encode, DecodeError, EncodeError};

const HELLO: [u8; 8] = [0x86, 0x4F, 0xD2, 0x6F, 0xB5, 0x59, 0xF7, 0x5B];

#[test]
fn encode_reference_vector() {
    assert_eq!(z85_encode(&HELLO).unwrap(), "HelloWorld");
}

#[test]
fn decode_reference_vector() {
    assert_eq!(z85_decode("HelloWorld").unwrap(), HELLO.to_vec());
}

#[test]
fn encode_edges() {
    assert_eq!(z85_encode(&[]).unwrap(), "");
    assert_eq!(z85_encode(&[0, 0, 0, 0]).unwrap(), "00000");
    assert_eq!(z85_encode(&[0xff, 0xff, 0xff, 0xff]).unwrap(), "%nSc0");
}

#[test]
fn encode_bad_length() {
    assert!(matches!(z85_encode(&[1, 2, 3]), Err(EncodeError::BadLength)));
    assert!(matches!(z85_encode(&[1, 2, 3, 4, 5]), Err(EncodeError::BadLength)));
}

#[test]
fn decode_bad_length() {
    assert!(matches!(z85_decode("abcd"), Err(DecodeError::BadLength)));
    assert!(matches!(z85_decode("abcdef"), Err(DecodeError::BadLength)));
}

#[test]
fn decode_nul_byte() {
    match z85_decode("ab\0cd") {
        Err(DecodeError::NulError(e)) => {
            assert_eq!(e.nul_position, 2);
            assert_eq!(e.bytes, b"ab\0cd".to_vec());
        }
        other => panic!("unexpected {:?}", other),
    }
}

#[test]
fn decode_empty() {
    assert_eq!(z85_decode("").unwrap(), Vec::<u8>::new());
}

#[test]
fn decode_invalid_group_leaves_zeros() {
    assert_eq!(z85_decode("Hello~orld").unwrap(), vec![0x86, 0x4F, 0xD2, 0x6F, 0, 0, 0, 0]);
    assert_eq!(z85_decode("~elloWorld").unwrap(), vec![0; 8]);
    assert_eq!(z85_decode("%%%%%HelloWorld").unwrap(), vec![0; 12]);
    assert_eq!(z85_decode("%nSc0").unwrap(), vec![0xff; 4]);
    assert_eq!(z85_decode("%nSc1").unwrap(), vec![0; 4]);
    assert_eq!(z85_decode("Hel\u{e9}").unwrap(), vec![0; 4]);
}

#[test]
fn roundtrip_many() {
    let mut data = Vec::new();
    for i in 0..256u32 {
        data.push((i * 37 + 11) as u8);
        if data.len() % 4 == 0 {
            let text = z85_encode(&data).unwrap();
            assert_eq!(text.len(), data.len() / 4 * 5);
            assert_eq!(z85_decode(&text).unwrap(), data);
        }
    }
}

#[test]
fn reencode_valid_text() {
    let text = "rq:rM>}U?@Lns47E1%kR.o@n%FcmmsL/@{H8]yf7";
    let bytes = z85_decode(text).unwrap();
    assert_eq!(bytes.len(), 32);
    assert_eq!(z85_encode(&bytes).unwrap(), text);
}
