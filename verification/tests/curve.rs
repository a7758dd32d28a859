use zmq2::CurveKeyPair;

#[test]
fn keys_from_text_buffers() {
    let k = CurveKeyPair::from_raw_keys(b"rq:rM>}U?@Lns47E1%kR.o@n%FcmmsL/@{H8]yf7".to_vec(), b"JTKVSB%%)wK0E.X)V>+}o?pNmC{O&4W4b!Ni{Lh6".to_vec()).unwrap();
    assert_eq!(k.public_key, "rq:rM>}U?@Lns47E1%kR.o@n%FcmmsL/@{H8]yf7");
    assert_eq!(k.secret_key, "JTKVSB%%)wK0E.X)V>+}o?pNmC{O&4W4b!Ni{Lh6");
}

#[test]
fn keys_must_be_utf8() {
    assert!(CurveKeyPair::from_raw_keys(vec![0xff], b"ok".to_vec()).is_none());
    assert!(CurveKeyPair::from_raw_keys(b"ok".to_vec(), vec![0x80]).is_none());
}
