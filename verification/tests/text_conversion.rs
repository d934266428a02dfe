use gitit::{decode_c_field, to_nul_terminated};

#[test]
fn nul_terminated_appends_terminator() {
    let r = to_nul_terminated(b"HEAD").unwrap();
    assert_eq!(r, vec![b'H', b'E', b'A', b'D', 0]);
}

#[test]
fn nul_terminated_empty_text() {
    let r = to_nul_terminated(b"").unwrap();
    assert_eq!(r, vec![0]);
}

#[test]
fn embedded_nul_is_refused_before_the_engine() {
    let e = to_nul_terminated(b"re\0fs").unwrap_err();
    assert_eq!(e.code(), -1);
    assert_eq!(e.klass(), 0);
    assert!(!e.message().is_empty());
}

#[test]
fn decode_c_field_decodes_valid_utf8() {
    let field = Some(b"Jane Doe".to_vec());
    assert_eq!(decode_c_field(&field), Some(String::from("Jane Doe")));
}

#[test]
fn decode_c_field_decodes_multibyte_utf8() {
    // 0xc3 0xa9 is the two-byte encoding of 'e' with an acute accent.
    let field = Some(vec![0xc3, 0xa9]);
    assert_eq!(decode_c_field(&field), Some(String::from("\u{e9}")));
}

#[test]
fn decode_c_field_absent_is_none() {
    assert_eq!(decode_c_field(&None), None);
}

#[test]
fn decode_c_field_invalid_utf8_is_none() {
    let field = Some(vec![0xff, 0xfe]);
    assert_eq!(decode_c_field(&field), None);
}
