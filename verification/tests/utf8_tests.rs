use cimage::utf8::validate_utf8;

fn agrees_with_std(bytes: &[u8]) {
    let v = bytes.to_vec();
    assert_eq!(validate_utf8(&v), std::str::from_utf8(bytes).is_ok());
}

#[test]
fn accepts_well_formed_sequences() {
    let empty: Vec<u8> = Vec::new();
    assert!(validate_utf8(&empty));
    assert!(validate_utf8(&"plain ascii /tmp/a.png".as_bytes().to_vec()));
    assert!(validate_utf8(&"caf\u{e9}".as_bytes().to_vec()));
    assert!(validate_utf8(&"\u{6c49}\u{5b57}".as_bytes().to_vec()));
    assert!(validate_utf8(&"\u{1f600}".as_bytes().to_vec()));
    // Boundary code points of each encoded length.
    assert!(validate_utf8(&vec![0x7F]));
    assert!(validate_utf8(&vec![0xC2, 0x80]));
    assert!(validate_utf8(&vec![0xDF, 0xBF]));
    assert!(validate_utf8(&vec![0xE0, 0xA0, 0x80]));
    assert!(validate_utf8(&vec![0xED, 0x9F, 0xBF]));
    assert!(validate_utf8(&vec![0xEF, 0xBF, 0xBF]));
    assert!(validate_utf8(&vec![0xF0, 0x90, 0x80, 0x80]));
    assert!(validate_utf8(&vec![0xF4, 0x8F, 0xBF, 0xBF]));
}

#[test]
fn rejects_ill_formed_sequences() {
    // Lone continuation byte.
    assert!(!validate_utf8(&vec![0x80]));
    // Never-valid lead bytes.
    assert!(!validate_utf8(&vec![0xC0, 0x80]));
    assert!(!validate_utf8(&vec![0xC1, 0xBF]));
    assert!(!validate_utf8(&vec![0xF5, 0x80, 0x80, 0x80]));
    assert!(!validate_utf8(&vec![0xFF]));
    // Overlong three- and four-byte encodings.
    assert!(!validate_utf8(&vec![0xE0, 0x9F, 0xBF]));
    assert!(!validate_utf8(&vec![0xF0, 0x8F, 0xBF, 0xBF]));
    // Surrogate code points.
    assert!(!validate_utf8(&vec![0xED, 0xA0, 0x80]));
    assert!(!validate_utf8(&vec![0xED, 0xBF, 0xBF]));
    // Above U+10FFFF.
    assert!(!validate_utf8(&vec![0xF4, 0x90, 0x80, 0x80]));
    // Truncated sequences.
    assert!(!validate_utf8(&vec![0xC2]));
    assert!(!validate_utf8(&vec![0xE2, 0x82]));
    assert!(!validate_utf8(&vec![0xF0, 0x9F, 0x98]));
    // A good character followed by a bad tail.
    assert!(!validate_utf8(&vec![0x61, 0xE2, 0x28, 0xA1]));
}

#[test]
fn matches_std_on_mixed_cases() {
    let cases: Vec<Vec<u8>> = vec![
        "abc".as_bytes().to_vec(),
        "a\u{e9}b\u{6c49}c\u{1f600}".as_bytes().to_vec(),
        vec![0x61, 0xC3],
        vec![0xC3, 0xA9, 0x80],
        vec![0xE0, 0xA0],
        vec![0xED, 0x80, 0x80],
        vec![0xF1, 0x80, 0x80, 0x80],
        vec![0xF1, 0x80, 0x80],
        vec![0x00],
        vec![0xE1, 0x80, 0xC0],
    ];
    for case in &cases {
        agrees_with_std(case);
    }
}
