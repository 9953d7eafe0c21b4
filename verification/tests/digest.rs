use qcap_core::hex::hex_encode;
use qcap_core::merkle_root_demo;

#[test]
fn digest_shape_on_several_inputs() {
    let inputs: Vec<&[u8]> = vec![b"", b"a", b"abc", b"hello world", &[0u8; 1000]];
    for input in inputs {
        let s = merkle_root_demo(input);
        assert_eq!(s.len(), 71);
        assert!(s.starts_with("blake3:"));
        for c in s[7..].chars() {
            assert!(('0'..='9').contains(&c) || ('a'..='f').contains(&c));
        }
    }
}

#[test]
fn digest_deterministic() {
    let s1 = merkle_root_demo(b"determinism check");
    let s2 = merkle_root_demo(b"determinism check");
    assert_eq!(s1, s2);
    let owned: Vec<u8> = b"determinism check".to_vec();
    let s3 = merkle_root_demo(&owned);
    assert_eq!(s1, s3);
}

#[test]
fn digest_sensitivity_on_near_duplicates() {
    let corpus: Vec<&[u8]> = vec![
        b"abc",
        b"abd",
        b"abb",
        b"Abc",
        b"abc ",
        b" abc",
        b"abcabc",
        b"ab",
        b"",
        b"\x00",
        b"\x00\x00",
        b"\x01",
    ];
    let digests: Vec<String> = corpus.iter().map(|b| merkle_root_demo(b)).collect();
    for i in 0..digests.len() {
        for j in 0..digests.len() {
            if i != j {
                assert_ne!(digests[i], digests[j]);
            }
        }
    }
}

#[test]
fn digest_empty_known_answer() {
    assert_eq!(
        merkle_root_demo(b""),
        "blake3:af1349b9f5f9a1a6a0404dea36dcc9499bcb25c9adc112b7cc9a93cae41f3262"
    );
}

#[test]
fn digest_abc_known_answer() {
    assert_eq!(
        merkle_root_demo(b"abc"),
        "blake3:6437b3ac38465133ffb63b75273a8db548c558465d79db03fd359c6cd5bd9d85"
    );
}

#[test]
fn hex_encode_known_values() {
    assert_eq!(hex_encode(&[]), "");
    assert_eq!(hex_encode(&[0x00]), "00");
    assert_eq!(hex_encode(&[0xff]), "ff");
    assert_eq!(hex_encode(&[0x00, 0x0f, 0x10, 0xab, 0xff]), "000f10abff");
    assert_eq!(hex_encode(&[0x12, 0x34, 0x56, 0x78, 0x9a, 0xbc, 0xde, 0xf0]), "123456789abcdef0");
}
