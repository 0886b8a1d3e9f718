use epub_extract::bytes_to_hex;
use epub_extract::compute_content_id;

#[test]
fn hex_encoding_exact() {
    assert_eq!(bytes_to_hex(&vec![]), "");
    assert_eq!(bytes_to_hex(&vec![0x00u8, 0xabu8, 0xffu8]), "00abff");
    assert_eq!(bytes_to_hex(&vec![0x0fu8, 0xf0u8]), "0ff0");
}

#[test]
fn content_id_of_empty_input() {
    let id = compute_content_id(&[]);
    assert_eq!(
        id,
        "e3b0c44298fc1c149afbf4c8996fb92427ae41e4649b934ca495991b7852b855"
    );
}

#[test]
fn content_id_exact_value() {
    let id = compute_content_id(b"abc");
    assert_eq!(
        id,
        "ba7816bf8f01cfea414140de5dae2223b00361a396177a9cb410ff61f20015ad"
    );
}

#[test]
fn content_id_deterministic() {
    let inputs: Vec<Vec<u8>> = vec![
        Vec::new(),
        b"abc".to_vec(),
        vec![0u8, 255u8, 7u8, 42u8],
        b"the same bytes, twice".to_vec(),
    ];
    for bytes in &inputs {
        assert_eq!(compute_content_id(bytes), compute_content_id(bytes));
    }
    for a in &inputs {
        for b in &inputs {
            if a != b {
                assert_ne!(compute_content_id(a), compute_content_id(b));
            }
        }
    }
}

#[test]
fn content_id_format() {
    let inputs: Vec<Vec<u8>> = vec![
        Vec::new(),
        vec![0u8],
        vec![255u8; 1000],
        b"any input at all".to_vec(),
    ];
    for bytes in &inputs {
        let id = compute_content_id(bytes);
        assert_eq!(id.len(), 64);
        assert!(id.chars().all(|c| c.is_ascii_hexdigit() && !c.is_ascii_uppercase()));
    }
}

#[test]
fn content_id_single_byte_difference() {
    let a = compute_content_id(&[1u8, 2u8, 3u8]);
    let b = compute_content_id(&[1u8, 2u8, 4u8]);
    assert_ne!(a, b);
}
