use bgt::xor::{key_byte, xor_decode, xor_decrypt, xor_encrypt};

#[test]
fn key_repeats_after_fourteen_bytes() {
    let key = b"BGTBuilder2024";
    for i in 0..60 {
        assert_eq!(key_byte(i), key[i % 14]);
    }
}

#[test]
fn encrypt_writes_numbers_between_commas() {
    assert_eq!(xor_encrypt("hello"), "42,34,56,46,26");
    assert_eq!(xor_encrypt(""), "");
    assert_eq!(xor_encrypt("B"), "0");
    assert_eq!(xor_encrypt("BGTBuilder2024B"), "0,0,0,0,0,0,0,0,0,0,0,0,0,0,0");
}

#[test]
fn encrypt_works_on_the_bytes_of_the_text() {
    assert_eq!(xor_encrypt("\u{e9}"), "129,238");
}

#[test]
fn decrypt_reads_the_numbers_back() {
    assert_eq!(xor_decrypt("42,34,56,46,26"), "hello");
    assert_eq!(
        xor_decrypt(
            "42,51,32,50,6,83,67,75,7,27,70,83,93,93,44,36,59,48,16,71,3,22,2,93,86,85,66,81,44,35,39,111,6,6,25,22,6,23,65,31,65,80,41,52,123"
        ),
        "https://bitcoincore.org/depends-sources/sdks/"
    );
    assert_eq!(xor_decrypt("+42,034"), "he");
    assert_eq!(xor_decrypt("255"), "\u{bd}");
}

#[test]
fn decode_refuses_what_is_no_disguise() {
    assert_eq!(xor_decode(""), None);
    assert_eq!(xor_decode("1,,2"), None);
    assert_eq!(xor_decode("1,2,"), None);
    assert_eq!(xor_decode("256"), None);
    assert_eq!(xor_decode("-1"), None);
    assert_eq!(xor_decode("1, 2"), None);
    assert_eq!(xor_decode("a"), None);
    assert_eq!(xor_decode("42,34"), Some("he".to_string()));
}

#[test]
fn decrypt_undoes_encrypt_on_ascii_text() {
    for text in ["a", "hello world", "https://example.org/x?y=1&z=2", "BGTBuilder2024"] {
        assert_eq!(xor_decrypt(&xor_encrypt(text)), text);
    }
}
