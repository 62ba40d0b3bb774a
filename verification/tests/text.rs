use axiomhive::digest::{blake3_hex_of, blake3_hex_of_pair, sha256_hex_of};
use axiomhive::text::{
    bytes_contain, decimal_string, find_first_contained, join_strings, json_array_text, same_text,
    text_contains, text_starts_with,
};

#[test]
fn decimal_numerals() {
    assert_eq!(decimal_string(0), "0");
    assert_eq!(decimal_string(7), "7");
    assert_eq!(decimal_string(10), "10");
    assert_eq!(decimal_string(1024), "1024");
    assert_eq!(decimal_string(4_110_000_000), "4110000000");
    assert_eq!(decimal_string(u64::MAX), "18446744073709551615");
}

#[test]
fn digests_of_known_inputs() {
    assert_eq!(
        blake3_hex_of(b""),
        "af1349b9f5f9a1a6a0404dea36dcc9499bcb25c9adc112b7cc9a93cae41f3262"
    );
    assert_eq!(
        sha256_hex_of(b""),
        "e3b0c44298fc1c149afbf4c8996fb92427ae41e4649b934ca495991b7852b855"
    );
    assert_eq!(
        sha256_hex_of(b"abc"),
        "ba7816bf8f01cfea414140de5dae2223b00361a396177a9cb410ff61f20015ad"
    );
    assert_eq!(blake3_hex_of_pair(b"ab", b"c"), blake3_hex_of(b"abc"));
    assert_eq!(blake3_hex_of(b"abc"), blake3::hash(b"abc").to_hex().to_string());
    assert_ne!(blake3_hex_of(b"abc"), sha256_hex_of(b"abc"));
}

#[test]
fn substring_search() {
    assert!(text_contains("hello world", "hello"));
    assert!(text_contains("hello world", "o w"));
    assert!(text_contains("hello world", "world"));
    assert!(text_contains("hello world", ""));
    assert!(text_contains("", ""));
    assert!(!text_contains("", "a"));
    assert!(!text_contains("goodbye", "hello"));
    assert!(!text_contains("abc", "abcd"));
    assert!(!text_contains("aab", "abb"));
    assert!(text_contains("aaab", "aab"));
    assert!(text_contains("grüße", "üß"));
    assert!(bytes_contain(&[1, 2, 3], &[2, 3]));
    assert!(!bytes_contain(&[1, 2, 3], &[3, 2]));
}

#[test]
fn equal_texts() {
    assert!(same_text("", ""));
    assert!(same_text("verified", "verified"));
    assert!(!same_text("verified", "Verified"));
    assert!(!same_text("a", "ab"));
}

#[test]
fn prefixes() {
    assert!(text_starts_with("lnbc1", "lnbc"));
    assert!(text_starts_with("lnbc", "lnbc"));
    assert!(text_starts_with("x", ""));
    assert!(!text_starts_with("lnb", "lnbc"));
    assert!(!text_starts_with("xlnbc", "lnbc"));
}

#[test]
fn first_term_found() {
    let terms = vec!["zzz".to_string(), "b".to_string(), "a".to_string()];
    assert_eq!(find_first_contained("a b", &terms), Some(1));
    assert_eq!(find_first_contained("a", &terms), Some(2));
    assert_eq!(find_first_contained("c", &terms), None);
    assert_eq!(find_first_contained("c", &vec![]), None);
}

#[test]
fn joining() {
    let items = vec!["a".to_string(), "b".to_string(), "c".to_string()];
    assert_eq!(join_strings(&items, ", "), "a, b, c");
    assert_eq!(join_strings(&items[..1].to_vec(), ", "), "a");
    assert_eq!(join_strings(&vec![], ", "), "");
    assert_eq!(join_strings(&vec![String::new(), String::new()], "-"), "-");
    assert_eq!(json_array_text(&items), "[a,b,c]");
    assert_eq!(json_array_text(&vec![]), "[]");
}
