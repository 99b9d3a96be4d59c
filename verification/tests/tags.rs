use cmli::derive::{seed_token_generator, BuildMetadata};
use cmli::tag::{
    bytes_eq, derive_seed, is_tag, mint_tag, put_str, put_text, put_word, BuildSeed, TagRegistry,
    REMIX_LIMIT, REMIX_WORD,
};

fn metadata() -> BuildMetadata {
    BuildMetadata {
        version: String::from("0.1.0"),
        name: String::from("cmli"),
        toolchain: String::from("rustc 1.88.0"),
        target: String::from("x86_64-unknown-linux-gnu"),
    }
}

fn words(n: u8) -> Vec<u8> {
    (0..n).collect()
}

#[test]
fn minting_is_the_keyed_hash_of_the_bytes() {
    let tag = mint_tag(0x0706050403020100, 0x0f0e0d0c0b0a0908, &words(16));
    assert_eq!(tag, Some(0x3f2acc7f57c29bdb));
}

#[test]
fn minting_depends_on_the_keys() {
    let a = mint_tag(1, 2, &words(16));
    let b = mint_tag(2, 1, &words(16));
    assert_ne!(a, b);
    assert_ne!(a, Some(1));
    assert_ne!(a, Some(2));
}

#[test]
fn minting_depends_on_the_bytes() {
    let a = mint_tag(1, 2, &words(16));
    let b = mint_tag(1, 2, &words(24));
    let c = mint_tag(1, 2, &[]);
    assert_ne!(a, b);
    assert_ne!(a, c);
    assert_ne!(b, c);
}

#[test]
fn minting_twice_gives_the_same_tag() {
    let seed = seed_token_generator(&metadata());
    let first = mint_tag(seed.k0, seed.k1, &words(32));
    let second = mint_tag(seed.k0, seed.k1, &words(32));
    assert!(first.is_some());
    assert_eq!(first, second);
}

#[test]
fn minted_tags_are_not_zero() {
    for n in 0..32u8 {
        let tag = mint_tag(7, 9, &words(n * 8));
        assert!(tag.is_some());
        assert_ne!(tag, Some(0));
    }
}

#[test]
fn zero_is_no_tag() {
    assert!(!is_tag(0));
    assert!(is_tag(1));
    assert!(is_tag(u64::MAX));
    assert_eq!(REMIX_WORD, 0x6a09e667f3bcc908);
    assert_eq!(REMIX_LIMIT, 64);
}

#[test]
fn seed_of_a_build() {
    let seed = seed_token_generator(&metadata());
    assert_eq!(seed, BuildSeed { k0: 16989004037946691807, k1: 16468340489961299903 });
}

#[test]
fn seed_changes_with_the_target() {
    let mut other = metadata();
    other.target = String::from("aarch64-unknown-linux-gnu");
    let a = seed_token_generator(&metadata());
    let b = seed_token_generator(&other);
    assert_eq!(a.k0, b.k0);
    assert_ne!(a.k1, b.k1);
}

#[test]
fn seed_changes_with_the_version() {
    let mut other = metadata();
    other.version = String::from("0.2.0");
    let a = seed_token_generator(&metadata());
    let b = seed_token_generator(&other);
    assert_ne!(a.k0, b.k0);
    assert_ne!(a.k1, b.k1);
}

#[test]
fn seed_from_bytes_splits_at_mid() {
    let bytes = words(32);
    let all_in_head = derive_seed(&bytes, 32);
    let split = derive_seed(&bytes, 16);
    let none_in_head = derive_seed(&bytes, 0);
    assert_eq!(all_in_head.k0, split.k1);
    assert_eq!(split.k1, none_in_head.k1);
    assert_ne!(split.k0, split.k1);
    assert_ne!(none_in_head.k0, split.k0);
}

#[test]
fn words_are_encoded_lowest_byte_first() {
    let mut out = vec![9u8];
    put_word(&mut out, 0x0102030405060708);
    assert_eq!(out, vec![9, 8, 7, 6, 5, 4, 3, 2, 1]);
}

#[test]
fn texts_are_encoded_with_length_and_padding() {
    let mut out = Vec::new();
    put_text(&mut out, &[0xaa, 0xbb, 0xcc]);
    assert_eq!(out, vec![3, 0, 0, 0, 0, 0, 0, 0, 0xaa, 0xbb, 0xcc, 0, 0, 0, 0, 0]);
    let mut full = Vec::new();
    put_text(&mut full, &[1, 2, 3, 4, 5, 6, 7, 8]);
    assert_eq!(full, vec![8, 0, 0, 0, 0, 0, 0, 0, 1, 2, 3, 4, 5, 6, 7, 8]);
    let mut empty = Vec::new();
    put_text(&mut empty, &[]);
    assert_eq!(empty, vec![0, 0, 0, 0, 0, 0, 0, 0]);
}

#[test]
fn strings_are_encoded_as_utf8() {
    let mut out = Vec::new();
    put_str(&mut out, "é");
    assert_eq!(out, vec![2, 0, 0, 0, 0, 0, 0, 0, 0xc3, 0xa9, 0, 0, 0, 0, 0, 0]);
}

#[test]
fn byte_strings_compare_by_content() {
    assert!(bytes_eq(&[1, 2, 3], &[1, 2, 3]));
    assert!(!bytes_eq(&[1, 2, 3], &[1, 2, 4]));
    assert!(!bytes_eq(&[1, 2, 3], &[1, 2]));
    assert!(bytes_eq(&[], &[]));
}

#[test]
fn registry_gives_different_identities_different_tags() {
    let seed = seed_token_generator(&metadata());
    let mut registry = TagRegistry::new(seed);
    let mut tags = Vec::new();
    for n in 0..200u64 {
        let mut identity = Vec::new();
        put_str(&mut identity, "synthetic");
        put_word(&mut identity, n);
        let tag = registry.register(identity).unwrap();
        assert_ne!(tag, 0);
        assert!(!tags.contains(&tag));
        tags.push(tag);
    }
    assert_eq!(registry.len(), 200);
}

#[test]
fn registry_keeps_the_tag_of_an_identity() {
    let mut registry = TagRegistry::new(BuildSeed { k0: 3, k1: 4 });
    let first = registry.register(words(8)).unwrap();
    let other = registry.register(words(16)).unwrap();
    let again = registry.register(words(8)).unwrap();
    assert_eq!(first, again);
    assert_ne!(first, other);
    assert_eq!(registry.len(), 2);
    assert_eq!(registry.lookup(&words(8)), Some(first));
    assert_eq!(registry.lookup(&words(16)), Some(other));
    assert_eq!(registry.lookup(&words(24)), None);
    assert_eq!(Some(first), mint_tag(3, 4, &words(8)));
}

#[test]
fn minting_takes_any_number_of_bytes() {
    let tag = mint_tag(0x0706050403020100, 0x0f0e0d0c0b0a0908, &words(15));
    assert_eq!(tag, Some(0xa129ca6149be45e5));
    let mut registry = TagRegistry::new(BuildSeed { k0: 3, k1: 4 });
    let odd = registry.register(words(7)).unwrap();
    assert_eq!(Some(odd), mint_tag(3, 4, &words(7)));
    assert_ne!(Some(odd), mint_tag(3, 4, &words(8)));
    assert_eq!(registry.len(), 1);
}
