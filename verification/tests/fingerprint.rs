use fclicache::fingerprint::to_decimal;
use fclicache::{cache_file_name, hash};
use std::collections::hash_map::DefaultHasher;
use std::hash::{Hash, Hasher};

fn std_hash_of_string(text: &str) -> u64 {
    let owned = String::from(text);
    let mut hasher = DefaultHasher::new();
    owned.hash(&mut hasher);
    hasher.finish()
}

#[test]
fn hashing_twice_gives_one_fingerprint() {
    let command = String::from("sleep 10 && echo 'hello'");
    let first: u64 = hash(&command);
    let second: u64 = hash(&command);
    assert_eq!(first, second);
    let same_text = String::from("sleep 10 && echo 'hello'");
    assert_eq!(hash(&same_text), first);
}

#[test]
fn fingerprint_is_that_of_the_default_hasher() {
    for text in ["", "date", "echo hello", "sleep 10 && echo 'hello'", "caf\u{e9} \u{1F600}"] {
        assert_eq!(hash(text), std_hash_of_string(text), "text {:?}", text);
    }
}

#[test]
fn fingerprint_of_known_commands() {
    assert_eq!(hash(""), 3476900567878811119);
    assert_eq!(hash("date"), 7705827990858696674);
    assert_eq!(hash("echo hello"), 1040944229547462001);
    assert_eq!(hash("sleep 10 && echo 'hello'"), 12303487292048294226);
}

#[test]
fn different_commands_have_different_fingerprints_here() {
    assert_ne!(hash("echo hello"), hash("echo hello "));
    assert_ne!(hash("date"), hash("echo hello"));
}

#[test]
fn fingerprint_is_not_that_of_the_bare_bytes() {
    let mut hasher = DefaultHasher::new();
    hasher.write("date".as_bytes());
    assert_ne!(hash("date"), hasher.finish());
}

#[test]
fn decimal_of_single_digits() {
    assert_eq!(to_decimal(0), "0");
    assert_eq!(to_decimal(7), "7");
    assert_eq!(to_decimal(9), "9");
}

#[test]
fn decimal_has_no_leading_zeros() {
    assert_eq!(to_decimal(10), "10");
    assert_eq!(to_decimal(100), "100");
    assert_eq!(to_decimal(1002003), "1002003");
    assert_eq!(to_decimal(1234567890), "1234567890");
}

#[test]
fn decimal_of_the_largest_fingerprint() {
    assert_eq!(to_decimal(u64::MAX), "18446744073709551615");
}

#[test]
fn decimal_agrees_with_the_standard_formatting() {
    let mut n: u64 = 1;
    for _ in 0..200 {
        assert_eq!(to_decimal(n), n.to_string());
        n = n.wrapping_mul(6364136223846793005).wrapping_add(1442695040888963407);
    }
}

#[test]
fn cache_file_is_named_by_the_decimal_fingerprint() {
    assert_eq!(cache_file_name("date"), "7705827990858696674");
    assert_eq!(cache_file_name("echo hello"), "1040944229547462001");
    let command = String::from("sleep 10 && echo 'hello'");
    assert_eq!(cache_file_name(&command), hash(&command).to_string());
}

#[test]
fn same_command_same_cache_file() {
    assert_eq!(cache_file_name("ls -la /tmp"), cache_file_name("ls -la /tmp"));
}
