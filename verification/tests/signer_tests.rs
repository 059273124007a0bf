use hatchery::signer::{hex_lower, sign};
use hatchery::text::{str_eq, u64_to_dec};

#[test]
fn sign_known_vector() {
    // the digest of the literal byte string
    // `public_id=geese-abc&timestamp=1700000000shh`
    assert_eq!(
        sign("geese-abc", "1700000000", "shh"),
        "0e36019e5f4b59199ca3b49808ea5a0e56d0f024"
    );
}

#[test]
fn sign_is_deterministic() {
    let a = sign("id", "123", "secret");
    let b = sign("id", "123", "secret");
    assert_eq!(a, b);
}

#[test]
fn sign_depends_on_every_field() {
    let base = sign("id", "123", "secret");
    assert_ne!(sign("id2", "123", "secret"), base);
    assert_ne!(sign("id", "124", "secret"), base);
    assert_ne!(sign("id", "123", "secret2"), base);
}

#[test]
fn sign_of_empty_parts_is_digest_of_separators_alone() {
    // the payload is then exactly `public_id=&timestamp=`
    assert_eq!(sign("", "", ""), "b6efeeb1eeec06dcab64233d0a0f9996cc813907");
}

#[test]
fn hex_lower_known_values() {
    assert_eq!(hex_lower(&vec![]), "");
    assert_eq!(hex_lower(&vec![0x00, 0x0f, 0xa5, 0xff]), "000fa5ff");
}

#[test]
fn u64_to_dec_known_values() {
    assert_eq!(u64_to_dec(0), "0");
    assert_eq!(u64_to_dec(7), "7");
    assert_eq!(u64_to_dec(10), "10");
    assert_eq!(u64_to_dec(1700000000), "1700000000");
    assert_eq!(u64_to_dec(u64::MAX), "18446744073709551615");
}

#[test]
fn str_eq_compares_by_contents() {
    assert!(str_eq("abc", "abc"));
    assert!(!str_eq("abc", "abd"));
    assert!(!str_eq("abc", "abcd"));
    assert!(str_eq("", ""));
}
