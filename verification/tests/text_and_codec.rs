use stabuse::codec::bytes_eq;
use stabuse::codec::check_all_hex;
use stabuse::codec::u128_to_be_bytes;
use stabuse::codec::u64_to_le_bytes;
use stabuse::evm::hex_str_to_bytes;
use stabuse::text::bytes_to_hex;
use stabuse::text::i64_to_dec;
use stabuse::text::str_eq;
use stabuse::text::u128_to_hex;
use stabuse::text::u64_to_dec;
use stabuse::text::u64_to_hex;

#[test]
fn decimal_rendering_exact() {
    assert_eq!(u64_to_dec(0), "0");
    assert_eq!(u64_to_dec(7), "7");
    assert_eq!(u64_to_dec(12345), "12345");
    assert_eq!(u64_to_dec(u64::MAX), "18446744073709551615");
}

#[test]
fn signed_decimal_rendering_exact() {
    assert_eq!(i64_to_dec(0), "0");
    assert_eq!(i64_to_dec(42), "42");
    assert_eq!(i64_to_dec(-42), "-42");
    assert_eq!(i64_to_dec(i64::MIN), "-9223372036854775808");
}

#[test]
fn hex_rendering_exact() {
    assert_eq!(u64_to_hex(0), "0");
    assert_eq!(u64_to_hex(255), "ff");
    assert_eq!(u64_to_hex(0x1a2b3c), "1a2b3c");
    assert_eq!(u128_to_hex(u128::MAX), "ffffffffffffffffffffffffffffffff");
}

#[test]
fn bytes_hex_rendering_exact() {
    assert_eq!(bytes_to_hex(&[]), "");
    assert_eq!(bytes_to_hex(&[0x00, 0xff, 0x1a]), "00ff1a");
}

#[test]
fn string_equality() {
    assert!(str_eq("abc", "abc"));
    assert!(!str_eq("abc", "abd"));
    assert!(!str_eq("abc", "abcd"));
    assert!(str_eq("", ""));
}

#[test]
fn big_endian_bytes_exact() {
    let b = u128_to_be_bytes(0x0102, 4);
    assert_eq!(b, vec![0, 0, 1, 2]);
    let b32 = u128_to_be_bytes(1, 32);
    assert_eq!(b32.len(), 32);
    assert_eq!(b32[31], 1);
    assert!(b32[..31].iter().all(|&x| x == 0));
}

#[test]
fn little_endian_bytes_exact() {
    let b = u64_to_le_bytes(0x0102, 8);
    assert_eq!(b, vec![2, 1, 0, 0, 0, 0, 0, 0]);
}

#[test]
fn hex_parsing() {
    assert_eq!(hex_str_to_bytes("00ff1a"), Some(vec![0x00, 0xff, 0x1a]));
    assert_eq!(hex_str_to_bytes("AbCd"), Some(vec![0xab, 0xcd]));
    assert_eq!(hex_str_to_bytes("abc"), None);
    assert_eq!(hex_str_to_bytes("zz"), None);
    assert_eq!(hex_str_to_bytes(""), Some(vec![]));
}

#[test]
fn hex_character_check() {
    assert!(check_all_hex("0123456789abcdefABCDEF"));
    assert!(!check_all_hex("0x12"));
    assert!(check_all_hex(""));
}

#[test]
fn byte_comparison() {
    assert!(bytes_eq(&[1, 2, 3], &[1, 2, 3]));
    assert!(!bytes_eq(&[1, 2, 3], &[1, 2, 4]));
    assert!(!bytes_eq(&[1, 2], &[1, 2, 3]));
}
