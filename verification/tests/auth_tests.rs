use base64::Engine;
use sha2::Digest;

use mqttbot::encode_password;
use mqttbot::to_lower_hex;
use mqttbot::u64_to_dec_string;

#[test]
fn test_encode_password_fixed_vector() {
    assert_eq!(
        encode_password("password"),
        "5f4dcc3b5aa765d61d8327deb882cf99.XohImNooBHFR0OVvjcYpJ3NgPQ1qq73WKhHvch0VQtg="
    );
    assert_eq!(
        encode_password("hunter2"),
        "2ab96390c7dbe3439de74d0c9b0b1767.9S+9MrKzuG/4jvbEkGKChfSCrxXdyylUH5S89Saj9sc="
    );
}

#[test]
fn test_encode_password_matches_reference_hashes() {
    // The same composite credential, assembled directly from the digest
    // crates: hex(MD5) + "." + base64(SHA-256).
    let password = "s0me Pa55w0rd!";
    let md5_hex = format!("{:x}", md5::compute(password.as_bytes()));
    let sha = sha2::Sha256::digest(password.as_bytes());
    let sha_b64 = base64::engine::general_purpose::STANDARD.encode(sha);
    let expected = format!("{}.{}", md5_hex, sha_b64);
    assert_eq!(encode_password(password), expected);
}

#[test]
fn test_encode_password_empty_password() {
    assert_eq!(
        encode_password(""),
        "d41d8cd98f00b204e9800998ecf8427e.47DEQpj8HBSa+/TImW+5JCeuQeRkm5NMpJWZG3hSuFU="
    );
}

#[test]
fn test_encode_password_deterministic() {
    let a = encode_password("p@ss");
    let b = encode_password("p@ss");
    assert_eq!(a, b);
}

#[test]
fn test_to_lower_hex() {
    assert_eq!(to_lower_hex(&vec![]), "");
    assert_eq!(to_lower_hex(&vec![0x00u8, 0x0f, 0xa5, 0xff]), "000fa5ff");
}

#[test]
fn test_u64_to_dec_string() {
    assert_eq!(u64_to_dec_string(0), "0");
    assert_eq!(u64_to_dec_string(7), "7");
    assert_eq!(u64_to_dec_string(4101), "4101");
    assert_eq!(u64_to_dec_string(u64::MAX), "18446744073709551615");
}
