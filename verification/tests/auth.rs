use subsonic_client::auth::{
    encode, encode_legacy, encode_salted, encode_token, encode_with, fresh_salt, takes_salt,
    SALT_LENGTH,
};
use subsonic_client::version::Version;

fn is_lower_hex(s: &str) -> bool {
    s.chars().all(|c| c.is_ascii_digit() || ('a'..='f').contains(&c))
}

#[test]
fn legacy_form_is_the_passwords_bytes_in_hex() {
    assert_eq!(encode_legacy("sesame"), "p=enc:736573616d65");
    assert_eq!(encode_legacy(""), "p=enc:");
    assert_eq!(encode_legacy("pässword"), "p=enc:70c3a47373776f7264");
}

#[test]
fn salted_form_is_the_digest_of_password_and_salt() {
    assert_eq!(
        encode_salted("sesame", "c19b2d"),
        "t=26719a1196d2a940705a59634eb18eab&s=c19b2d"
    );
    assert_eq!(encode_salted("hello ", "world"), "t=5eb63bbbe01eeed093cb22bb8f5acdc3&s=world");
}

#[test]
fn token_is_written_in_hex_before_the_salt() {
    assert_eq!(encode_token(&[0x00, 0x0f, 0xa0, 0xff], "0a1b2c3d4e"), "t=000fa0ff&s=0a1b2c3d4e");
    assert_eq!(encode_token(&[], ""), "t=&s=");
}

#[test]
fn fresh_salt_is_ten_hex_digits() {
    for _ in 0..50 {
        let salt = fresh_salt();
        assert_eq!(salt.len(), SALT_LENGTH);
        assert_eq!(SALT_LENGTH, 10);
        assert!(is_lower_hex(&salt));
    }
}

#[test]
fn old_server_gets_no_token_and_no_salt() {
    let fragment = encode("sesame", Version::new(1, 12, 9));
    assert_eq!(fragment, "p=enc:736573616d65");
    assert!(!fragment.contains("t="));
    assert!(!fragment.contains("s="));
    let again = encode("tests=t=s", Version::new(1, 0, 0));
    assert!(!again.contains("t="));
    assert!(!again.contains("s="));
}

#[test]
fn new_server_gets_token_and_fresh_salt() {
    let first = encode("sesame", Version::new(1, 13, 0));
    let second = encode("sesame", Version::new(1, 13, 0));
    for fragment in [&first, &second] {
        assert!(fragment.starts_with("t="));
        assert_eq!(fragment.len(), 2 + 32 + 3 + 10);
        assert_eq!(&fragment[34..37], "&s=");
        assert!(is_lower_hex(&fragment[2..34]));
        assert!(is_lower_hex(&fragment[37..]));
        assert_eq!(*fragment, encode_salted("sesame", &fragment[37..]));
    }
    assert_ne!(first[37..], second[37..]);
    assert_ne!(first[2..34], second[2..34]);
}

#[test]
fn a_later_major_version_gets_a_token_too() {
    assert!(encode("sesame", Version::new(2, 0, 0)).starts_with("t="));
    assert!(encode("sesame", Version::new(1, 16, 1)).starts_with("t="));
}

#[test]
fn salted_hash_starts_at_one_thirteen() {
    assert!(takes_salt(Version::new(1, 13, 0)));
    assert!(takes_salt(Version::new(1, 13, 1)));
    assert!(takes_salt(Version::new(3, 0, 0)));
    assert!(!takes_salt(Version::new(1, 12, 9)));
    assert!(!takes_salt(Version::new(0, 13, 0)));
}

#[test]
fn encode_with_uses_the_salt_only_where_the_server_takes_one() {
    assert_eq!(
        encode_with("sesame", Version::new(1, 13, 0), "c19b2d"),
        "t=26719a1196d2a940705a59634eb18eab&s=c19b2d"
    );
    assert_eq!(encode_with("sesame", Version::new(1, 12, 9), "c19b2d"), "p=enc:736573616d65");
}
