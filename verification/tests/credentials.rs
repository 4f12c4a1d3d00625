use fling::crypto::{
    derive_ssid, generate_encryption_key, generate_network_password, key_to_hex_string, link_fragment,
    wifi_accepts, NetworkCredentials, SharedSecret,
};

fn counting_key() -> Vec<u8> {
    (0u8..32).collect()
}

#[test]
fn hex_of_no_bytes_is_empty() {
    assert_eq!(key_to_hex_string(&[]), "");
}

#[test]
fn hex_is_lowercase_two_digits_per_byte() {
    assert_eq!(key_to_hex_string(&[0x00, 0x0f, 0xa5, 0xff]), "000fa5ff");
    assert_eq!(key_to_hex_string(&[0x10]), "10");
    assert_eq!(key_to_hex_string(&[0x09, 0x0a]), "090a");
}

#[test]
fn hex_of_a_full_key_has_sixty_four_digits() {
    let hex = key_to_hex_string(&counting_key());
    assert_eq!(hex.len(), 64);
    assert_eq!(
        hex,
        "000102030405060708090a0b0c0d0e0f101112131415161718191a1b1c1d1e1f"
    );
}

#[test]
fn password_takes_two_of_the_name_and_ten_of_the_key() {
    let key = [0xde, 0xad, 0xbe, 0xef, 0x01, 0x02];
    assert_eq!(generate_network_password("laptop", &key), "fling-la-adbeef0102");
    assert_eq!(generate_network_password("laptop", &counting_key()), "fling-la-1b1c1d1e1f");
}

#[test]
fn password_is_the_same_every_time() {
    let key = counting_key();
    let first = generate_network_password("workstation", &key);
    let second = generate_network_password("workstation", &key);
    assert_eq!(first, second);
}

#[test]
fn password_with_a_short_name_keeps_the_separator() {
    assert_eq!(generate_network_password("x", &counting_key()), "fling-x-1b1c1d1e1f");
    assert_eq!(generate_network_password("", &counting_key()), "fling--1b1c1d1e1f");
}

#[test]
fn password_with_a_short_key_keeps_the_separator() {
    assert_eq!(generate_network_password("laptop", &[0xab]), "fling-la-ab");
    assert_eq!(generate_network_password("laptop", &[]), "fling-la-");
    assert_eq!(generate_network_password("", &[]), "fling--");
}

#[test]
fn password_with_exactly_ten_digits_takes_them_all() {
    assert_eq!(
        generate_network_password("ab", &[0x01, 0x23, 0x45, 0x67, 0x89]),
        "fling-ab-0123456789"
    );
}

#[test]
fn password_counts_characters_not_bytes() {
    let key = [0x01, 0x02];
    assert_eq!(generate_network_password("\u{e9}t\u{e9}", &key), "fling-\u{e9}t-0102");
    assert_eq!(generate_network_password("\u{65e5}\u{672c}\u{8a9e}", &key), "fling-\u{65e5}\u{672c}-0102");
}

#[test]
fn fragment_is_the_last_four_digits_lower_cased() {
    assert_eq!(link_fragment("AA:BB:CC:DD:EE:FF"), "eeff");
    assert_eq!(link_fragment("00:1a:7D:da:71:13"), "7113");
    assert_eq!(link_fragment("AABBCCDDEE0F"), "ee0f");
}

#[test]
fn fragment_of_a_short_address_is_all_of_it() {
    assert_eq!(link_fragment("a:B"), "ab");
    assert_eq!(link_fragment(":::"), "");
    assert_eq!(link_fragment(""), "");
    assert_eq!(link_fragment("A:BC:D"), "abcd");
}

#[test]
fn ssid_joins_tag_name_fragment_and_password_tail() {
    assert_eq!(
        derive_ssid("laptop", "fling-la-adbeef0102", "eeff"),
        "fling-laptop-eeff-02"
    );
    assert_eq!(derive_ssid("", "", ""), "fling---");
    assert_eq!(derive_ssid("n", "p", "f"), "fling-n-f-p");
}

#[test]
fn credentials_are_derived_in_one_piece() {
    let key = counting_key();
    let credentials = NetworkCredentials::derive("laptop", &key, "AA:BB:CC:DD:EE:FF");
    assert_eq!(credentials.password, "fling-la-1b1c1d1e1f");
    assert_eq!(credentials.ssid, "fling-laptop-eeff-1f");
    assert!(credentials.fits_wifi());
}

#[test]
fn both_sides_derive_the_same_credentials() {
    let key = generate_encryption_key();
    let sender = NetworkCredentials::derive("pixel", &key, "10:20:30:40:A0:B0");
    let receiver = NetworkCredentials::derive("pixel", &key, "10:20:30:40:A0:B0");
    assert_eq!(sender.ssid, receiver.ssid);
    assert_eq!(sender.password, receiver.password);
}

#[test]
fn credentials_clone_is_equal() {
    let credentials = NetworkCredentials::derive("laptop", &counting_key(), "AA:BB:CC:DD:EE:FF");
    let copy = credentials.clone();
    assert_eq!(copy.ssid, credentials.ssid);
    assert_eq!(copy.password, credentials.password);
}

#[test]
fn wifi_limits_are_checked() {
    assert!(wifi_accepts("fling-laptop-eeff-1f", "fling-la-1b1c1d1e1f"));
    assert!(wifi_accepts("a", "12345678"));
    assert!(wifi_accepts(&"s".repeat(32), &"p".repeat(63)));
    assert!(!wifi_accepts("", "12345678"));
    assert!(!wifi_accepts("a", "1234567"));
    assert!(!wifi_accepts(&"s".repeat(33), "12345678"));
    assert!(!wifi_accepts("a", &"p".repeat(64)));
    assert!(!wifi_accepts("caf\u{e9}", "12345678"));
    assert!(!wifi_accepts("cafe", "1234567\u{e9}"));
}

#[test]
fn long_names_make_credentials_that_do_not_fit() {
    let credentials =
        NetworkCredentials::derive("a-host-with-a-very-long-name", &counting_key(), "AA:BB:CC:DD:EE:FF");
    assert_eq!(credentials.ssid, "fling-a-host-with-a-very-long-name-eeff-1f");
    assert!(!credentials.fits_wifi());
}

#[test]
fn generated_keys_have_thirty_two_bytes() {
    let key = generate_encryption_key();
    assert_eq!(key.len(), 32);
    let other = generate_encryption_key();
    assert_eq!(other.len(), 32);
    assert_ne!(key, other);
}

#[test]
fn secret_takes_thirty_two_bytes_only() {
    assert!(SharedSecret::from_bytes(vec![7u8; 32]).is_some());
    assert!(SharedSecret::from_bytes(vec![7u8; 31]).is_none());
    assert!(SharedSecret::from_bytes(vec![7u8; 33]).is_none());
    assert!(SharedSecret::from_bytes(Vec::new()).is_none());
    let secret = SharedSecret::from_bytes(counting_key()).unwrap();
    assert_eq!(secret.as_bytes(), counting_key().as_slice());
    assert_eq!(secret.clone().as_bytes(), counting_key().as_slice());
}

#[test]
fn generated_secret_has_thirty_two_bytes() {
    assert_eq!(SharedSecret::generate().as_bytes().len(), 32);
}

#[test]
fn names_of_up_to_eighteen_characters_make_credentials_that_fit() {
    let key = counting_key();
    for len in 0..=18 {
        let name = "n".repeat(len);
        let credentials = NetworkCredentials::derive(&name, &key, "AA:BB:CC:DD:EE:FF");
        assert!(credentials.fits_wifi(), "{}", len);
        assert_eq!(credentials.ssid.len(), len + 14);
    }
    let credentials = NetworkCredentials::derive(&"n".repeat(19), &key, "AA:BB:CC:DD:EE:FF");
    assert_eq!(credentials.ssid.len(), 33);
    assert!(!credentials.fits_wifi());
}

#[test]
fn a_name_that_is_not_ascii_makes_credentials_that_do_not_fit() {
    let credentials = NetworkCredentials::derive("caf\u{e9}", &counting_key(), "AA:BB:CC:DD:EE:FF");
    assert_eq!(credentials.ssid, "fling-caf\u{e9}-eeff-1f");
    assert!(!credentials.fits_wifi());
}
