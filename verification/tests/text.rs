use subsonic_client::text::{
    camel_case, chars_of, find_char, hex_digit, parse_u32, parse_u64, push_camel, push_decimal, push_hex,
    text_eq, to_upper,
};

#[test]
fn text_eq_compares_characters() {
    assert!(text_eq("", ""));
    assert!(text_eq("status", "status"));
    assert!(!text_eq("status", "statuz"));
    assert!(!text_eq("status", "statu"));
    assert!(!text_eq("a", ""));
    assert!(text_eq("grüße", "grüße"));
    assert!(!text_eq("grüße", "grusse"));
}

#[test]
fn chars_of_lists_characters_in_order() {
    assert_eq!(chars_of(""), Vec::<char>::new());
    assert_eq!(chars_of("a.b"), vec!['a', '.', 'b']);
    assert_eq!(chars_of("é1"), vec!['é', '1']);
}

#[test]
fn find_char_gives_first_position_or_length() {
    let cs = chars_of("1.16.1");
    assert_eq!(find_char(&cs, 0, '.'), 1);
    assert_eq!(find_char(&cs, 2, '.'), 4);
    assert_eq!(find_char(&cs, 5, '.'), 6);
    assert_eq!(find_char(&cs, 6, '.'), 6);
}

#[test]
fn parse_u64_reads_numerals_only() {
    assert_eq!(parse_u64("0"), Some(0));
    assert_eq!(parse_u64("007"), Some(7));
    assert_eq!(parse_u64("237462836472342"), Some(237462836472342));
    assert_eq!(parse_u64("18446744073709551615"), Some(u64::MAX));
    assert_eq!(parse_u64("18446744073709551616"), None);
    assert_eq!(parse_u64("99999999999999999999"), None);
    assert_eq!(parse_u64(""), None);
    assert_eq!(parse_u64("+1"), None);
    assert_eq!(parse_u64("-1"), None);
    assert_eq!(parse_u64("1 "), None);
    assert_eq!(parse_u64("12a"), None);
    assert_eq!(parse_u64("١٢"), None);
}

#[test]
fn parse_u32_stops_at_32_bits() {
    assert_eq!(parse_u32("4294967295"), Some(u32::MAX));
    assert_eq!(parse_u32("4294967296"), None);
    assert_eq!(parse_u32("70"), Some(70));
    assert_eq!(parse_u32("0.5"), None);
}

#[test]
fn push_decimal_appends_the_numeral() {
    let mut out = String::from("n=");
    push_decimal(&mut out, 0);
    assert_eq!(out, "n=0");
    push_decimal(&mut out, 1205);
    assert_eq!(out, "n=01205");
    let mut big = String::new();
    push_decimal(&mut big, u64::MAX);
    assert_eq!(big, "18446744073709551615");
}

#[test]
fn push_hex_writes_two_digits_per_byte() {
    let mut out = String::new();
    push_hex(&mut out, &[0x00, 0x0a, 0xff, 0x10, 0x7f]);
    assert_eq!(out, "000aff107f");
    push_hex(&mut out, &[]);
    assert_eq!(out, "000aff107f");
    assert_eq!(hex_digit(0), '0');
    assert_eq!(hex_digit(9), '9');
    assert_eq!(hex_digit(10), 'a');
    assert_eq!(hex_digit(15), 'f');
}

#[test]
fn camel_case_joins_words() {
    assert_eq!(camel_case("ping"), "ping");
    assert_eq!(camel_case("get_music_folders"), "getMusicFolders");
    assert_eq!(camel_case("get_artist_info2"), "getArtistInfo2");
    assert_eq!(camel_case("music_folder_id"), "musicFolderId");
    assert_eq!(camel_case("if_modified_since"), "ifModifiedSince");
    assert_eq!(camel_case("a__b"), "aB");
    assert_eq!(camel_case("get_2nd"), "get2nd");
    assert_eq!(camel_case(""), "");
    let mut out = String::from("/rest/");
    push_camel(&mut out, "create_internet_radio_station");
    assert_eq!(out, "/rest/createInternetRadioStation");
    assert_eq!(to_upper('a'), 'A');
    assert_eq!(to_upper('z'), 'Z');
    assert_eq!(to_upper('A'), 'A');
    assert_eq!(to_upper('1'), '1');
    assert_eq!(to_upper('é'), 'é');
}
