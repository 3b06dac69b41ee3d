use subsonic_client::version::{satisfies, Version};

fn v(major: u32, minor: u32, patch: u32) -> Version {
    Version::new(major, minor, patch)
}

#[test]
fn parse_reads_three_numerals() {
    assert_eq!(Version::parse("1.16.1"), Some(v(1, 16, 1)));
    assert_eq!(Version::parse("0.0.0"), Some(v(0, 0, 0)));
    assert_eq!(Version::parse("10.020.4294967295"), Some(v(10, 20, 4294967295)));
}

#[test]
fn parse_refuses_anything_else() {
    assert_eq!(Version::parse(""), None);
    assert_eq!(Version::parse("1"), None);
    assert_eq!(Version::parse("1.16"), None);
    assert_eq!(Version::parse("1.16.1.0"), None);
    assert_eq!(Version::parse("1.16."), None);
    assert_eq!(Version::parse(".16.1"), None);
    assert_eq!(Version::parse("1..1"), None);
    assert_eq!(Version::parse("1.x.1"), None);
    assert_eq!(Version::parse("1.16.1 "), None);
    assert_eq!(Version::parse("+1.16.1"), None);
    assert_eq!(Version::parse("-1.16.1"), None);
    assert_eq!(Version::parse("1.16.4294967296"), None);
    assert_eq!(Version::parse("1.16.99999999999999999999999"), None);
}

#[test]
fn render_writes_what_parse_reads() {
    assert_eq!(v(1, 16, 1).render(), "1.16.1");
    assert_eq!(v(0, 0, 0).render(), "0.0.0");
    assert_eq!(v(4294967295, 10, 100).render(), "4294967295.10.100");
    let mut out = String::from("v=");
    v(1, 2, 3).push_to(&mut out);
    assert_eq!(out, "v=1.2.3");
    assert_eq!(Version::parse(&v(7, 0, 12).render()), Some(v(7, 0, 12)));
}

#[test]
fn a_server_satisfies_what_is_not_newer_than_it() {
    assert!(satisfies(v(1, 13, 0), v(1, 13, 0)));
    assert!(satisfies(v(1, 20, 0), v(1, 13, 0)));
    assert!(satisfies(v(1, 13, 1), v(1, 13, 0)));
    assert!(satisfies(v(1, 16, 1), v(1, 0, 0)));
}

#[test]
fn a_server_does_not_satisfy_what_is_newer_than_it() {
    assert!(!satisfies(v(1, 12, 9), v(1, 13, 0)));
    assert!(!satisfies(v(1, 13, 0), v(1, 13, 1)));
    assert!(!satisfies(v(0, 99, 99), v(1, 0, 0)));
    assert!(!satisfies(v(1, 13, 0), v(2, 0, 0)));
}

#[test]
fn a_later_major_version_satisfies_an_earlier_requirement() {
    // Field by field (2, 0, 0) would fail against (1, 13, 0); as versions it is newer.
    assert!(satisfies(v(2, 0, 0), v(1, 13, 0)));
    assert!(satisfies(v(2, 0, 0), v(1, 13, 5)));
    assert!(satisfies(v(1, 14, 0), v(1, 13, 5)));
    assert!(!satisfies(v(1, 13, 0), v(1, 12, 9)) == false);
}

#[test]
fn of_two_versions_one_satisfies_the_other() {
    let all = [v(0, 0, 0), v(1, 0, 0), v(1, 12, 9), v(1, 13, 0), v(1, 16, 1), v(2, 0, 0)];
    for a in all.iter() {
        assert!(satisfies(*a, *a));
        for b in all.iter() {
            assert!(satisfies(*a, *b) || satisfies(*b, *a));
            if satisfies(*a, *b) && satisfies(*b, *a) {
                assert_eq!(a, b);
            }
        }
    }
}
