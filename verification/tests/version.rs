use updater::error::ErrorKind;
use updater::launcher::{is_left_over, read_version};
use updater::version::parse::{extract_text, version_from_parsed};
use updater::version::scan::find_version;
use updater::version::{extract, Version};

/// Checks if the latest version is newer
fn check(current: &str, latest: &str) -> bool {
    let c = match Version::parse(current) {
        Ok(v) => v,
        Err(_) => return false,
    };
    let l = match Version::parse(latest) {
        Ok(v) => v,
        Err(_) => return false,
    };

    c < l
}

#[test]
fn check_latest_newer() {
    assert!(check("1.2.3", "1.2.4"));
}

#[test]
fn check_current_newer() {
    assert!(!check("1.2.4", "1.2.3"));
}

#[test]
fn check_both_same() {
    assert!(!check("1.2.3", "1.2.3"));
}

#[test]
fn check_latest_incorrect() {
    assert!(!check("1.2.3", "1.2.C"));
}

#[test]
fn check_current_incorrect() {
    assert!(!check("1.2.C", "1.2.3"));
}

#[test]
fn check_both_incorrect() {
    assert!(!check("1.2.C", "1.2.C"));
}

#[test]
fn extract_raw() {
    let ver = "1.2.3";
    let sver = extract(&ver).unwrap();
    assert_eq!(Version::new(1, 2, 3), sver);
}

#[test]
fn extract_with_prefix() {
    let ver = "v1.2.3";
    let sver = extract(&ver).unwrap();
    assert_eq!(Version::new(1, 2, 3), sver);
}

#[test]
fn extract_incorrect() {
    let ver = "1.W.3";
    assert!(extract(&ver).is_err());
}

#[test]
fn version_extract_raw() {
    let ver = "1.2.3";
    let sver = extract_text(&ver).unwrap();
    assert_eq!(ver, &sver);
}

#[test]
fn version_extract_with_prefix() {
    let ver = "v1.2.3";
    let sver = extract_text(&ver).unwrap();
    assert_eq!("1.2.3", &sver);
}

#[test]
fn version_extract_incorrect() {
    let ver = "1.W.3";
    assert!(extract_text(&ver).is_none());
}

#[test]
fn extract_ignores_what_stands_around_the_version() {
    assert_eq!(extract("app-1.2.3-beta").unwrap(), Version::new(1, 2, 3));
    assert_eq!(extract("release 10.20.30 (stable)").unwrap(), Version::new(10, 20, 30));
    assert_eq!(extract("1.2.3.4").unwrap(), Version::new(1, 2, 3));
}

#[test]
fn extract_fails_without_a_version() {
    let error = extract("no-version").unwrap_err();
    assert_eq!(error.kind(), ErrorKind::Parse);
    assert_eq!(error.to_string(), "No version number found");
    assert!(extract("").is_err());
    assert!(extract("1.2").is_err());
    assert!(extract("1..2.3x").is_err());
}

#[test]
fn extract_takes_the_first_version() {
    assert_eq!(extract("1.2.x 3.4.5 6.7.8").unwrap(), Version::new(3, 4, 5));
    assert_eq!(extract_text("a1.2.3b4.5.6").unwrap(), "1.2.3");
}

#[test]
fn extract_hands_a_refused_number_on_as_a_parse_error() {
    // A run of digits with a leading zero is found, and then refused.
    let error = extract("v01.2.3").unwrap_err();
    assert_eq!(error.kind(), ErrorKind::Parse);
    assert!(extract("99999999999999999999999.0.0").is_err());
}

#[test]
fn find_version_gives_the_span() {
    let text: Vec<char> = "v12.34.56-rc".chars().collect();
    assert_eq!(find_version(&text), Some((1, 9)));
    let none: Vec<char> = "12.34".chars().collect();
    assert_eq!(find_version(&none), None);
    let late: Vec<char> = "1.2.".chars().collect();
    assert_eq!(find_version(&late), None);
}

#[test]
fn parse_reads_a_whole_version() {
    assert_eq!(Version::parse("1.2.3").unwrap(), Version::new(1, 2, 3));
    assert_eq!(Version::parse("0.0.0").unwrap(), Version::new(0, 0, 0));
    let error = Version::parse("v1.2.3").unwrap_err();
    assert_eq!(error.kind(), ErrorKind::Parse);
    assert!(!error.to_string().is_empty());
    assert_ne!(error.to_string(), "v1.2.3");
}

#[test]
fn version_from_parsed_keeps_numbers_and_messages() {
    assert_eq!(version_from_parsed(Ok((4, 5, 6))).unwrap(), Version::new(4, 5, 6));
    let error = version_from_parsed(Err("bad".to_string())).unwrap_err();
    assert_eq!(error.kind(), ErrorKind::Parse);
    assert_eq!(error.to_string(), "bad");
}

#[test]
fn versions_are_ordered_by_major_minor_patch() {
    assert!(Version::new(1, 0, 0) > Version::new(0, 99, 99));
    assert!(Version::new(1, 2, 0) > Version::new(1, 1, 99));
    assert!(Version::new(1, 2, 3) < Version::new(1, 2, 4));
    assert!(Version::new(1, 2, 3) <= Version::new(1, 2, 3));
    assert!(Version::new(1, 2, 3).is_newer_than(&Version::new(1, 2, 2)));
    assert!(!Version::new(1, 2, 3).is_newer_than(&Version::new(1, 2, 3)));
    assert!(!Version::new(1, 2, 3).is_newer_than(&Version::new(2, 0, 0)));
}

#[test]
fn version_to_string_is_dotted_decimal() {
    assert_eq!(Version::new(1, 2, 0).to_string(), "1.2.0");
    assert_eq!(Version::new(0, 0, 0).to_string(), "0.0.0");
    assert_eq!(Version::new(10, 205, 3000).to_string(), "10.205.3000");
    assert_eq!(
        Version::new(u64::MAX, 0, 7).to_string(),
        "18446744073709551615.0.7"
    );
}

#[test]
fn left_over_versions_are_older_ones() {
    let current = Version::new(1, 2, 0);
    assert!(is_left_over("1.1.9", &current));
    assert!(!is_left_over("1.2.0", &current));
    assert!(!is_left_over("1.3.0", &current));
    assert!(!is_left_over("logs", &current));
}

#[test]
fn version_file_text_is_read_as_a_whole() {
    assert_eq!(read_version("1.2.3"), Some(Version::new(1, 2, 3)));
    assert_eq!(read_version("version 1.2.3"), None);
    assert_eq!(read_version(""), None);
}
