use msedgedriver_tool::version::Version;

#[test]
fn a_version_is_its_trimmed_text() {
    assert_eq!(Version::new("100.0.1185.36").unwrap().as_str(), "100.0.1185.36");
    assert_eq!(Version::new("  100.0.1185.36\r\n").unwrap().as_str(), "100.0.1185.36");
    assert_eq!(Version::new("\tnot a number\n").unwrap().as_str(), "not a number");
}

#[test]
fn no_version_without_text() {
    assert_eq!(Version::new(""), None);
    assert_eq!(Version::new(" \r\n\t"), None);
    assert_eq!(Version::from_text(true, ""), None);
    assert_eq!(Version::from_output(true, b""), None);
    assert_eq!(Version::from_output(true, b"\r\n"), None);
}

#[test]
fn no_version_from_a_failed_command() {
    assert_eq!(Version::from_text(false, "100.0.1185.36"), None);
    assert_eq!(Version::from_output(false, b"100.0.1185.36\r\n"), None);
    assert_eq!(Version::from_output(false, b""), None);
}

#[test]
fn version_from_command_output() {
    let version = Version::from_output(true, b"100.0.1185.36\r\n").unwrap();
    assert_eq!(version.as_str(), "100.0.1185.36");
    assert_eq!(Version::from_text(true, " 1.2.3.4 ").unwrap().as_str(), "1.2.3.4");
}

#[test]
fn ill_formed_output_is_read_with_replacements() {
    let version = Version::from_output(true, b"1.2\xff.3\n").unwrap();
    assert_eq!(version.as_str(), "1.2\u{fffd}.3");
    let version = Version::from_output(true, &[0xe6, 0x97, 0xa5, b' ']).unwrap();
    assert_eq!(version.as_str(), "日");
}

#[test]
fn a_copy_is_equal() {
    let version = Version::new("1.2.3.4").unwrap();
    assert_eq!(version.clone(), version);
    assert_ne!(version, Version::new("1.2.3.5").unwrap());
}
