use msedgedriver_tool::error::Error;

#[test]
fn every_error_has_its_sentence() {
    assert_eq!(
        Error::LookupFailed("program not found".to_string()).message(),
        "unable to run command to find WebView2 version: program not found"
    );
    assert_eq!(Error::NoInstallFound.message(), "no WebView2 installation found");
    assert_eq!(
        Error::UnsupportedPlatform { os: "linux".to_string(), arch: "riscv64".to_string() }
            .message(),
        "linux(riscv64) platform not supported by msedgedriver"
    );
    assert_eq!(
        Error::NetworkError("http status: 404".to_string()).message(),
        "http request failed: http status: 404"
    );
    assert_eq!(Error::BodyTooLarge.message(), "http response body exceeds 100 MiB");
    assert_eq!(Error::ManifestParseError.message(), "driver listing could not be read");
    assert_eq!(Error::NoMatchingEntry.message(), "driver listing has no entry for this version");
    assert_eq!(
        Error::CorruptArchive.message(),
        "unzipping archive failed: not a readable zip archive"
    );
    assert_eq!(
        Error::MemberNotFound.message(),
        "unzipping archive failed: driver not found in archive"
    );
    assert_eq!(Error::IoError("disk full".to_string()).message(), "I/O error: disk full");
}

#[test]
fn a_cause_may_be_empty() {
    assert_eq!(Error::IoError(String::new()).message(), "I/O error: ");
    assert_eq!(
        Error::UnsupportedPlatform { os: String::new(), arch: String::new() }.message(),
        "() platform not supported by msedgedriver"
    );
}
