use msedgedriver_tool::error::Error;
use msedgedriver_tool::locator::driver_url;
use msedgedriver_tool::locator::expected_entry_name;
use msedgedriver_tool::locator::locate;
use msedgedriver_tool::locator::locate_in_manifest;
use msedgedriver_tool::locator::manifest_url;
use msedgedriver_tool::locator::DownloadTarget;
use msedgedriver_tool::locator::ManifestEntry;
use msedgedriver_tool::platform::Platform;
use msedgedriver_tool::version::Version;

fn entry(name: &str, url: &str) -> ManifestEntry {
    ManifestEntry { name: name.to_string(), url: url.to_string() }
}

#[test]
fn direct_url_for_win64() {
    let version = Version::new("100.0.1.2").unwrap();
    assert_eq!(
        driver_url(&version, &Platform::Win64),
        "https://msedgedriver.microsoft.com/100.0.1.2/edgedriver_win64.zip"
    );
    assert_eq!(
        locate(&version, Platform::Win64),
        DownloadTarget {
            url: "https://msedgedriver.microsoft.com/100.0.1.2/edgedriver_win64.zip".to_string(),
            member: "msedgedriver.exe".to_string(),
        }
    );
}

#[test]
fn direct_url_for_every_platform() {
    let version = Version::new("120.0.2210.61").unwrap();
    let expected = [
        (Platform::Win64, "win64", "msedgedriver.exe"),
        (Platform::Arm64, "arm64", "msedgedriver.exe"),
        (Platform::Win32, "win32", "msedgedriver.exe"),
        (Platform::Mac64, "mac64", "msedgedriver"),
        (Platform::Mac64M1, "mac64_m1", "msedgedriver"),
        (Platform::Linux64, "linux64", "msedgedriver"),
    ];
    for (platform, label, member) in expected {
        let url = format!("https://msedgedriver.microsoft.com/120.0.2210.61/edgedriver_{}.zip", label);
        assert_eq!(driver_url(&version, &platform), url);
        assert_eq!(locate(&version, platform), DownloadTarget { url, member: member.to_string() });
    }
}

#[test]
fn locating_twice_gives_the_same() {
    let version = Version::new("100.0.1.2").unwrap();
    assert_eq!(locate(&version, Platform::Linux64), locate(&version, Platform::Linux64));
}

#[test]
fn manifest_gives_the_win64_archive() {
    let version = Version::new("100.0.1.2").unwrap();
    let entries = vec![
        entry("100.0.1.2/edgedriver_win64.zip", "https://host.example/a/win64.zip"),
        entry("100.0.1.2/edgedriver_win32.zip", "https://host.example/a/win32.zip"),
    ];
    assert_eq!(
        locate_in_manifest(&entries, &version),
        Ok(DownloadTarget {
            url: "https://host.example/a/win64.zip".to_string(),
            member: "msedgedriver.exe".to_string(),
        })
    );
    let entries = vec![
        entry("100.0.1.2/edgedriver_win32.zip", "https://host.example/a/win32.zip"),
        entry("100.0.1.2/edgedriver_win64.zip", "https://host.example/a/win64.zip"),
    ];
    assert_eq!(
        locate_in_manifest(&entries, &version).unwrap().url,
        "https://host.example/a/win64.zip"
    );
}

#[test]
fn manifest_takes_the_first_of_equal_names() {
    let version = Version::new("100.0.1.2").unwrap();
    let entries = vec![
        entry("100.0.1.20/edgedriver_win64.zip", "https://host.example/other"),
        entry("100.0.1.2/edgedriver_win64.zip", "https://host.example/first"),
        entry("100.0.1.2/edgedriver_win64.zip", "https://host.example/second"),
    ];
    assert_eq!(locate_in_manifest(&entries, &version).unwrap().url, "https://host.example/first");
}

#[test]
fn manifest_without_the_version_has_no_matching_entry() {
    let version = Version::new("100.0.1.2").unwrap();
    assert_eq!(locate_in_manifest(&Vec::new(), &version), Err(Error::NoMatchingEntry));
    let entries = vec![
        entry("100.0.1.2/edgedriver_win32.zip", "https://host.example/a/win32.zip"),
        entry("100.0.1.3/edgedriver_win64.zip", "https://host.example/b/win64.zip"),
        entry("100.0.1.2/edgedriver_win64.zip ", "https://host.example/c/win64.zip"),
        entry("100.0.1.2/EDGEDRIVER_WIN64.ZIP", "https://host.example/d/win64.zip"),
        entry("/100.0.1.2/edgedriver_win64.zip", "https://host.example/e/win64.zip"),
    ];
    assert_eq!(locate_in_manifest(&entries, &version), Err(Error::NoMatchingEntry));
}

#[test]
fn expected_name_in_the_manifest() {
    let version = Version::new("100.0.1.2").unwrap();
    assert_eq!(expected_entry_name(&version), "100.0.1.2/edgedriver_win64.zip");
    assert_eq!(manifest_url(), "https://msedgedriver.azureedge.net");
}
