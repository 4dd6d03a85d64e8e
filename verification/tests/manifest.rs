use msedgedriver_tool::error::Error;
use msedgedriver_tool::locator::locate_in_manifest;
use msedgedriver_tool::locator::ManifestEntry;
use msedgedriver_tool::manifest::element;
use msedgedriver_tool::manifest::entries;
use msedgedriver_tool::manifest::entry;
use msedgedriver_tool::manifest::parse_manifest;
use msedgedriver_tool::manifest::text_of_element;
use msedgedriver_tool::version::Version;

fn item(name: &str, url: &str) -> ManifestEntry {
    ManifestEntry { name: name.to_string(), url: url.to_string() }
}

fn listing() -> Vec<u8> {
    let mut document = Vec::new();
    document.extend_from_slice(b"\xef\xbb\xbf<?xml version=\"1.0\" encoding=\"utf-8\"?>");
    document.extend_from_slice(
        b"<EnumerationResults ContainerName=\"https://msedgedriver.azureedge.net/\"><Blobs>",
    );
    for (name, length) in [
        ("100.0.1.2/edgedriver_arm64.zip", "8"),
        ("100.0.1.2/edgedriver_win32.zip", "9"),
        ("100.0.1.2/edgedriver_win64.zip", "10"),
        ("LATEST_STABLE", "30"),
    ] {
        document.extend_from_slice(b"<Blob><Name>");
        document.extend_from_slice(name.as_bytes());
        document.extend_from_slice(b"</Name><Url>https://msedgedriver.azureedge.net/");
        document.extend_from_slice(name.as_bytes());
        document.extend_from_slice(b"</Url><Properties><Content-Length>");
        document.extend_from_slice(length.as_bytes());
        document.extend_from_slice(b"</Content-Length><Content-Encoding /></Properties></Blob>");
    }
    document.extend_from_slice(b"</Blobs><NextMarker /></EnumerationResults>");
    document
}

#[test]
fn a_listing_gives_its_entries_in_order() {
    assert_eq!(
        parse_manifest(&listing()),
        Ok(vec![
            item(
                "100.0.1.2/edgedriver_arm64.zip",
                "https://msedgedriver.azureedge.net/100.0.1.2/edgedriver_arm64.zip"
            ),
            item(
                "100.0.1.2/edgedriver_win32.zip",
                "https://msedgedriver.azureedge.net/100.0.1.2/edgedriver_win32.zip"
            ),
            item(
                "100.0.1.2/edgedriver_win64.zip",
                "https://msedgedriver.azureedge.net/100.0.1.2/edgedriver_win64.zip"
            ),
            item("LATEST_STABLE", "https://msedgedriver.azureedge.net/LATEST_STABLE"),
        ])
    );
}

#[test]
fn a_listing_leads_to_the_win64_archive() {
    let entries = parse_manifest(&listing()).unwrap();
    let version = Version::new("100.0.1.2").unwrap();
    let target = locate_in_manifest(&entries, &version).unwrap();
    assert_eq!(target.url, "https://msedgedriver.azureedge.net/100.0.1.2/edgedriver_win64.zip");
    assert_eq!(target.member, "msedgedriver.exe");
    let other = Version::new("100.0.1.3").unwrap();
    assert_eq!(locate_in_manifest(&entries, &other), Err(Error::NoMatchingEntry));
}

#[test]
fn a_listing_may_be_empty() {
    assert_eq!(parse_manifest(b"<EnumerationResults><Blobs></Blobs></EnumerationResults>"), Ok(Vec::new()));
    assert_eq!(parse_manifest(b"<EnumerationResults><Blobs />\n</EnumerationResults>"), Ok(Vec::new()));
    assert_eq!(parse_manifest(b"<Blobs>\n  \n</Blobs>"), Ok(Vec::new()));
}

#[test]
fn url_may_stand_before_name() {
    assert_eq!(
        parse_manifest(b"<Blobs><Blob><Url>u</Url><Name>n</Name></Blob></Blobs>"),
        Ok(vec![item("n", "u")])
    );
}

#[test]
fn text_is_taken_as_it_stands() {
    assert_eq!(
        parse_manifest("<Blobs><Blob><Name> é日本 </Name><Url></Url></Blob></Blobs>".as_bytes()),
        Ok(vec![item(" é日本 ", "")])
    );
}

#[test]
fn only_the_first_blobs_element_counts() {
    assert_eq!(
        parse_manifest(
            b"<Blob><Name>x</Name><Url>y</Url></Blob><Blobs><Blob><Name>a</Name><Url>b</Url></Blob></Blobs><Blobs><Blob><Name>c</Name><Url>d</Url></Blob></Blobs>"
        ),
        Ok(vec![item("a", "b")])
    );
}

#[test]
fn a_document_of_another_shape_is_refused() {
    let refused: [&[u8]; 12] = [
        b"",
        b"not a listing",
        b"{\"Blobs\": []}",
        b"<EnumerationResults></EnumerationResults>",
        b"<Blobs>",
        b"</Blobs><Blobs>",
        b"<Blobs><Blob></Blobs>",
        b"<Blobs><Blob></Blob></Blobs>",
        b"<Blobs><Blob><Name>n</Name></Blob></Blobs>",
        b"<Blobs><Blob><Url>u</Url></Blob></Blobs>",
        b"<Blobs><Blob><Name>n</Name><Url>u</Blob></Blobs>",
        b"<Blobs><Blob><Name>n</Name><Url>u</Url></Blob><Blob><Name>n</Name></Blob></Blobs>",
    ];
    for document in refused {
        assert_eq!(parse_manifest(document), Err(Error::ManifestParseError), "{:?}", document);
    }
}

#[test]
fn ill_formed_text_is_refused() {
    assert_eq!(
        parse_manifest(b"<Blobs><Blob><Name>n\xff</Name><Url>u</Url></Blob></Blobs>"),
        Err(Error::ManifestParseError)
    );
    assert_eq!(
        parse_manifest(b"<Blobs><Blob><Name>n</Name><Url>\xe6\x97</Url></Blob></Blobs>"),
        Err(Error::ManifestParseError)
    );
}

#[test]
fn an_element_is_found_by_its_tags() {
    let document = b"<a><Name>x</Name><Name>yz</Name>";
    assert_eq!(element(document, "<Name>", "</Name>", 0), Some((9, 10)));
    assert_eq!(element(document, "<Name>", "</Name>", 3), Some((9, 10)));
    assert_eq!(element(document, "<Name>", "</Name>", 4), Some((23, 25)));
    assert_eq!(element(document, "<Name>", "</Name>", 18), None);
    assert_eq!(element(document, "<Url>", "</Url>", 0), None);
    assert_eq!(element(document, "<a>", "</a>", 0), None);
    assert_eq!(element(document, "<Name>", "</Name>", 1000), None);
    assert_eq!(text_of_element(document, "<Name>", "</Name>"), Some("x".to_string()));
    assert_eq!(text_of_element(document, "<a>", "</Name>"), Some("<Name>x".to_string()));
    assert_eq!(text_of_element(document, "<b>", "</b>"), None);
}

#[test]
fn an_entry_is_a_name_and_an_address() {
    assert_eq!(entry(b"<Name>n</Name><Url>u</Url>"), Some(item("n", "u")));
    assert_eq!(entry(b"<Name>n</Name><Url>u</Url><Name>m</Name>"), Some(item("n", "u")));
    assert_eq!(entry(b"<Name>n</Name>"), None);
    assert_eq!(entry(b""), None);
    assert_eq!(
        entries(b"<Blob><Name>a</Name><Url>b</Url></Blob> <Blob><Name>c</Name><Url>d</Url></Blob>"),
        Some(vec![item("a", "b"), item("c", "d")])
    );
    assert_eq!(entries(b"nothing"), Some(Vec::new()));
    assert_eq!(entries(b"<Blob><Name>a</Name><Url>b</Url>"), None);
}
