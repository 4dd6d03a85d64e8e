//! Where the driver for a version is downloaded from, and what it is called inside
//! the archive.
//!
//! The address follows from the version and the platform. Where a host does not
//! publish under such addresses, the archive is looked up by name in the host's
//! listing instead; the listing covers 64-bit Windows only.

use vstd::prelude::*;
use vstd::string::StringExecFns;

use crate::error::Error;
use crate::error::ErrorView;
use crate::platform::Platform;
use crate::text::same_text;
use crate::version::Version;

verus! {

/// An archive to download and the member to take out of it.
#[derive(Debug, PartialEq, Eq)]
pub struct DownloadTarget {
    /// The address of the archive.
    pub url: String,
    /// The name of the driver inside the archive.
    pub member: String,
}

/// A [`DownloadTarget`] with its texts as sequences of characters.
pub struct TargetView {
    pub url: Seq<char>,
    pub member: Seq<char>,
}

impl View for DownloadTarget {
    type V = TargetView;

    open spec fn view(&self) -> TargetView {
        TargetView { url: self.url@, member: self.member@ }
    }
}

/// The address of the driver archive for `version` on `platform`.
pub open spec fn url_text(version: Seq<char>, platform: Platform) -> Seq<char> {
    "https://msedgedriver.microsoft.com/"@ + version + "/edgedriver_"@ + platform.label_text()
        + ".zip"@
}

/// The archive for `version` on `platform`, and the driver's name inside it.
pub open spec fn target_of(version: Seq<char>, platform: Platform) -> TargetView {
    TargetView { url: url_text(version, platform), member: platform.member_text() }
}

/// The address of the Microsoft Edge WebDriver archive for `version` on `platform`.
pub fn driver_url(version: &Version, platform: &Platform) -> (url: String)
    ensures
        url@ == url_text(version@, *platform),
{
    let mut url = String::from_str("https://msedgedriver.microsoft.com/");
    url.append(version.as_str());
    url.append("/edgedriver_");
    url.append(platform.label());
    url.append(".zip");
    url
}

/// The archive to download for `version` on `platform`, and the driver's name
/// inside it. Nothing is fetched and nothing can fail.
pub fn locate(version: &Version, platform: Platform) -> (target: DownloadTarget)
    ensures
        target@ == target_of(version@, platform),
{
    DownloadTarget {
        url: driver_url(version, &platform),
        member: String::from_str(platform.member_name()),
    }
}

/// The address of the listing of driver archives.
pub open spec fn manifest_url_text() -> Seq<char> {
    "https://msedgedriver.azureedge.net"@
}

/// The address of the listing of driver archives.
pub fn manifest_url() -> (url: &'static str)
    ensures
        url@ == manifest_url_text(),
{
    "https://msedgedriver.azureedge.net"
}

/// One line of a host's listing: an archive's name and its address.
#[derive(Debug, PartialEq, Eq)]
pub struct ManifestEntry {
    pub name: String,
    pub url: String,
}

/// A [`ManifestEntry`] with its texts as sequences of characters.
pub struct EntryView {
    pub name: Seq<char>,
    pub url: Seq<char>,
}

impl View for ManifestEntry {
    type V = EntryView;

    open spec fn view(&self) -> EntryView {
        EntryView { name: self.name@, url: self.url@ }
    }
}

/// The views of `entries`, in order.
pub open spec fn entry_views(entries: Seq<ManifestEntry>) -> Seq<EntryView> {
    entries.map_values(|entry: ManifestEntry| entry@)
}

/// The name under which a listing holds the 64-bit Windows archive for `version`.
pub open spec fn entry_name_text(version: Seq<char>) -> Seq<char> {
    version + "/edgedriver_win64.zip"@
}

/// Whether `k` is the position of the first entry called `name`.
pub open spec fn first_named(entries: Seq<EntryView>, name: Seq<char>, k: int) -> bool {
    &&& 0 <= k < entries.len()
    &&& entries[k].name == name
    &&& forall|j: int| 0 <= j < k ==> (#[trigger] entries[j]).name != name
}

/// The archive that a listing gives for `version`: the address of the first entry
/// whose name is exactly the expected one, with the driver's name on Windows.
pub open spec fn manifest_target(entries: Seq<EntryView>, version: Seq<char>) -> Result<
    TargetView,
    ErrorView,
> {
    let name = entry_name_text(version);
    if exists|k: int| first_named(entries, name, k) {
        let k = choose|k: int| first_named(entries, name, k);
        Ok(TargetView { url: entries[k].url, member: Platform::Win64.member_text() })
    } else {
        Err(ErrorView::NoMatchingEntry)
    }
}

/// The view of a target or of the error in its place.
pub open spec fn located_view(located: Result<DownloadTarget, Error>) -> Result<
    TargetView,
    ErrorView,
> {
    match located {
        Ok(target) => Ok(target@),
        Err(error) => Err(error@),
    }
}

/// The name under which a listing holds the 64-bit Windows archive for `version`.
pub fn expected_entry_name(version: &Version) -> (name: String)
    ensures
        name@ == entry_name_text(version@),
{
    String::from_str(version.as_str()).concat("/edgedriver_win64.zip")
}

/// The archive that a listing gives for `version` on 64-bit Windows: the address
/// of the first entry whose name is exactly `<version>/edgedriver_win64.zip`.
/// Fails with `NoMatchingEntry` where no entry has that name.
pub fn locate_in_manifest(entries: &Vec<ManifestEntry>, version: &Version) -> (located: Result<
    DownloadTarget,
    Error,
>)
    ensures
        located_view(located) == manifest_target(entry_views(entries@), version@),
{
    let name = expected_entry_name(version);
    let ghost views = entry_views(entries@);
    let mut at: usize = 0;
    while at < entries.len()
        invariant
            at <= entries.len(),
            views == entry_views(entries@),
            name@ == entry_name_text(version@),
            forall|j: int| 0 <= j < at ==> (#[trigger] views[j]).name != name@,
        decreases entries.len() - at,
    {
        assert(views[at as int] == entries@[at as int]@);
        if same_text(entries[at].name.as_str(), name.as_str()) {
            assert(first_named(views, name@, at as int));
            let ghost k = choose|k: int| first_named(views, name@, k);
            assert(k == at) by {
                if k < at {
                    assert(views[k].name != name@);
                }
                if at < k {
                    assert(views[at as int].name != name@);
                }
            }
            return Ok(
                DownloadTarget {
                    url: entries[at].url.clone(),
                    member: String::from_str(Platform::Win64.member_name()),
                },
            );
        }
        at = at + 1;
    }
    assert(!exists|k: int| first_named(views, name@, k));
    Err(Error::NoMatchingEntry)
}

/// A listing never gives an address of its own making: the target it gives for a
/// version is the address of an entry that carries the expected name, and an entry
/// of any other name is passed over, wherever it stands.
pub proof fn lemma_manifest_target_is_listed(entries: Seq<EntryView>, version: Seq<char>)
    ensures
        match manifest_target(entries, version) {
            Ok(target) => exists|k: int|
                0 <= k < entries.len() && (#[trigger] entries[k]).name == entry_name_text(
                    version,
                ) && entries[k].url == target.url,
            Err(error) => error == ErrorView::NoMatchingEntry && forall|k: int|
                0 <= k < entries.len() ==> (#[trigger] entries[k]).name != entry_name_text(
                    version,
                ),
        },
{
    let name = entry_name_text(version);
    if exists|k: int| first_named(entries, name, k) {
        let k = choose|k: int| first_named(entries, name, k);
        assert(entries[k].name == name);
    } else {
        assert forall|k: int| 0 <= k < entries.len() implies (#[trigger] entries[k]).name
            != name by {
            if entries[k].name == name {
                lemma_some_first(entries, name, k);
            }
        }
    }
}

proof fn lemma_some_first(entries: Seq<EntryView>, name: Seq<char>, k: int)
    requires
        0 <= k < entries.len(),
        entries[k].name == name,
    ensures
        exists|first: int| first_named(entries, name, first),
    decreases k,
{
    if exists|j: int| 0 <= j < k && (#[trigger] entries[j]).name == name {
        let j = choose|j: int| 0 <= j < k && (#[trigger] entries[j]).name == name;
        lemma_some_first(entries, name, j);
    } else {
        assert(first_named(entries, name, k));
    }
}

} // verus!
