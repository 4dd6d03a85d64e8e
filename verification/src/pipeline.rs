//! A whole run, one decision at a time: find the installed version, work out the
//! archive's address, download the archive, take the driver out of it and write it
//! to disk.
//!
//! The run itself touches nothing. Each step names what the caller is to do next,
//! and the caller hands the outcome to the state that came with the step. The first
//! failure ends the run; nothing is tried twice.

use vstd::prelude::*;
use vstd::string::StringExecFns;

use crate::archive::extract;
use crate::archive::extracted;
use crate::archive::zip_member;
use crate::archive::ZipFailure;
use crate::error::Error;
use crate::error::ErrorView;
use crate::fetch::delivered;
use crate::fetch::fetch;
use crate::fetch::request_for;
use crate::fetch::request_of;
use crate::fetch::user_agent;
use crate::fetch::user_agent_text;
use crate::fetch::Request;
use crate::fetch::RequestView;
use crate::fetch::Response;
use crate::fetch::ResponseView;
use crate::install::preference;
use crate::install::Webview2Install;
use crate::locator::locate;
use crate::locator::locate_in_manifest;
use crate::locator::manifest_target;
use crate::locator::manifest_url;
use crate::locator::manifest_url_text;
use crate::locator::target_of;
use crate::lookup::outcome_views;
use crate::lookup::search;
use crate::lookup::webview2_version;
use crate::lookup::Lookup;
use crate::lookup::LookupView;
use crate::lookup::Search;
use crate::lookup::SearchView;
use crate::manifest::manifest_entries;
use crate::manifest::parse_manifest;
use crate::platform::platform_of;
use crate::platform::Platform;
use crate::text::same_text;
use crate::version::Version;

verus! {

/// How the archive's address is found.
#[derive(Clone, Copy, Debug, PartialEq, Eq, Structural)]
pub enum Strategy {
    /// The address follows from the version and the platform.
    Direct,
    /// The address is looked up in the host's listing, which covers 64-bit Windows
    /// only.
    Manifest,
}

/// A run that is looking for the installed version.
#[derive(Debug, PartialEq, Eq)]
pub struct Searching {
    pub os: String,
    pub arch: String,
    pub strategy: Strategy,
    /// What the lookups made so far gave, in the order in which they were made.
    pub outcomes: Vec<Lookup>,
}

/// A [`Searching`] with its texts as sequences of characters.
pub struct SearchingView {
    pub os: Seq<char>,
    pub arch: Seq<char>,
    pub strategy: Strategy,
    pub outcomes: Seq<LookupView>,
}

impl View for Searching {
    type V = SearchingView;

    open spec fn view(&self) -> SearchingView {
        SearchingView {
            os: self.os@,
            arch: self.arch@,
            strategy: self.strategy,
            outcomes: outcome_views(self.outcomes@),
        }
    }
}

/// A run that waits for the listing of archives.
#[derive(Debug, PartialEq, Eq)]
pub struct Listing {
    /// The installed version.
    pub version: Version,
}

/// A run that waits for the archive.
#[derive(Debug, PartialEq, Eq)]
pub struct Downloading {
    /// The name of the driver inside the archive.
    pub member: String,
}

/// The driver, ready to be written to the working directory; a file of that name
/// is replaced.
#[derive(Debug, PartialEq, Eq)]
pub struct DriverFile {
    pub name: String,
    pub bytes: Vec<u8>,
}

/// A [`DriverFile`] with its contents as sequences.
pub struct DriverFileView {
    pub name: Seq<char>,
    pub bytes: Seq<u8>,
}

impl View for DriverFile {
    type V = DriverFileView;

    open spec fn view(&self) -> DriverFileView {
        DriverFileView { name: self.name@, bytes: self.bytes@ }
    }
}

/// What follows a lookup.
#[derive(Debug, PartialEq, Eq)]
pub enum SearchStep {
    /// Ask this location, and hand the outcome to [`Searching::looked`].
    Ask(Searching, Webview2Install),
    /// Send this request for the listing, and hand the response to
    /// [`Listing::answered`].
    List(Listing, Request),
    /// Send this request for the archive, and hand the response to
    /// [`Downloading::answered`].
    Download(Downloading, Request),
    /// The run is over.
    Stop(Error),
}

/// A [`SearchStep`] with its texts as sequences of characters.
pub enum SearchStepView {
    Ask(SearchingView, Webview2Install),
    List(Seq<char>, RequestView),
    Download(Seq<char>, RequestView),
    Stop(ErrorView),
}

impl View for SearchStep {
    type V = SearchStepView;

    open spec fn view(&self) -> SearchStepView {
        match self {
            SearchStep::Ask(run, install) => SearchStepView::Ask(run@, *install),
            SearchStep::List(run, request) => SearchStepView::List(run.version@, request@),
            SearchStep::Download(run, request) => SearchStepView::Download(
                run.member@,
                request@,
            ),
            SearchStep::Stop(error) => SearchStepView::Stop(error@),
        }
    }
}

/// What follows the listing.
#[derive(Debug, PartialEq, Eq)]
pub enum ListStep {
    /// Send this request for the archive, and hand the response to
    /// [`Downloading::answered`].
    Download(Downloading, Request),
    /// The run is over.
    Stop(Error),
}

/// A [`ListStep`] with its texts as sequences of characters.
pub enum ListStepView {
    Download(Seq<char>, RequestView),
    Stop(ErrorView),
}

impl View for ListStep {
    type V = ListStepView;

    open spec fn view(&self) -> ListStepView {
        match self {
            ListStep::Download(run, request) => ListStepView::Download(run.member@, request@),
            ListStep::Stop(error) => ListStepView::Stop(error@),
        }
    }
}

/// What follows the archive.
#[derive(Debug, PartialEq, Eq)]
pub enum DownloadStep {
    /// Write this file, and hand the outcome to [`written`].
    Write(DriverFile),
    /// The run is over, and no file is written.
    Stop(Error),
}

/// A [`DownloadStep`] with its contents as sequences.
pub enum DownloadStepView {
    Write(DriverFileView),
    Stop(ErrorView),
}

impl View for DownloadStep {
    type V = DownloadStepView;

    open spec fn view(&self) -> DownloadStepView {
        match self {
            DownloadStep::Write(file) => DownloadStepView::Write(file@),
            DownloadStep::Stop(error) => DownloadStepView::Stop(error@),
        }
    }
}

/// Why a machine that does not run Windows has no installed version to find.
pub open spec fn host_cause() -> Seq<char> {
    user_agent_text() + " currently only supports finding webview2 installs on Windows"@
}

/// The first step of a run on operating system `os`.
pub open spec fn first_step(os: Seq<char>, arch: Seq<char>, strategy: Strategy) -> SearchStepView {
    if os == "windows"@ {
        SearchStepView::Ask(
            SearchingView { os, arch, strategy, outcomes: Seq::empty() },
            preference()[0],
        )
    } else {
        SearchStepView::Stop(ErrorView::LookupFailed(host_cause()))
    }
}

/// The step that follows once `version` is known to be installed.
pub open spec fn step_with_version(
    os: Seq<char>,
    arch: Seq<char>,
    strategy: Strategy,
    version: Seq<char>,
) -> SearchStepView {
    match platform_of(os, arch) {
        None => SearchStepView::Stop(ErrorView::UnsupportedPlatform { os, arch }),
        Some(platform) => match strategy {
            Strategy::Direct => SearchStepView::Download(
                target_of(version, platform).member,
                request_of(target_of(version, platform).url),
            ),
            Strategy::Manifest => if platform == Platform::Win64 {
                SearchStepView::List(version, request_of(manifest_url_text()))
            } else {
                SearchStepView::Stop(ErrorView::UnsupportedPlatform { os, arch })
            },
        },
    }
}

/// The step that follows when a lookup gave `outcome`.
pub open spec fn search_step(run: SearchingView, outcome: LookupView) -> SearchStepView {
    let outcomes = run.outcomes.push(outcome);
    match search(outcomes) {
        SearchView::Ask(install) => SearchStepView::Ask(
            SearchingView { outcomes, ..run },
            install,
        ),
        SearchView::Found(version) => step_with_version(run.os, run.arch, run.strategy, version),
        SearchView::Failed(error) => SearchStepView::Stop(error),
    }
}

/// The step that follows when the request for the listing ended in `response`.
pub open spec fn list_step(version: Seq<char>, response: ResponseView) -> ListStepView {
    match delivered(response) {
        Err(error) => ListStepView::Stop(error),
        Ok(document) => match manifest_entries(document) {
            None => ListStepView::Stop(ErrorView::ManifestParseError),
            Some(entries) => match manifest_target(entries, version) {
                Err(error) => ListStepView::Stop(error),
                Ok(target) => ListStepView::Download(target.member, request_of(target.url)),
            },
        },
    }
}

/// The step that follows when the archive was read with outcome `read`.
pub open spec fn unpack_step(member: Seq<char>, read: Result<Seq<u8>, ZipFailure>) -> DownloadStepView {
    match extracted(read) {
        Ok(bytes) => DownloadStepView::Write(DriverFileView { name: member, bytes }),
        Err(error) => DownloadStepView::Stop(error),
    }
}

/// The step that follows when the request for the archive ended in `response`.
pub open spec fn download_step(member: Seq<char>, response: ResponseView) -> DownloadStepView {
    match delivered(response) {
        Err(error) => DownloadStepView::Stop(error),
        Ok(archive) => unpack_step(member, zip_member(archive, member)),
    }
}

/// Starts a run. `os` and `arch` name the operating system and the architecture of
/// the running process as `std::env::consts` names them. Installed versions are
/// found on Windows only: elsewhere the run is over at once, with a lookup failure.
pub fn begin(os: &str, arch: &str, strategy: Strategy) -> (step: SearchStep)
    ensures
        step@ == first_step(os@, arch@, strategy),
{
    if same_text(os, "windows") {
        let run = Searching {
            os: String::from_str(os),
            arch: String::from_str(arch),
            strategy,
            outcomes: Vec::new(),
        };
        assert(outcome_views(run.outcomes@) =~= Seq::empty());
        SearchStep::Ask(run, Webview2Install::Global64)
    } else {
        let cause = user_agent().concat(
            " currently only supports finding webview2 installs on Windows",
        );
        SearchStep::Stop(Error::LookupFailed(cause))
    }
}

/// The step that follows once `version` is known to be installed: the platform is
/// worked out, and with it the address of the archive, or of the listing.
pub fn with_version(os: &str, arch: &str, strategy: Strategy, version: Version) -> (step:
    SearchStep)
    ensures
        step@ == step_with_version(os@, arch@, strategy, version@),
{
    match Platform::current(os, arch) {
        Err(error) => SearchStep::Stop(error),
        Ok(platform) => match strategy {
            Strategy::Direct => {
                let target = locate(&version, platform);
                let request = request_for(target.url.as_str());
                SearchStep::Download(Downloading { member: target.member }, request)
            },
            Strategy::Manifest => {
                if platform.is_win64() {
                    SearchStep::List(Listing { version }, request_for(manifest_url()))
                } else {
                    SearchStep::Stop(
                        Error::UnsupportedPlatform {
                            os: String::from_str(os),
                            arch: String::from_str(arch),
                        },
                    )
                }
            },
        },
    }
}

impl Searching {
    /// Takes the outcome of the lookup that was asked for. The search goes on to the
    /// next location, or ends: with a version, and then the run goes on to the
    /// download; or without one, and then the run is over.
    pub fn looked(self, outcome: Lookup) -> (step: SearchStep)
        ensures
            step@ == search_step(self@, outcome@),
    {
        let mut run = self;
        run.outcomes.push(outcome);
        assert(outcome_views(run.outcomes@) =~= self@.outcomes.push(outcome@));
        match webview2_version(&run.outcomes) {
            Search::Ask(install) => SearchStep::Ask(run, install),
            Search::Found(version) => with_version(
                run.os.as_str(),
                run.arch.as_str(),
                run.strategy,
                version,
            ),
            Search::Failed(error) => SearchStep::Stop(error),
        }
    }
}

impl Listing {
    /// Takes the response to the request for the listing, and finds the archive for
    /// the installed version in it.
    pub fn answered(self, response: Response) -> (step: ListStep)
        ensures
            step@ == list_step(self.version@, response@),
    {
        let document = match fetch(response) {
            Ok(document) => document,
            Err(error) => {
                return ListStep::Stop(error);
            },
        };
        let entries = match parse_manifest(document.as_slice()) {
            Ok(entries) => entries,
            Err(error) => {
                return ListStep::Stop(error);
            },
        };
        match locate_in_manifest(&entries, &self.version) {
            Ok(target) => {
                let request = request_for(target.url.as_str());
                ListStep::Download(Downloading { member: target.member }, request)
            },
            Err(error) => ListStep::Stop(error),
        }
    }
}

impl Downloading {
    /// Takes the response to the request for the archive, and takes the driver out
    /// of the archive. No file is to be written unless the driver was found in it.
    pub fn answered(self, response: Response) -> (step: DownloadStep)
        ensures
            step@ == download_step(self.member@, response@),
    {
        match fetch(response) {
            Err(error) => DownloadStep::Stop(error),
            Ok(archive) => {
                let read = extract(archive.as_slice(), self.member.as_str());
                self.unpacked(read)
            },
        }
    }

    /// Takes what was read out of the archive: the driver is to be written under
    /// its name in the archive, and a failure ends the run.
    pub fn unpacked(self, extracted: Result<Vec<u8>, Error>) -> (step: DownloadStep)
        ensures
            step@ == match extracted {
                Ok(bytes) => DownloadStepView::Write(
                    DriverFileView { name: self.member@, bytes: bytes@ },
                ),
                Err(error) => DownloadStepView::Stop(error@),
            },
    {
        match extracted {
            Ok(bytes) => DownloadStep::Write(DriverFile { name: self.member, bytes }),
            Err(error) => DownloadStep::Stop(error),
        }
    }
}

/// Ends the run once the file was written, or could not be: a failure to create or
/// to write it fails the run with `IoError` and its cause.
pub fn written(outcome: Result<(), String>) -> (end: Result<(), Error>)
    ensures
        match outcome {
            Ok(()) => end.is_ok(),
            Err(cause) => end matches Err(error) && error@ == ErrorView::IoError(cause@),
        },
{
    match outcome {
        Ok(()) => Ok(()),
        Err(cause) => Err(Error::IoError(cause)),
    }
}

/// What is written is the member, byte for byte: a file is to be written exactly
/// when the archive was delivered and holds the member, and then it carries the
/// member's name and the member's bytes.
pub proof fn lemma_written_is_member(
    member: Seq<char>,
    response: ResponseView,
    file: DriverFileView,
)
    ensures
        download_step(member, response) == DownloadStepView::Write(file) <==> (exists|
            archive: Seq<u8>,
        |
            delivered(response) == Ok::<Seq<u8>, ErrorView>(archive) && zip_member(
                archive,
                member,
            ) == Ok::<Seq<u8>, ZipFailure>(file.bytes) && file.name == member),
{
    if download_step(member, response) == DownloadStepView::Write(file) {
        let archive = delivered(response)->Ok_0;
        assert(delivered(response) == Ok::<Seq<u8>, ErrorView>(archive) && zip_member(
            archive,
            member,
        ) == Ok::<Seq<u8>, ZipFailure>(file.bytes) && file.name == member);
    }
}

/// An archive without the member fails the run with `MemberNotFound`, and no file
/// is written.
pub proof fn lemma_missing_member_writes_nothing(
    member: Seq<char>,
    response: ResponseView,
    archive: Seq<u8>,
)
    requires
        delivered(response) == Ok::<Seq<u8>, ErrorView>(archive),
        zip_member(archive, member) == Err::<Seq<u8>, ZipFailure>(ZipFailure::NotFound),
    ensures
        download_step(member, response) == DownloadStepView::Stop(ErrorView::MemberNotFound),
        !(download_step(member, response) is Write),
{
}

} // verus!
