//! The ways a run can fail, and the sentence shown for each.

use vstd::prelude::*;
use vstd::string::StringExecFns;

verus! {

/// Why a run stopped.
#[derive(Debug, PartialEq, Eq)]
pub enum Error {
    /// The command that asks for the installed version could not be run at all.
    LookupFailed(String),
    /// Every install location was asked and none holds a version.
    NoInstallFound,
    /// Microsoft ships no driver for this operating system and architecture.
    UnsupportedPlatform { os: String, arch: String },
    /// The request failed in transport, or the host answered with an error status.
    NetworkError(String),
    /// The response body is longer than the ceiling allows.
    BodyTooLarge,
    /// The listing document does not have the expected shape.
    ManifestParseError,
    /// The listing names no archive for the requested version.
    NoMatchingEntry,
    /// The downloaded bytes are not a readable zip archive.
    CorruptArchive,
    /// The archive holds no member of the requested name.
    MemberNotFound,
    /// The driver could not be written to disk.
    IoError(String),
}

/// An [`Error`] with its texts as sequences of characters.
pub enum ErrorView {
    LookupFailed(Seq<char>),
    NoInstallFound,
    UnsupportedPlatform { os: Seq<char>, arch: Seq<char> },
    NetworkError(Seq<char>),
    BodyTooLarge,
    ManifestParseError,
    NoMatchingEntry,
    CorruptArchive,
    MemberNotFound,
    IoError(Seq<char>),
}

impl View for Error {
    type V = ErrorView;

    open spec fn view(&self) -> ErrorView {
        match self {
            Error::LookupFailed(cause) => ErrorView::LookupFailed(cause@),
            Error::NoInstallFound => ErrorView::NoInstallFound,
            Error::UnsupportedPlatform { os, arch } => ErrorView::UnsupportedPlatform {
                os: os@,
                arch: arch@,
            },
            Error::NetworkError(cause) => ErrorView::NetworkError(cause@),
            Error::BodyTooLarge => ErrorView::BodyTooLarge,
            Error::ManifestParseError => ErrorView::ManifestParseError,
            Error::NoMatchingEntry => ErrorView::NoMatchingEntry,
            Error::CorruptArchive => ErrorView::CorruptArchive,
            Error::MemberNotFound => ErrorView::MemberNotFound,
            Error::IoError(cause) => ErrorView::IoError(cause@),
        }
    }
}

impl ErrorView {
    /// The sentence that describes this failure.
    pub open spec fn message(self) -> Seq<char> {
        match self {
            ErrorView::LookupFailed(cause) => "unable to run command to find WebView2 version: "@
                + cause,
            ErrorView::NoInstallFound => "no WebView2 installation found"@,
            ErrorView::UnsupportedPlatform { os, arch } => os + "("@ + arch
                + ") platform not supported by msedgedriver"@,
            ErrorView::NetworkError(cause) => "http request failed: "@ + cause,
            ErrorView::BodyTooLarge => "http response body exceeds 100 MiB"@,
            ErrorView::ManifestParseError => "driver listing could not be read"@,
            ErrorView::NoMatchingEntry => "driver listing has no entry for this version"@,
            ErrorView::CorruptArchive => "unzipping archive failed: not a readable zip archive"@,
            ErrorView::MemberNotFound => "unzipping archive failed: driver not found in archive"@,
            ErrorView::IoError(cause) => "I/O error: "@ + cause,
        }
    }
}

impl Error {
    /// The sentence that describes this failure, for the error stream.
    pub fn message(&self) -> (text: String)
        ensures
            text@ == self@.message(),
    {
        match self {
            Error::LookupFailed(cause) => {
                String::from_str("unable to run command to find WebView2 version: ").concat(
                    cause.as_str(),
                )
            },
            Error::NoInstallFound => String::from_str("no WebView2 installation found"),
            Error::UnsupportedPlatform { os, arch } => {
                let mut text = os.clone();
                text.append("(");
                text.append(arch.as_str());
                text.append(") platform not supported by msedgedriver");
                text
            },
            Error::NetworkError(cause) => String::from_str("http request failed: ").concat(
                cause.as_str(),
            ),
            Error::BodyTooLarge => String::from_str("http response body exceeds 100 MiB"),
            Error::ManifestParseError => String::from_str("driver listing could not be read"),
            Error::NoMatchingEntry => String::from_str(
                "driver listing has no entry for this version",
            ),
            Error::CorruptArchive => String::from_str(
                "unzipping archive failed: not a readable zip archive",
            ),
            Error::MemberNotFound => String::from_str(
                "unzipping archive failed: driver not found in archive",
            ),
            Error::IoError(cause) => String::from_str("I/O error: ").concat(cause.as_str()),
        }
    }
}

} // verus!
