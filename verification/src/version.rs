//! The version of the installed WebView2 runtime, as a lookup prints it.

use vstd::prelude::*;
use vstd::utf8::decode_utf8;
use vstd::utf8::valid_utf8;

use crate::text::lemma_trimmed;
use crate::text::trim;
use crate::text::trimmed;

verus! {

/// A WebView2 version, such as `100.0.1185.36`: text that is not empty and neither
/// starts nor ends with white space. Nothing more is asked of it.
#[derive(Debug, PartialEq, Eq)]
pub struct Version {
    text: String,
}

impl View for Version {
    type V = Seq<char>;

    closed spec fn view(&self) -> Seq<char> {
        self.text@
    }
}

/// The version that a command's output holds: the trimmed text, where the command
/// succeeded and anything is left after trimming.
pub open spec fn version_in(success: bool, output: Seq<char>) -> Option<Seq<char>> {
    if success && trimmed(output).len() > 0 {
        Some(trimmed(output))
    } else {
        None
    }
}

/// The view of a version that may be absent.
pub open spec fn version_view(version: Option<Version>) -> Option<Seq<char>> {
    match version {
        Some(v) => Some(v@),
        None => None,
    }
}

/// The text that `String::from_utf8_lossy` makes of `bytes`.
pub uninterp spec fn lossy_text(bytes: Seq<u8>) -> Seq<char>;

/// `String::from_utf8_lossy`, with the result as an owned string. The text is a
/// function of the bytes alone; for bytes that are valid UTF-8 it is the text that
/// they encode. How ill-formed bytes are replaced is not stated here.
#[verifier::external_body]
fn decode_lossy(bytes: &[u8]) -> (text: String)
    ensures
        text@ == lossy_text(bytes@),
        valid_utf8(bytes@) ==> text@ == decode_utf8(bytes@),
{
    String::from_utf8_lossy(bytes).into_owned()
}

impl Version {
    #[verifier::type_invariant]
    spec fn well_formed(self) -> bool {
        self.text@.len() > 0 && trimmed(self.text@) == self.text@
    }

    /// The version written in `text`, white space around it aside; `None` where
    /// nothing else is in `text`.
    pub fn new(text: &str) -> (version: Option<Version>)
        ensures
            version_view(version) == version_in(true, text@),
    {
        Version::from_text(true, text)
    }

    /// The version that a lookup printed, from whether the command succeeded and
    /// the text of its standard output.
    pub fn from_text(success: bool, output: &str) -> (version: Option<Version>)
        ensures
            version_view(version) == version_in(success, output@),
    {
        if !success {
            return None;
        }
        let kept = trim(output);
        if kept.as_str().is_empty() {
            None
        } else {
            proof {
                lemma_trimmed(output@);
            }
            Some(Version { text: kept })
        }
    }

    /// The version that a lookup printed, from whether the command succeeded and
    /// the bytes of its standard output. Bytes that are not UTF-8 are replaced as
    /// `String::from_utf8_lossy` replaces them.
    pub fn from_output(success: bool, stdout: &[u8]) -> (version: Option<Version>)
        ensures
            version_view(version) == version_in(success, lossy_text(stdout@)),
            valid_utf8(stdout@) ==> version_view(version) == version_in(
                success,
                decode_utf8(stdout@),
            ),
    {
        let output = decode_lossy(stdout);
        Version::from_text(success, output.as_str())
    }

    /// The version as text.
    pub fn as_str(&self) -> (text: &str)
        ensures
            text@ == self@,
            text@.len() > 0,
            trimmed(text@) == text@,
    {
        proof {
            use_type_invariant(self);
        }
        self.text.as_str()
    }
}

impl Clone for Version {
    fn clone(&self) -> (copy: Version)
        ensures
            copy@ == self@,
    {
        proof {
            use_type_invariant(self);
        }
        Version { text: self.text.clone() }
    }
}

} // verus!
