//! Taking the driver out of the downloaded archive.

use std::io::Cursor;
use std::io::Read;

use vstd::prelude::*;
use zip::result::ZipError;
use zip::ZipArchive;

use crate::error::Error;
use crate::error::ErrorView;

verus! {

/// Why an archive gave no bytes for a name.
#[derive(Clone, Copy, Debug, PartialEq, Eq, Structural)]
pub enum ZipFailure {
    /// The archive was read, and holds no member of that name.
    NotFound,
    /// The bytes are no zip archive, or the member could not be read from it.
    Unreadable,
}

/// What reading the member called `name` from the zip archive `archive` gives.
pub uninterp spec fn zip_member(archive: Seq<u8>, name: Seq<char>) -> Result<Seq<u8>, ZipFailure>;

/// The view of a member's bytes or of the failure in their place.
pub open spec fn member_view(read: Result<Vec<u8>, ZipFailure>) -> Result<Seq<u8>, ZipFailure> {
    match read {
        Ok(bytes) => Ok(bytes@),
        Err(failure) => Err(failure),
    }
}

/// Opens `archive` with `zip::ZipArchive::new`, finds the member with `by_name`
/// and reads it to its end. What comes back depends on the bytes and the name
/// alone. Of the errors only `ZipError::FileNotFound`, which `by_name` gives for a
/// name that the archive does not hold, is told from the others.
#[verifier::external_body]
fn read_member(archive: &[u8], name: &str) -> (read: Result<Vec<u8>, ZipFailure>)
    ensures
        member_view(read) == zip_member(archive@, name@),
{
    let mut bytes = Vec::new();
    let read = match ZipArchive::new(Cursor::new(archive)) {
        Ok(mut zip) => match zip.by_name(name) {
            Ok(mut member) => member.read_to_end(&mut bytes).map_err(ZipError::Io),
            Err(error) => Err(error),
        },
        Err(error) => Err(error),
    };
    match read {
        Ok(_) => Ok(bytes),
        Err(ZipError::FileNotFound) => Err(ZipFailure::NotFound),
        Err(_) => Err(ZipFailure::Unreadable),
    }
}

/// The member's bytes, or the error that stands for the failure.
pub open spec fn extracted(read: Result<Seq<u8>, ZipFailure>) -> Result<Seq<u8>, ErrorView> {
    match read {
        Ok(bytes) => Ok(bytes),
        Err(ZipFailure::NotFound) => Err(ErrorView::MemberNotFound),
        Err(ZipFailure::Unreadable) => Err(ErrorView::CorruptArchive),
    }
}

/// The view of extracted bytes or of the error in their place.
pub open spec fn extract_view(done: Result<Vec<u8>, Error>) -> Result<Seq<u8>, ErrorView> {
    match done {
        Ok(bytes) => Ok(bytes@),
        Err(error) => Err(error@),
    }
}

/// What a read from an archive means for the run: the member's bytes as they are,
/// `MemberNotFound` where the archive does not hold the name, `CorruptArchive`
/// where it could not be read.
pub fn member_or_error(read: Result<Vec<u8>, ZipFailure>) -> (done: Result<Vec<u8>, Error>)
    ensures
        extract_view(done) == extracted(member_view(read)),
{
    match read {
        Ok(bytes) => Ok(bytes),
        Err(ZipFailure::NotFound) => Err(Error::MemberNotFound),
        Err(ZipFailure::Unreadable) => Err(Error::CorruptArchive),
    }
}

/// The uncompressed bytes of the member called exactly `filename` in the zip
/// archive `archive`. Fails with `CorruptArchive` where the bytes are no readable
/// archive, and with `MemberNotFound` where the archive holds no such member.
pub fn extract(archive: &[u8], filename: &str) -> (done: Result<Vec<u8>, Error>)
    ensures
        extract_view(done) == extracted(zip_member(archive@, filename@)),
{
    member_or_error(read_member(archive, filename))
}

} // verus!
