//! Reading the listing that a host publishes of its driver archives.
//!
//! The listing is a document of elements written `<Tag>` ... `</Tag>`. The archives
//! are the `<Blob>` elements inside the first `<Blobs>` element, and each of them
//! names itself in a `<Name>` element and gives its address in a `<Url>` element.
//! What else a `<Blob>` holds, and what stands around `<Blobs>`, is passed over.
//! The text of a name or an address is taken as it stands between its tags:
//! character references such as `&amp;` are not resolved.

use vstd::prelude::*;
use vstd::slice::slice_subrange;
use vstd::string::StringSliceAdditionalSpecFns;
use vstd::utf8::decode_utf8;
use vstd::utf8::encode_utf8;
use vstd::utf8::is_ascii_chars_encode_utf8;
use vstd::utf8::valid_utf8;

use crate::error::Error;
use crate::error::ErrorView;
use crate::locator::entry_views;
use crate::locator::EntryView;
use crate::locator::ManifestEntry;
use crate::scan::find;
use crate::scan::find_from;
use crate::scan::lemma_find_from;

verus! {

/// The text that `str::from_utf8` reads out of `bytes`, as an owned string: the
/// characters that the bytes encode, where they are well-formed UTF-8, and nothing
/// where they are not.
#[verifier::external_body]
fn utf8_text(bytes: &[u8]) -> (text: Option<String>)
    ensures
        text is Some <==> valid_utf8(bytes@),
        text matches Some(t) ==> t@ == decode_utf8(bytes@),
{
    match std::str::from_utf8(bytes) {
        Ok(text) => Some(text.to_owned()),
        Err(_) => None,
    }
}

/// The bytes of `<Blobs>`, which opens the element that holds the archives.
pub open spec fn blobs_open() -> Seq<u8> {
    encode_utf8("<Blobs>"@)
}

/// The bytes of `</Blobs>`.
pub open spec fn blobs_close() -> Seq<u8> {
    encode_utf8("</Blobs>"@)
}

/// The bytes of `<Blobs />`, the element that holds no archive.
pub open spec fn blobs_empty() -> Seq<u8> {
    encode_utf8("<Blobs />"@)
}

/// The bytes of `<Blob>`, which opens one archive's element.
pub open spec fn blob_open() -> Seq<u8> {
    encode_utf8("<Blob>"@)
}

/// The bytes of `</Blob>`.
pub open spec fn blob_close() -> Seq<u8> {
    encode_utf8("</Blob>"@)
}

/// The bytes of `<Name>`.
pub open spec fn name_open() -> Seq<u8> {
    encode_utf8("<Name>"@)
}

/// The bytes of `</Name>`.
pub open spec fn name_close() -> Seq<u8> {
    encode_utf8("</Name>"@)
}

/// The bytes of `<Url>`.
pub open spec fn url_open() -> Seq<u8> {
    encode_utf8("<Url>"@)
}

/// The bytes of `</Url>`.
pub open spec fn url_close() -> Seq<u8> {
    encode_utf8("</Url>"@)
}

/// Where the content of the first element from `from` on starts and ends: after
/// the first `open`, and before the first `close` that follows it.
pub open spec fn element_in(doc: Seq<u8>, open: Seq<u8>, close: Seq<u8>, from: int) -> Option<
    (int, int),
> {
    match find_from(doc, open, from) {
        Some(at) => match find_from(doc, close, at + open.len()) {
            Some(end) => Some((at + open.len(), end)),
            None => None,
        },
        None => None,
    }
}

/// The text that `bytes` encode, where they are well-formed UTF-8.
pub open spec fn text_in(bytes: Seq<u8>) -> Option<Seq<char>> {
    if valid_utf8(bytes) {
        Some(decode_utf8(bytes))
    } else {
        None
    }
}

/// The text of the first element in `doc`, where it has one and the text is
/// well-formed.
pub open spec fn element_text(doc: Seq<u8>, open: Seq<u8>, close: Seq<u8>) -> Option<Seq<char>> {
    match element_in(doc, open, close, 0) {
        Some((start, end)) => text_in(doc.subrange(start, end)),
        None => None,
    }
}

/// The entry that the content of a `<Blob>` element describes: its first name and
/// its first address.
pub open spec fn entry_in(blob: Seq<u8>) -> Option<EntryView> {
    match (
        element_text(blob, name_open(), name_close()),
        element_text(blob, url_open(), url_close()),
    ) {
        (Some(name), Some(url)) => Some(EntryView { name, url }),
        _ => None,
    }
}

/// The entries that the `<Blob>` elements of `blobs` describe from position `from`
/// on, in the order of the document; nothing where one of them is not closed or
/// describes no entry.
pub open spec fn entries_from(blobs: Seq<u8>, from: int) -> Option<Seq<EntryView>>
    decreases blobs.len() - from,
    via entries_from_decreases
{
    match find_from(blobs, blob_open(), from) {
        None => Some(Seq::empty()),
        Some(at) => match find_from(blobs, blob_close(), at + blob_open().len()) {
            None => None,
            Some(end) => match (
                entry_in(blobs.subrange(at + blob_open().len(), end)),
                entries_from(blobs, end + blob_close().len()),
            ) {
                (Some(entry), Some(rest)) => Some(seq![entry] + rest),
                _ => None,
            },
        },
    }
}

#[via_fn]
proof fn entries_from_decreases(blobs: Seq<u8>, from: int) {
    lemma_tag_lengths();
    match find_from(blobs, blob_open(), from) {
        None => {},
        Some(at) => {
            if from >= 0 {
                lemma_find_from(blobs, blob_open(), from);
            }
            match find_from(blobs, blob_close(), at + blob_open().len()) {
                None => {},
                Some(end) => {
                    if at + blob_open().len() >= 0 {
                        lemma_find_from(blobs, blob_close(), at + blob_open().len());
                    }
                },
            }
        },
    }
}

/// The entries of a listing: those of its first `<Blobs>` element, none where it
/// is written `<Blobs />`, and nothing where the document has neither or an
/// archive in it is not described in full.
pub open spec fn manifest_entries(doc: Seq<u8>) -> Option<Seq<EntryView>> {
    match element_in(doc, blobs_open(), blobs_close(), 0) {
        Some((start, end)) => entries_from(doc.subrange(start, end), 0),
        None => if find_from(doc, blobs_empty(), 0).is_some() {
            Some(Seq::empty())
        } else {
            None
        },
    }
}

/// How many bytes each tag takes.
pub proof fn lemma_tag_lengths()
    ensures
        blobs_open().len() == 7,
        blobs_close().len() == 8,
        blobs_empty().len() == 9,
        blob_open().len() == 6,
        blob_close().len() == 7,
        name_open().len() == 6,
        name_close().len() == 7,
        url_open().len() == 5,
        url_close().len() == 6,
{
    reveal_strlit("<Blobs>");
    reveal_strlit("</Blobs>");
    reveal_strlit("<Blobs />");
    reveal_strlit("<Blob>");
    reveal_strlit("</Blob>");
    reveal_strlit("<Name>");
    reveal_strlit("</Name>");
    reveal_strlit("<Url>");
    reveal_strlit("</Url>");
    is_ascii_chars_encode_utf8("<Blobs>"@);
    is_ascii_chars_encode_utf8("</Blobs>"@);
    is_ascii_chars_encode_utf8("<Blobs />"@);
    is_ascii_chars_encode_utf8("<Blob>"@);
    is_ascii_chars_encode_utf8("</Blob>"@);
    is_ascii_chars_encode_utf8("<Name>"@);
    is_ascii_chars_encode_utf8("</Name>"@);
    is_ascii_chars_encode_utf8("<Url>"@);
    is_ascii_chars_encode_utf8("</Url>"@);
}

/// A pair of positions as numbers of the mathematical kind.
pub open spec fn span_view(span: Option<(usize, usize)>) -> Option<(int, int)> {
    match span {
        Some((start, end)) => Some((start as int, end as int)),
        None => None,
    }
}

/// Where the content of the first element from `from` on starts and ends.
pub fn element(doc: &[u8], open: &str, close: &str, from: usize) -> (span: Option<(usize, usize)>)
    ensures
        span_view(span) == element_in(doc@, open.spec_bytes(), close.spec_bytes(), from as int),
        span matches Some((start, end)) ==> from <= start <= end && end + close.spec_bytes().len()
            <= doc.len(),
{
    match find(doc, open.as_bytes(), from) {
        Some(at) => {
            let start = at + open.as_bytes().len();
            match find(doc, close.as_bytes(), start) {
                Some(end) => Some((start, end)),
                None => None,
            }
        },
        None => None,
    }
}

/// The view of a text that may be absent.
pub open spec fn text_view(text: Option<String>) -> Option<Seq<char>> {
    match text {
        Some(t) => Some(t@),
        None => None,
    }
}

/// The text of the first element in `doc`.
pub fn text_of_element(doc: &[u8], open: &str, close: &str) -> (text: Option<String>)
    ensures
        text_view(text) == element_text(doc@, open.spec_bytes(), close.spec_bytes()),
{
    match element(doc, open, close, 0) {
        Some((start, end)) => utf8_text(slice_subrange(doc, start, end)),
        None => None,
    }
}

/// The view of an entry that may be absent.
pub open spec fn entry_view(entry: Option<ManifestEntry>) -> Option<EntryView> {
    match entry {
        Some(e) => Some(e@),
        None => None,
    }
}

/// The entry that the content of a `<Blob>` element describes.
pub fn entry(blob: &[u8]) -> (entry: Option<ManifestEntry>)
    ensures
        entry_view(entry) == entry_in(blob@),
{
    let name = text_of_element(blob, "<Name>", "</Name>");
    let url = text_of_element(blob, "<Url>", "</Url>");
    match (name, url) {
        (Some(name), Some(url)) => Some(ManifestEntry { name, url }),
        _ => None,
    }
}

/// The entries that the `<Blob>` elements of `blobs` describe, in the order of the
/// document.
pub fn entries(blobs: &[u8]) -> (found: Option<Vec<ManifestEntry>>)
    ensures
        match entries_from(blobs@, 0) {
            Some(views) => found matches Some(list) && entry_views(list@) == views,
            None => found.is_none(),
        },
{
    let mut list: Vec<ManifestEntry> = Vec::new();
    let mut from: usize = 0;
    proof {
        lemma_tag_lengths();
        assert(entry_views(list@) =~= Seq::empty());
    }
    loop
        invariant
            from <= blobs.len(),
            blob_open().len() == 6,
            blob_close().len() == 7,
            entries_from(blobs@, 0) == match entries_from(blobs@, from as int) {
                Some(rest) => Some(entry_views(list@) + rest),
                None => None,
            },
        decreases blobs.len() - from,
    {
        match element(blobs, "<Blob>", "</Blob>", from) {
            None => {
                if find(blobs, "<Blob>".as_bytes(), from).is_none() {
                    assert(entry_views(list@) + Seq::empty() =~= entry_views(list@));
                    return Some(list);
                } else {
                    return None;
                }
            },
            Some((start, end)) => {
                match entry(slice_subrange(blobs, start, end)) {
                    None => {
                        return None;
                    },
                    Some(e) => {
                        let ghost before = entry_views(list@);
                        list.push(e);
                        from = end + "</Blob>".as_bytes().len();
                        proof {
                            assert(entry_views(list@) =~= before + seq![e@]);
                            match entries_from(blobs@, from as int) {
                                Some(rest) => {
                                    assert(before + (seq![e@] + rest) =~= entry_views(list@)
                                        + rest);
                                },
                                None => {},
                            }
                        }
                    },
                }
            },
        }
    }
}

/// Reads a listing. The entries come in the order of the document. Fails with
/// `ManifestParseError` where the document has no `<Blobs>` element, or where one
/// of its `<Blob>` elements is not closed, lacks a name or an address, or holds
/// one that is not well-formed UTF-8.
pub fn parse_manifest(document: &[u8]) -> (parsed: Result<Vec<ManifestEntry>, Error>)
    ensures
        match manifest_entries(document@) {
            Some(views) => parsed matches Ok(list) && entry_views(list@) == views,
            None => parsed matches Err(error) && error@ == ErrorView::ManifestParseError,
        },
{
    let found = match element(document, "<Blobs>", "</Blobs>", 0) {
        Some((start, end)) => entries(slice_subrange(document, start, end)),
        None => {
            if find(document, "<Blobs />".as_bytes(), 0).is_some() {
                let list: Vec<ManifestEntry> = Vec::new();
                assert(entry_views(list@) =~= Seq::empty());
                Some(list)
            } else {
                None
            }
        },
    };
    match found {
        Some(list) => Ok(list),
        None => Err(Error::ManifestParseError),
    }
}

} // verus!
