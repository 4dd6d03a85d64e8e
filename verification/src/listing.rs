//! What a listing looks like when it is written out, and the proof that the reader
//! gets back what was written.

use vstd::prelude::*;
use vstd::utf8::char_is_scalar;
use vstd::utf8::char_u32_cast;
use vstd::utf8::encode_scalar;
use vstd::utf8::encode_utf8;
use vstd::utf8::encode_utf8_decode_utf8;
use vstd::utf8::encode_utf8_valid_utf8;
use vstd::utf8::has_width_1_encoding;
use vstd::utf8::has_width_2_encoding;
use vstd::utf8::has_width_3_encoding;
use vstd::utf8::is_ascii_chars_encode_utf8;

use crate::locator::EntryView;
use crate::manifest::blob_close;
use crate::manifest::blob_open;
use crate::manifest::blobs_close;
use crate::manifest::blobs_open;
use crate::manifest::name_close;
use crate::manifest::name_open;
use crate::manifest::url_close;
use crate::manifest::url_open;
use crate::manifest::element_in;
use crate::manifest::element_text;
use crate::manifest::entries_from;
use crate::manifest::entry_in;
use crate::manifest::manifest_entries;
use crate::scan::find_from;
use crate::scan::lemma_find_from_is;
use crate::scan::occurs_at;

verus! {

/// Whether `text` can stand between two tags: it holds no `<`.
pub open spec fn plain(text: Seq<char>) -> bool {
    forall|i: int| 0 <= i < text.len() ==> text[i] != '<'
}

/// Whether `bytes` hold no `<`.
pub open spec fn no_tag_start(bytes: Seq<u8>) -> bool {
    forall|i: int| 0 <= i < bytes.len() ==> bytes[i] != 0x3C
}

/// Whether `tag` starts with `<` and holds no other.
pub open spec fn is_tag(tag: Seq<u8>) -> bool {
    &&& tag.len() > 0
    &&& tag[0] == 0x3C
    &&& forall|i: int| 1 <= i < tag.len() ==> tag[i] != 0x3C
}

/// The bytes of each tag.
pub proof fn lemma_tag_bytes()
    ensures
        blobs_open() =~= seq![0x3Cu8, 0x42, 0x6C, 0x6F, 0x62, 0x73, 0x3E],
        blobs_close() =~= seq![0x3Cu8, 0x2F, 0x42, 0x6C, 0x6F, 0x62, 0x73, 0x3E],
        blob_open() =~= seq![0x3Cu8, 0x42, 0x6C, 0x6F, 0x62, 0x3E],
        blob_close() =~= seq![0x3Cu8, 0x2F, 0x42, 0x6C, 0x6F, 0x62, 0x3E],
        name_open() =~= seq![0x3Cu8, 0x4E, 0x61, 0x6D, 0x65, 0x3E],
        name_close() =~= seq![0x3Cu8, 0x2F, 0x4E, 0x61, 0x6D, 0x65, 0x3E],
        url_open() =~= seq![0x3Cu8, 0x55, 0x72, 0x6C, 0x3E],
        url_close() =~= seq![0x3Cu8, 0x2F, 0x55, 0x72, 0x6C, 0x3E],
        is_tag(blobs_open()),
        is_tag(blobs_close()),
        is_tag(blob_open()),
        is_tag(blob_close()),
        is_tag(name_open()),
        is_tag(name_close()),
        is_tag(url_open()),
        is_tag(url_close()),
{
    reveal_strlit("<Blobs>");
    reveal_strlit("</Blobs>");
    reveal_strlit("<Blob>");
    reveal_strlit("</Blob>");
    reveal_strlit("<Name>");
    reveal_strlit("</Name>");
    reveal_strlit("<Url>");
    reveal_strlit("</Url>");
    is_ascii_chars_encode_utf8("<Blobs>"@);
    is_ascii_chars_encode_utf8("</Blobs>"@);
    is_ascii_chars_encode_utf8("<Blob>"@);
    is_ascii_chars_encode_utf8("</Blob>"@);
    is_ascii_chars_encode_utf8("<Name>"@);
    is_ascii_chars_encode_utf8("</Name>"@);
    is_ascii_chars_encode_utf8("<Url>"@);
    is_ascii_chars_encode_utf8("</Url>"@);
}

proof fn lemma_scalar_bits(s: u32)
    by (bit_vector)
    ensures
        s <= 0x7F ==> (s & 0x7F) as u8 == s,
        0xC0u8 | ((s >> 6) & 0x1F) as u8 >= 0x80u8,
        0xE0u8 | ((s >> 12) & 0x0F) as u8 >= 0x80u8,
        0xF0u8 | ((s >> 18) & 0x7) as u8 >= 0x80u8,
        0x80u8 | (s & 0x3F) as u8 >= 0x80u8,
        0x80u8 | ((s >> 6) & 0x3F) as u8 >= 0x80u8,
        0x80u8 | ((s >> 12) & 0x3F) as u8 >= 0x80u8,
{
}

/// Text without `<` is encoded without the byte of `<`.
pub proof fn lemma_plain_bytes(text: Seq<char>)
    requires
        plain(text),
    ensures
        no_tag_start(encode_utf8(text)),
    decreases text.len(),
{
    if text.len() > 0 {
        let scalar = text[0] as u32;
        let first = encode_scalar(scalar);
        let rest = text.drop_first();
        assert(no_tag_start(first)) by {
            lemma_scalar_bits(scalar);
            char_is_scalar(text[0]);
            if scalar == 0x3C {
                char_u32_cast(text[0], scalar);
                char_u32_cast('<', scalar);
            }
            assert(text[0] != '<');
            if has_width_1_encoding(scalar) {
                assert(first[0] == scalar);
            } else if has_width_2_encoding(scalar) {
                assert(first[0] >= 0x80 && first[1] >= 0x80);
            } else if has_width_3_encoding(scalar) {
                assert(first[0] >= 0x80 && first[1] >= 0x80 && first[2] >= 0x80);
            } else {
                assert(first[0] >= 0x80 && first[1] >= 0x80 && first[2] >= 0x80 && first[3]
                    >= 0x80);
            }
        }
        assert(plain(rest)) by {
            assert forall|i: int| 0 <= i < rest.len() implies rest[i] != '<' by {
                assert(rest[i] == text[i + 1]);
            }
        }
        lemma_plain_bytes(rest);
        assert forall|i: int| 0 <= i < encode_utf8(text).len() implies encode_utf8(text)[i]
            != 0x3C by {
            if i < first.len() {
                assert(encode_utf8(text)[i] == first[i]);
            } else {
                assert(encode_utf8(text)[i] == encode_utf8(rest)[i - first.len()]);
            }
        }
    }
}

/// A needle that starts with `<` stands nowhere inside a stretch without `<`.
pub proof fn lemma_text_clear(pre: Seq<u8>, text: Seq<u8>, post: Seq<u8>, needle: Seq<u8>)
    requires
        no_tag_start(text),
        needle.len() > 0,
        needle[0] == 0x3C,
    ensures
        forall|p: int|
            pre.len() <= p < pre.len() + text.len() ==> !occurs_at(
                pre + text + post,
                needle,
                p,
            ),
{
    let hay = pre + text + post;
    assert forall|p: int| pre.len() <= p < pre.len() + text.len() implies !occurs_at(
        hay,
        needle,
        p,
    ) by {
        if occurs_at(hay, needle, p) {
            assert(hay.subrange(p, p + needle.len())[0] == needle[0]);
            assert(hay[p] == text[p - pre.len()]);
        }
    }
}

/// A needle that starts with `<` and differs from a tag at position `d` stands
/// nowhere inside that tag.
pub proof fn lemma_tag_clear(
    pre: Seq<u8>,
    tag: Seq<u8>,
    post: Seq<u8>,
    needle: Seq<u8>,
    d: int,
)
    requires
        is_tag(tag),
        needle.len() > 0,
        needle[0] == 0x3C,
        0 <= d < tag.len(),
        d < needle.len(),
        tag[d] != needle[d],
    ensures
        forall|p: int|
            pre.len() <= p < pre.len() + tag.len() ==> !occurs_at(pre + tag + post, needle, p),
{
    let hay = pre + tag + post;
    assert forall|p: int| pre.len() <= p < pre.len() + tag.len() implies !occurs_at(
        hay,
        needle,
        p,
    ) by {
        if occurs_at(hay, needle, p) {
            if p == pre.len() {
                assert(hay.subrange(p, p + needle.len())[d] == needle[d]);
                assert(hay[p + d] == tag[d]);
            } else {
                assert(hay.subrange(p, p + needle.len())[0] == needle[0]);
                assert(hay[p] == tag[p - pre.len()]);
            }
        }
    }
}

/// The content of a `<Blob>` element that describes `entry`: its name, then its
/// address.
pub open spec fn content_bytes(entry: EntryView) -> Seq<u8> {
    name_open() + encode_utf8(entry.name) + name_close() + url_open() + encode_utf8(entry.url)
        + url_close()
}

/// The `<Blob>` element that describes `entry`.
pub open spec fn entry_bytes(entry: EntryView) -> Seq<u8> {
    blob_open() + content_bytes(entry) + blob_close()
}

/// The `<Blob>` elements that describe `entries`, one after the other.
pub open spec fn entries_bytes(entries: Seq<EntryView>) -> Seq<u8>
    decreases entries.len(),
{
    if entries.len() == 0 {
        Seq::empty()
    } else {
        entry_bytes(entries[0]) + entries_bytes(entries.drop_first())
    }
}

/// The listing of `entries`, written out: a `<Blobs>` element around theirs.
pub open spec fn listing_bytes(entries: Seq<EntryView>) -> Seq<u8> {
    blobs_open() + entries_bytes(entries) + blobs_close()
}

/// Whether every name and every address in `entries` can stand between two tags.
pub open spec fn all_plain(entries: Seq<EntryView>) -> bool {
    forall|i: int|
        0 <= i < entries.len() ==> plain((#[trigger] entries[i]).name) && plain(entries[i].url)
}

/// Whether `needle` starts with `<` and differs from each of the four tags inside
/// a `<Blob>` element at the second or the third byte.
pub open spec fn foreign_to_content(needle: Seq<u8>) -> bool {
    &&& needle.len() >= 3
    &&& needle[0] == 0x3C
    &&& needle[1] != name_open()[1]
    &&& needle[1] != url_open()[1]
    &&& (needle[1] != name_close()[1] || needle[2] != name_close()[2])
    &&& (needle[1] != url_close()[1] || needle[2] != url_close()[2])
}

/// A needle that is foreign to the content of a `<Blob>` element stands nowhere
/// inside such content.
pub proof fn lemma_content_clear(pre: Seq<u8>, entry: EntryView, post: Seq<u8>, needle: Seq<u8>)
    requires
        plain(entry.name),
        plain(entry.url),
        foreign_to_content(needle),
    ensures
        forall|p: int|
            pre.len() <= p < pre.len() + content_bytes(entry).len() ==> !occurs_at(
                pre + content_bytes(entry) + post,
                needle,
                p,
            ),
{
    lemma_tag_bytes();
    lemma_plain_bytes(entry.name);
    lemma_plain_bytes(entry.url);
    let name = encode_utf8(entry.name);
    let url = encode_utf8(entry.url);
    let hay = pre + content_bytes(entry) + post;
    let d_name: int = if needle[1] != name_close()[1] {
        1
    } else {
        2
    };
    let d_url: int = if needle[1] != url_close()[1] {
        1
    } else {
        2
    };
    let pre1 = pre;
    let post1 = name + name_close() + url_open() + url + url_close() + post;
    assert(hay =~= pre1 + name_open() + post1);
    lemma_tag_clear(pre1, name_open(), post1, needle, 1);
    let pre2 = pre1 + name_open();
    let post2 = name_close() + url_open() + url + url_close() + post;
    assert(hay =~= pre2 + name + post2);
    lemma_text_clear(pre2, name, post2, needle);
    let pre3 = pre2 + name;
    let post3 = url_open() + url + url_close() + post;
    assert(hay =~= pre3 + name_close() + post3);
    lemma_tag_clear(pre3, name_close(), post3, needle, d_name);
    let pre4 = pre3 + name_close();
    let post4 = url + url_close() + post;
    assert(hay =~= pre4 + url_open() + post4);
    lemma_tag_clear(pre4, url_open(), post4, needle, 1);
    let pre5 = pre4 + url_open();
    let post5 = url_close() + post;
    assert(hay =~= pre5 + url + post5);
    lemma_text_clear(pre5, url, post5, needle);
    let pre6 = pre5 + url;
    assert(hay =~= pre6 + url_close() + post);
    lemma_tag_clear(pre6, url_close(), post, needle, d_url);
}

/// The content written for an entry is read back as that entry.
#[verifier::rlimit(40)]
pub proof fn lemma_content_reads_back(entry: EntryView)
    requires
        plain(entry.name),
        plain(entry.url),
    ensures
        entry_in(content_bytes(entry)) == Some(entry),
{
    lemma_tag_bytes();
    lemma_plain_bytes(entry.name);
    lemma_plain_bytes(entry.url);
    encode_utf8_valid_utf8(entry.name);
    encode_utf8_valid_utf8(entry.url);
    encode_utf8_decode_utf8(entry.name);
    encode_utf8_decode_utf8(entry.url);
    let name = encode_utf8(entry.name);
    let url = encode_utf8(entry.url);
    let hay = content_bytes(entry);
    let empty = Seq::<u8>::empty();
    let name_start = name_open().len() as int;
    let name_end = name_start + name.len();
    let url_at = name_end + name_close().len();
    let url_start = url_at + url_open().len();
    let url_end = url_start + url.len();

    assert(element_text(hay, name_open(), name_close()) == Some(entry.name)) by {
        assert(hay.subrange(0, name_start) =~= name_open());
        assert(find_from(hay, name_open(), 0) == Some(0int));
        let post = name_close() + url_open() + url + url_close();
        assert(hay =~= name_open() + name + post);
        lemma_text_clear(name_open(), name, post, name_close());
        assert(hay.subrange(name_end, name_end + name_close().len()) =~= name_close());
        lemma_find_from_is(hay, name_close(), name_start, name_end);
        assert(hay.subrange(name_start, name_end) =~= name);
    }
    assert(element_text(hay, url_open(), url_close()) == Some(entry.url)) by {
        let post1 = name + name_close() + url_open() + url + url_close();
        assert(hay =~= empty + name_open() + post1);
        lemma_tag_clear(empty, name_open(), post1, url_open(), 1);
        let post2 = name_close() + url_open() + url + url_close();
        assert(hay =~= name_open() + name + post2);
        lemma_text_clear(name_open(), name, post2, url_open());
        let pre3 = name_open() + name;
        let post3 = url_open() + url + url_close();
        assert(hay =~= pre3 + name_close() + post3);
        lemma_tag_clear(pre3, name_close(), post3, url_open(), 1);
        assert(hay.subrange(url_at, url_start) =~= url_open());
        lemma_find_from_is(hay, url_open(), 0, url_at);
        let pre4 = pre3 + name_close() + url_open();
        assert(hay =~= pre4 + url + url_close());
        lemma_text_clear(pre4, url, url_close(), url_close());
        assert(hay.subrange(url_end, url_end + url_close().len()) =~= url_close());
        lemma_find_from_is(hay, url_close(), url_start, url_end);
        assert(hay.subrange(url_start, url_end) =~= url);
    }
}

/// The `<Blob>` elements written for entries are read back as those entries,
/// whatever stands before them.
#[verifier::rlimit(40)]
pub proof fn lemma_entries_read_back(pre: Seq<u8>, entries: Seq<EntryView>)
    requires
        all_plain(entries),
    ensures
        entries_from(pre + entries_bytes(entries), pre.len() as int) == Some(entries),
    decreases entries.len(),
{
    lemma_tag_bytes();
    let hay = pre + entries_bytes(entries);
    let from = pre.len() as int;
    if entries.len() == 0 {
        assert(hay =~= pre);
        assert(find_from(hay, blob_open(), from) == None::<int>);
        assert(entries =~= Seq::<EntryView>::empty());
    } else {
        let first = entries[0];
        let rest = entries.drop_first();
        let content = content_bytes(first);
        let rest_bytes = entries_bytes(rest);
        let start = from + blob_open().len();
        let end = start + content.len();
        let after = end + blob_close().len();
        assert(hay =~= pre + blob_open() + content + blob_close() + rest_bytes);
        assert(hay.subrange(from, start) =~= blob_open());
        assert(find_from(hay, blob_open(), from) == Some(from));
        assert(find_from(hay, blob_close(), start) == Some(end)) by {
            let post = blob_close() + rest_bytes;
            assert(hay =~= pre + blob_open() + content + post);
            lemma_content_clear(pre + blob_open(), first, post, blob_close());
            assert(hay.subrange(end, after) =~= blob_close());
            lemma_find_from_is(hay, blob_close(), start, end);
        }
        assert(hay.subrange(start, end) =~= content);
        lemma_content_reads_back(first);
        assert(all_plain(rest)) by {
            assert forall|i: int| 0 <= i < rest.len() implies plain((#[trigger] rest[i]).name)
                && plain(rest[i].url) by {
                assert(rest[i] == entries[i + 1]);
            }
        }
        let pre_rest = pre + entry_bytes(first);
        lemma_entries_read_back(pre_rest, rest);
        assert(hay =~= pre_rest + rest_bytes);
        assert(pre_rest.len() == after);
        assert(seq![first] + rest =~= entries);
    }
}

/// The closing tag of the listing stands nowhere inside the `<Blob>` elements
/// written for entries.
pub proof fn lemma_entries_clear(pre: Seq<u8>, entries: Seq<EntryView>, post: Seq<u8>)
    requires
        all_plain(entries),
    ensures
        forall|p: int|
            pre.len() <= p < pre.len() + entries_bytes(entries).len() ==> !occurs_at(
                pre + entries_bytes(entries) + post,
                blobs_close(),
                p,
            ),
    decreases entries.len(),
{
    lemma_tag_bytes();
    if entries.len() > 0 {
        let hay = pre + entries_bytes(entries) + post;
        let first = entries[0];
        let rest = entries.drop_first();
        let content = content_bytes(first);
        let rest_bytes = entries_bytes(rest);
        let post1 = content + blob_close() + rest_bytes + post;
        assert(hay =~= pre + blob_open() + post1);
        lemma_tag_clear(pre, blob_open(), post1, blobs_close(), 1);
        let pre2 = pre + blob_open();
        let post2 = blob_close() + rest_bytes + post;
        assert(hay =~= pre2 + content + post2);
        lemma_content_clear(pre2, first, post2, blobs_close());
        let pre3 = pre2 + content;
        let post3 = rest_bytes + post;
        assert(hay =~= pre3 + blob_close() + post3);
        lemma_tag_clear(pre3, blob_close(), post3, blobs_close(), 6);
        assert(all_plain(rest)) by {
            assert forall|i: int| 0 <= i < rest.len() implies plain((#[trigger] rest[i]).name)
                && plain(rest[i].url) by {
                assert(rest[i] == entries[i + 1]);
            }
        }
        let pre4 = pre3 + blob_close();
        assert(hay =~= pre4 + rest_bytes + post);
        lemma_entries_clear(pre4, rest, post);
    }
}

/// A listing that is written out is read back as it was: for entries whose names
/// and addresses hold no `<`, reading the written listing gives exactly these
/// entries, in their order. This holds whatever the document holds before and
/// after the listing, as long as no `<Blobs>` stands before it.
pub proof fn lemma_listing_reads_back(head: Seq<u8>, entries: Seq<EntryView>, tail: Seq<u8>)
    requires
        all_plain(entries),
        forall|p: int|
            0 <= p < head.len() ==> !occurs_at(
                head + listing_bytes(entries) + tail,
                blobs_open(),
                p,
            ),
    ensures
        manifest_entries(head + listing_bytes(entries) + tail) == Some(entries),
{
    lemma_tag_bytes();
    let hay = head + listing_bytes(entries) + tail;
    let inner = entries_bytes(entries);
    let at = head.len() as int;
    let start = at + blobs_open().len();
    let end = start + inner.len();
    assert(hay =~= head + blobs_open() + inner + (blobs_close() + tail));
    assert(hay.subrange(at, start) =~= blobs_open());
    lemma_find_from_is(hay, blobs_open(), 0, at);
    lemma_entries_clear(head + blobs_open(), entries, blobs_close() + tail);
    assert(hay.subrange(end, end + blobs_close().len()) =~= blobs_close());
    lemma_find_from_is(hay, blobs_close(), start, end);
    assert(element_in(hay, blobs_open(), blobs_close(), 0) == Some((start, end)));
    assert(hay.subrange(start, end) =~= inner);
    lemma_entries_read_back(Seq::<u8>::empty(), entries);
    assert(Seq::<u8>::empty() + inner =~= inner);
}

} // verus!
