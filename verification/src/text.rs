//! Text as the other modules need it: comparing two strings, and trimming white space.

use vstd::prelude::*;
use vstd::std_specs::iter::IteratorSpec;
use vstd::string::StrSliceExecFns;
use vstd::string::StringSliceAdditionalSpecFns;
use vstd::utf8::encode_utf8_decode_utf8;

verus! {

/// True for the characters that Unicode gives the property `White_Space`.
pub open spec fn is_white_space(c: char) -> bool {
    let n = c as u32;
    ||| 0x09 <= n <= 0x0D
    ||| n == 0x20
    ||| n == 0x85
    ||| n == 0xA0
    ||| n == 0x1680
    ||| 0x2000 <= n <= 0x200A
    ||| n == 0x2028
    ||| n == 0x2029
    ||| n == 0x202F
    ||| n == 0x205F
    ||| n == 0x3000
}

/// How many characters of white space `s` starts with.
pub open spec fn leading_space(s: Seq<char>) -> nat
    decreases s.len(),
{
    if s.len() == 0 || !is_white_space(s[0]) {
        0
    } else {
        1 + leading_space(s.drop_first())
    }
}

/// How many characters of white space `s` ends with.
pub open spec fn trailing_space(s: Seq<char>) -> nat
    decreases s.len(),
{
    if s.len() == 0 || !is_white_space(s.last()) {
        0
    } else {
        1 + trailing_space(s.drop_last())
    }
}

/// `s` without the white space at its start and at its end.
pub open spec fn trimmed(s: Seq<char>) -> Seq<char> {
    if leading_space(s) == s.len() {
        Seq::empty()
    } else {
        s.subrange(leading_space(s) as int, s.len() - trailing_space(s))
    }
}

/// Whether `c` is white space.
pub fn white_space(c: char) -> (b: bool)
    ensures
        b == is_white_space(c),
{
    let n: u32 = c as u32;
    (0x09 <= n && n <= 0x0D) || n == 0x20 || n == 0x85 || n == 0xA0 || n == 0x1680 || (0x2000
        <= n && n <= 0x200A) || n == 0x2028 || n == 0x2029 || n == 0x202F || n == 0x205F || n
        == 0x3000
}

/// `leading_space` counts exactly the white space before the first other character.
pub proof fn lemma_leading_space(s: Seq<char>, k: int)
    requires
        0 <= k <= s.len(),
        forall|j: int| 0 <= j < k ==> is_white_space(#[trigger] s[j]),
        k < s.len() ==> !is_white_space(s[k]),
    ensures
        leading_space(s) == k,
    decreases k,
{
    if k > 0 {
        let rest = s.drop_first();
        assert forall|j: int| 0 <= j < k - 1 implies is_white_space(#[trigger] rest[j]) by {
            assert(rest[j] == s[j + 1]);
        }
        lemma_leading_space(rest, k - 1);
    }
}

/// `trailing_space` counts exactly the white space after the last other character.
pub proof fn lemma_trailing_space(s: Seq<char>, k: int)
    requires
        0 <= k <= s.len(),
        forall|j: int| s.len() - k <= j < s.len() ==> is_white_space(#[trigger] s[j]),
        k < s.len() ==> !is_white_space(s[s.len() - 1 - k]),
    ensures
        trailing_space(s) == k,
    decreases k,
{
    if k > 0 {
        let rest = s.drop_last();
        assert forall|j: int| rest.len() - (k - 1) <= j < rest.len() implies is_white_space(
            #[trigger] rest[j],
        ) by {
            assert(rest[j] == s[j]);
        }
        lemma_trailing_space(rest, k - 1);
    }
}

/// What `leading_space` counts: white space up to the first other character.
pub proof fn lemma_leading_space_counts(s: Seq<char>)
    ensures
        leading_space(s) <= s.len(),
        forall|j: int| 0 <= j < leading_space(s) ==> is_white_space(#[trigger] s[j]),
        leading_space(s) < s.len() ==> !is_white_space(s[leading_space(s) as int]),
    decreases s.len(),
{
    if s.len() > 0 && is_white_space(s[0]) {
        let rest = s.drop_first();
        lemma_leading_space_counts(rest);
        assert forall|j: int| 0 <= j < leading_space(s) implies is_white_space(
            #[trigger] s[j],
        ) by {
            if j > 0 {
                assert(s[j] == rest[j - 1]);
            }
        }
        if leading_space(s) < s.len() {
            assert(s[leading_space(s) as int] == rest[leading_space(rest) as int]);
        }
    }
}

/// What `trailing_space` counts: white space back to the last other character.
pub proof fn lemma_trailing_space_counts(s: Seq<char>)
    ensures
        trailing_space(s) <= s.len(),
        forall|j: int|
            s.len() - trailing_space(s) <= j < s.len() ==> is_white_space(#[trigger] s[j]),
        trailing_space(s) < s.len() ==> !is_white_space(s[s.len() - 1 - trailing_space(s)]),
    decreases s.len(),
{
    if s.len() > 0 && is_white_space(s.last()) {
        let rest = s.drop_last();
        lemma_trailing_space_counts(rest);
        assert forall|j: int| s.len() - trailing_space(s) <= j < s.len() implies is_white_space(
            #[trigger] s[j],
        ) by {
            if j < s.len() - 1 {
                assert(s[j] == rest[j]);
            }
        }
        if trailing_space(s) < s.len() {
            assert(s[s.len() - 1 - trailing_space(s)] == rest[rest.len() - 1 - trailing_space(
                rest,
            )]);
        }
    }
}

/// Trimmed text is a stretch of the text it was made from, neither starts nor ends
/// with white space, and stays as it is when trimmed again.
pub proof fn lemma_trimmed(s: Seq<char>)
    ensures
        leading_space(s) + trimmed(s).len() <= s.len(),
        trimmed(s) == s.subrange(
            leading_space(s) as int,
            (leading_space(s) + trimmed(s).len()) as int,
        ),
        trimmed(s).len() > 0 ==> !is_white_space(trimmed(s).first()) && !is_white_space(
            trimmed(s).last(),
        ),
        trimmed(s).len() == 0 <==> forall|j: int|
            0 <= j < s.len() ==> is_white_space(#[trigger] s[j]),
        trimmed(trimmed(s)) == trimmed(s),
{
    lemma_leading_space_counts(s);
    lemma_trailing_space_counts(s);
    let a = leading_space(s) as int;
    let b = trailing_space(s) as int;
    let t = trimmed(s);
    if a < s.len() {
        assert(a + b < s.len()) by {
            if a + b >= s.len() {
                assert(is_white_space(s[a]));
            }
        }
        assert(t.first() == s[a]);
        assert(t.last() == s[s.len() - 1 - b]);
        lemma_leading_space(t, 0);
        lemma_trailing_space(t, 0);
        assert(trimmed(t) =~= t);
    } else {
        assert(t =~= s.subrange(a, a));
        assert(trimmed(t) =~= t);
    }
}

/// `s` without the white space at its start and at its end, as `str::trim` gives it.
pub fn trim(s: &str) -> (kept: String)
    ensures
        kept@ == trimmed(s@),
{
    let n = s.unicode_len();
    let mut chars = s.chars();
    let mut i: usize = 0;
    let mut start: usize = 0;
    let mut end: usize = 0;
    let mut seen = false;
    while i < n
        invariant
            n == s@.len(),
            i <= n,
            chars.remaining() == s@.skip(i as int),
            forall|j: int| 0 <= j < (if seen { start } else { i }) ==> is_white_space(
                #[trigger] s@[j],
            ),
            seen ==> start < end <= i && !is_white_space(s@[start as int]) && !is_white_space(
                s@[end - 1],
            ),
            seen ==> forall|j: int| end <= j < i ==> is_white_space(#[trigger] s@[j]),
        decreases n - i,
    {
        let next = chars.next();
        assert(next == Some(s@[i as int]));
        let c = next.unwrap();
        if !white_space(c) {
            if !seen {
                start = i;
                seen = true;
            }
            end = i + 1;
        }
        i = i + 1;
    }
    if seen {
        proof {
            lemma_leading_space(s@, start as int);
            lemma_trailing_space(s@, n - end);
        }
        s.substring_char(start, end).to_owned()
    } else {
        proof {
            lemma_leading_space(s@, n as int);
        }
        String::new()
    }
}

/// Whether `a` and `b` hold the same characters.
pub fn same_text(a: &str, b: &str) -> (same: bool)
    ensures
        same == (a@ == b@),
{
    let x = a.as_bytes();
    let y = b.as_bytes();
    proof {
        encode_utf8_decode_utf8(a@);
        encode_utf8_decode_utf8(b@);
    }
    if x.len() != y.len() {
        return false;
    }
    let mut i: usize = 0;
    while i < x.len()
        invariant
            i <= x.len(),
            x.len() == y.len(),
            x@ == a.spec_bytes(),
            y@ == b.spec_bytes(),
            forall|j: int| 0 <= j < i ==> x@[j] == y@[j],
        decreases x.len() - i,
    {
        if x[i] != y[i] {
            return false;
        }
        i = i + 1;
    }
    assert(x@ =~= y@);
    true
}

} // verus!
