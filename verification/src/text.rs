//! Character-level helpers on strings, stated over the `Seq<char>` view.
use vstd::prelude::*;
use vstd::utf8::{decode_utf8, encode_utf8, valid_utf8};
use vstd::string::{StrSliceExecFns, StringSliceAdditionalSpecFns};

verus! {

broadcast use vstd::string::group_string_axioms;

/// What `str::to_lowercase` gives back for the characters `s`: the Unicode
/// lowercase mapping of the whole string.
pub uninterp spec fn lowercase_of(s: Seq<char>) -> Seq<char>;

/// Every character is ASCII.
pub open spec fn is_ascii_text(s: Seq<char>) -> bool {
    forall|i: int| 0 <= i < s.len() ==> (#[trigger] s[i] as u32) < 128
}

/// The ASCII lowercase of a character: `A` to `Z` become `a` to `z`, every
/// other character stays.
pub open spec fn ascii_lower_char(c: char) -> char {
    if 'A' <= c && c <= 'Z' {
        ((c as u32) + 32) as char
    } else {
        c
    }
}

/// The ASCII lowercase of each character.
pub open spec fn ascii_lower(s: Seq<char>) -> Seq<char> {
    s.map_values(|c: char| ascii_lower_char(c))
}

/// Calls `str::to_lowercase`. The contract ties the result to the argument
/// through `lowercase_of`; the Unicode case tables behind it are not written
/// out, except for ASCII text, where the Unicode lowercase mapping turns `A`
/// to `Z` into `a` to `z` and keeps every other character.
#[verifier::external_body]
pub(crate) fn to_lowercase(s: &str) -> (r: String)
    ensures
        r@ == lowercase_of(s@),
        is_ascii_text(s@) ==> r@ == ascii_lower(s@),
{
    s.to_lowercase()
}

/// The characters of `s`, one by one, in a vector.
pub fn chars_of(s: &str) -> (v: Vec<char>)
    ensures
        v@ == s@,
{
    let mut v: Vec<char> = Vec::new();
    for c in it: s.chars()
        invariant
            v@ == it.seq().take(it.index() as int),
            it.seq() == s@,
    {
        v.push(c);
    }
    v
}


/// `suffix` is the tail of `s`.
pub open spec fn has_suffix(s: Seq<char>, suffix: Seq<char>) -> bool {
    suffix.len() <= s.len() && s.subrange(s.len() - suffix.len(), s.len() as int) == suffix
}

/// Whether the tail of `s` is `suffix`, both given as characters.
pub fn ends_with_chars(s: &Vec<char>, suffix: &Vec<char>) -> (r: bool)
    ensures
        r == has_suffix(s@, suffix@),
{
    if suffix.len() > s.len() {
        return false;
    }
    let off = s.len() - suffix.len();
    let mut i: usize = 0;
    while i < suffix.len()
        invariant
            off + suffix.len() == s.len(),
            i <= suffix@.len(),
            forall|j: int| 0 <= j < i ==> s@[off + j] == suffix@[j],
        decreases suffix@.len() - i,
    {
        if s[off + i] != suffix[i] {
            assert(s@.subrange(off as int, s@.len() as int)[i as int] != suffix@[i as int]);
            return false;
        }
        i = i + 1;
    }
    assert(s@.subrange(off as int, s@.len() as int) =~= suffix@);
    true
}

/// Whether two strings hold the same characters.
pub fn str_eq(a: &str, b: &str) -> (r: bool)
    ensures
        r == (a@ == b@),
{
    let x = chars_of(a);
    let y = chars_of(b);
    if x.len() != y.len() {
        return false;
    }
    let mut i: usize = 0;
    while i < x.len()
        invariant
            x@ == a@,
            y@ == b@,
            x@.len() == y@.len(),
            i <= x@.len(),
            forall|j: int| 0 <= j < i ==> x@[j] == y@[j],
        decreases x@.len() - i,
    {
        if x[i] != y[i] {
            return false;
        }
        i = i + 1;
    }
    assert(x@ =~= y@);
    true
}


/// Calls `std::str::from_utf8`: the bytes read as text when they are valid
/// UTF-8, and nothing otherwise.
#[verifier::external_body]
pub(crate) fn str_from_utf8(v: &[u8]) -> (r: Option<&str>)
    ensures
        r is Some <==> valid_utf8(v@),
        r matches Some(s) ==> s.spec_bytes() == v@,
{
    std::str::from_utf8(v).ok()
}

/// The text between two byte offsets of `source`: the bytes from `start` up
/// to `end` read as UTF-8, or nothing when they are out of range or not
/// valid UTF-8.
pub open spec fn byte_range_text(source: Seq<char>, start: int, end: int) -> Seq<char> {
    let b = encode_utf8(source);
    if 0 <= start <= end <= b.len() && valid_utf8(b.subrange(start, end)) {
        decode_utf8(b.subrange(start, end))
    } else {
        Seq::empty()
    }
}

/// The text between two byte offsets of `source`, or an empty string when
/// the range does not hold valid UTF-8.
pub fn byte_range_string(source: &str, start: usize, end: usize) -> (r: String)
    ensures
        r@ == byte_range_text(source@, start as int, end as int),
{
    let bytes = source.as_bytes();
    if start <= end && end <= bytes.len() {
        let sub = vstd::slice::slice_subrange(bytes, start, end);
        match str_from_utf8(sub) {
            Some(s) => {
                proof {
                    vstd::utf8::encode_utf8_decode_utf8(s@);
                }
                String::from_str(s)
            },
            None => String::new(),
        }
    } else {
        String::new()
    }
}

/// The first line of a text, as `str::lines` yields it: up to the first
/// `\n`, without the `\r` of a `\r\n`; nothing for an empty text.
pub open spec fn first_line(t: Seq<char>) -> Seq<char> {
    if exists|i: int| 0 <= i < t.len() && t[i] == '\n' {
        let i = choose|i: int| 0 <= i < t.len() && t[i] == '\n' && forall|j: int| 0 <= j < i ==> t[j] != '\n';
        if i > 0 && t[i - 1] == '\r' {
            t.take(i - 1)
        } else {
            t.take(i)
        }
    } else {
        t
    }
}

/// The first line of a text, as `str::lines().next()` gives it, or an empty
/// string for an empty text.
pub fn first_line_of(t: &str) -> (r: String)
    ensures
        r@ == first_line(t@),
{
    let cs = chars_of(t);
    let mut i: usize = 0;
    while i < cs.len()
        invariant_except_break
            cs@ == t@,
            i <= cs@.len(),
            forall|j: int| 0 <= j < i ==> cs@[j] != '\n',
        ensures
            cs@ == t@,
            i <= cs@.len(),
            forall|j: int| 0 <= j < i ==> cs@[j] != '\n',
            i < cs@.len() ==> cs@[i as int] == '\n',
        decreases cs@.len() - i,
    {
        if cs[i] == '\n' {
            break;
        }
        i = i + 1;
    }
    let mut n = i;
    if i < cs.len() && n > 0 && cs[n - 1] == '\r' {
        n = n - 1;
    }
    let line = String::from_str(t.substring_char(0, n));
    assert(line@ =~= t@.take(n as int));
    proof {
        if i < cs@.len() {
            assert(t@[i as int] == '\n');
            let w = choose|w: int| 0 <= w < t@.len() && t@[w] == '\n' && forall|j: int| 0 <= j < w ==> t@[j] != '\n';
            assert(w == i as int) by {
                if w < i {
                    assert(t@[w] != '\n');
                }
                if w > i {
                    assert(t@[i as int] != '\n');
                }
            }
            assert(line@ =~= first_line(t@));
        } else {
            assert(line@ =~= t@);
        }
    }
    line
}

/// The first line of a text holds no line break.
pub proof fn lemma_first_line_single(t: Seq<char>)
    ensures
        !first_line(t).contains('\n'),
{
    if exists|i: int| 0 <= i < t.len() && t[i] == '\n' {
        let w = choose|i: int| 0 <= i < t.len() && t[i] == '\n';
        let i = choose|i: int| 0 <= i < t.len() && t[i] == '\n' && forall|j: int| 0 <= j < i ==> t[j] != '\n';
        assert(exists|i: int| 0 <= i < t.len() && t[i] == '\n' && forall|j: int| 0 <= j < i ==> t[j] != '\n') by {
            lemma_first_newline(t, w);
        }
        let l = first_line(t);
        assert forall|j: int| 0 <= j < l.len() implies l[j] != '\n' by {
            assert(l[j] == t[j]);
        }
    }
}

/// A text with a line break has a first one.
/// The first line of a text is where the text begins.
pub proof fn lemma_first_line_prefix(t: Seq<char>)
    ensures
        first_line(t).is_prefix_of(t),
{
    if exists|i: int| 0 <= i < t.len() && t[i] == '\n' {
        let w = choose|i: int| 0 <= i < t.len() && t[i] == '\n';
        lemma_first_newline(t, w);
        let l = first_line(t);
        assert(l =~= t.subrange(0, l.len() as int));
    } else {
        assert(t =~= t.subrange(0, t.len() as int));
    }
}

proof fn lemma_first_newline(t: Seq<char>, w: int)
    requires
        0 <= w < t.len(),
        t[w] == '\n',
    ensures
        exists|i: int| 0 <= i < t.len() && t[i] == '\n' && forall|j: int| 0 <= j < i ==> t[j] != '\n',
    decreases w,
{
    if exists|j: int| 0 <= j < w && t[j] == '\n' {
        let j = choose|j: int| 0 <= j < w && t[j] == '\n';
        lemma_first_newline(t, j);
    } else {
        assert(forall|j: int| 0 <= j < w ==> t[j] != '\n');
    }
}

} // verus!
