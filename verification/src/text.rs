//! Free-text handling for substring search: query trimming and blank
//! rejection, and case-insensitive (for ASCII letters) substring matching
//! against the stored text fields, the same matching the storage engine
//! applies to a contains pattern.

use vstd::prelude::*;
use vstd::string::StrSliceExecFns;
use vstd::string::StringExecFns;
use vstd::utf8::encode_utf8;

verus! {

/// The Unicode white-space characters, which a query is trimmed of: the
/// ASCII ones plus next line, no-break space, ogham space mark, the en/em
/// family of spaces, the line and paragraph separators, narrow no-break
/// space, medium mathematical space, and ideographic space.
pub open spec fn is_space(c: char) -> bool {
    c == ' ' || c == '\t' || c == '\n' || c == '\r' || c == '\u{b}' || c == '\u{c}'
        || c == '\u{85}' || c == '\u{a0}' || c == '\u{1680}' || c == '\u{2000}'
        || c == '\u{2001}' || c == '\u{2002}' || c == '\u{2003}' || c == '\u{2004}'
        || c == '\u{2005}' || c == '\u{2006}' || c == '\u{2007}' || c == '\u{2008}'
        || c == '\u{2009}' || c == '\u{200a}' || c == '\u{2028}' || c == '\u{2029}'
        || c == '\u{202f}' || c == '\u{205f}' || c == '\u{3000}'
}

/// `s` without its leading whitespace.
pub open spec fn trim_front(s: Seq<char>) -> Seq<char>
    decreases s.len(),
{
    if s.len() > 0 && is_space(s[0]) {
        trim_front(s.drop_first())
    } else {
        s
    }
}

/// `s` without its trailing whitespace.
pub open spec fn trim_back(s: Seq<char>) -> Seq<char>
    decreases s.len(),
{
    if s.len() > 0 && is_space(s[s.len() - 1]) {
        trim_back(s.drop_last())
    } else {
        s
    }
}

/// `s` without leading and trailing whitespace.
pub open spec fn spec_trim(s: Seq<char>) -> Seq<char> {
    trim_back(trim_front(s))
}

/// A query is blank — and rejected before any storage access — exactly when
/// nothing is left of it after trimming.
pub open spec fn is_blank(s: Seq<char>) -> bool {
    spec_trim(s).len() == 0
}

proof fn lemma_trim_front_skip(s: Seq<char>, i: int)
    requires
        0 <= i <= s.len(),
        forall|k: int| 0 <= k < i ==> is_space(s[k]),
        i == s.len() || !is_space(s[i]),
    ensures
        trim_front(s) == s.subrange(i, s.len() as int),
    decreases i,
{
    if i == 0 {
        assert(s.subrange(0, s.len() as int) =~= s);
    } else {
        assert(is_space(s[0]));
        lemma_trim_front_skip(s.drop_first(), i - 1);
        assert(s.drop_first().subrange(i - 1, s.drop_first().len() as int) =~= s.subrange(
            i,
            s.len() as int,
        ));
    }
}

proof fn lemma_trim_back_keep(s: Seq<char>, j: int)
    requires
        0 <= j <= s.len(),
        forall|k: int| j <= k < s.len() ==> is_space(s[k]),
        j == 0 || !is_space(s[j - 1]),
    ensures
        trim_back(s) == s.subrange(0, j),
    decreases s.len(),
{
    if j == s.len() {
        if s.len() > 0 && is_space(s[s.len() - 1]) {
            assert(!is_space(s[j - 1]));
            assert(false);
        }
        assert(s.subrange(0, j) =~= s);
    } else {
        assert(is_space(s[s.len() - 1]));
        lemma_trim_back_keep(s.drop_last(), j);
        assert(s.drop_last().subrange(0, j) =~= s.subrange(0, j));
    }
}

fn is_space_char(c: char) -> (r: bool)
    ensures
        r == is_space(c),
{
    c == ' ' || c == '\t' || c == '\n' || c == '\r' || c == '\u{b}' || c == '\u{c}'
        || c == '\u{85}' || c == '\u{a0}' || c == '\u{1680}' || c == '\u{2000}'
        || c == '\u{2001}' || c == '\u{2002}' || c == '\u{2003}' || c == '\u{2004}'
        || c == '\u{2005}' || c == '\u{2006}' || c == '\u{2007}' || c == '\u{2008}'
        || c == '\u{2009}' || c == '\u{200a}' || c == '\u{2028}' || c == '\u{2029}'
        || c == '\u{202f}' || c == '\u{205f}' || c == '\u{3000}'
}

/// Trims leading and trailing whitespace from a query string.
pub fn trim_query(s: &str) -> (r: String)
    ensures
        r@ == spec_trim(s@),
{
    let len = s.unicode_len();
    let mut start: usize = 0;
    while start < len && is_space_char(s.get_char(start))
        invariant
            start <= len,
            len == s@.len(),
            forall|k: int| 0 <= k < start ==> is_space(s@[k]),
        decreases len - start,
    {
        start += 1;
    }
    let mut end: usize = len;
    while end > start && is_space_char(s.get_char(end - 1))
        invariant
            start <= end <= len,
            len == s@.len(),
            forall|k: int| 0 <= k < start ==> is_space(s@[k]),
            forall|k: int| end <= k < len ==> is_space(s@[k]),
        decreases end,
    {
        end -= 1;
    }
    proof {
        lemma_trim_front_skip(s@, start as int);
        let t = s@.subrange(start as int, len as int);
        lemma_trim_back_keep(t, end - start);
        assert(t.subrange(0, end - start) =~= s@.subrange(start as int, end as int));
    }
    let r = s.substring_char(start, end);
    r.to_owned()
}

/// An ASCII upper-case letter folded to lower case; every other byte is
/// left alone, so matching is case-insensitive for ASCII letters only.
pub open spec fn fold_byte(b: u8) -> u8 {
    if 65 <= b <= 90 {
        (b + 32) as u8
    } else {
        b
    }
}

/// The pattern occurs at offset `i` of the text, compared byte for byte
/// after case folding.
pub open spec fn matches_at(t: Seq<u8>, p: Seq<u8>, i: int) -> bool {
    forall|j: int| 0 <= j < p.len() ==> fold_byte(t[i + j]) == fold_byte(p[j])
}

/// The pattern occurs somewhere in the text.
pub open spec fn bytes_contain(t: Seq<u8>, p: Seq<u8>) -> bool {
    exists|i: int| 0 <= i && i + p.len() <= t.len() && matches_at(t, p, i)
}

/// The query occurs as a substring of the text, case-insensitively for
/// ASCII letters, compared over the UTF-8 encoding of both.
pub open spec fn text_contains(t: Seq<char>, q: Seq<char>) -> bool {
    bytes_contain(encode_utf8(t), encode_utf8(q))
}

/// An optional text field contains the query; an absent field matches
/// nothing.
pub open spec fn opt_contains(o: Option<String>, q: Seq<char>) -> bool {
    match o {
        Some(s) => text_contains(s@, q),
        None => false,
    }
}

fn fold_byte_exec(b: u8) -> (r: u8)
    ensures
        r == fold_byte(b),
{
    if 65 <= b && b <= 90 {
        b + 32
    } else {
        b
    }
}

/// Whether the query occurs as a substring of the text, case-insensitively
/// for ASCII letters.
pub fn contains_ci(text: &str, query: &str) -> (r: bool)
    ensures
        r == text_contains(text@, query@),
{
    let t: Vec<u8> = text.as_bytes_vec();
    let p: Vec<u8> = query.as_bytes_vec();
    if p.len() > t.len() {
        return false;
    }
    if p.len() == 0 {
        assert(matches_at(t@, p@, 0));
        return true;
    }
    let tlen = t.len();
    let plen = p.len();
    let bound = tlen - plen;
    let mut i: usize = 0;
    while i <= bound
        invariant
            0 < plen <= tlen,
            tlen == t@.len(),
            plen == p@.len(),
            bound == tlen - plen,
            i <= bound + 1,
            t@ == encode_utf8(text@),
            p@ == encode_utf8(query@),
            forall|k: int| 0 <= k < i ==> !matches_at(t@, p@, k),
        decreases bound + 1 - i,
    {
        let mut j: usize = 0;
        while j < plen && fold_byte_exec(t[i + j]) == fold_byte_exec(p[j])
            invariant
                i + plen <= tlen,
                tlen == t@.len(),
                plen == p@.len(),
                j <= plen,
                forall|k: int| 0 <= k < j ==> fold_byte(t@[i + k]) == fold_byte(p@[k]),
            decreases plen - j,
        {
            j += 1;
        }
        if j == plen {
            assert(matches_at(t@, p@, i as int));
            return true;
        }
        assert(!matches_at(t@, p@, i as int));
        i += 1;
    }
    false
}

/// Whether an optional text field contains the query.
pub fn opt_contains_ci(o: &Option<String>, query: &str) -> (r: bool)
    ensures
        r == opt_contains(*o, query@),
{
    match o {
        Some(s) => contains_ci(s.as_str(), query),
        None => false,
    }
}

} // verus!
