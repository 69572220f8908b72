use vstd::prelude::*;

use crate::error::Error;

verus! {

/// Unicode white space, as `char::is_whitespace` classifies it.
pub open spec fn is_space(c: char) -> bool {
    let u = c as u32;
    u == 0x20 || (0x09 <= u && u <= 0x0d) || u == 0x85 || u == 0xa0 || u == 0x1680
        || (0x2000 <= u && u <= 0x200a) || u == 0x2028 || u == 0x2029 || u == 0x202f
        || u == 0x205f || u == 0x3000
}

/// An ASCII decimal digit.
pub open spec fn is_digit(c: char) -> bool {
    '0' <= c && c <= '9'
}

/// The first index at or after `i` that does not hold white space.
pub open spec fn skip_space(s: Seq<char>, i: int) -> int
    decreases s.len() - i,
{
    if 0 <= i < s.len() && is_space(s[i]) {
        skip_space(s, i + 1)
    } else {
        i
    }
}

/// The first index at or after `i` that holds white space, or the end.
pub open spec fn token_end(s: Seq<char>, i: int) -> int
    decreases s.len() - i,
{
    if 0 <= i < s.len() && !is_space(s[i]) {
        token_end(s, i + 1)
    } else {
        i
    }
}

/// Where the first white-space separated token starts.
pub open spec fn first_start(s: Seq<char>) -> int {
    skip_space(s, 0)
}

/// Where the second white-space separated token starts.
pub open spec fn second_start(s: Seq<char>) -> int {
    skip_space(s, token_end(s, first_start(s)))
}

/// The text holds at least two white-space separated tokens.
pub open spec fn has_two_tokens(s: Seq<char>) -> bool {
    second_start(s) < s.len()
}

/// The first token: the expected digest.
pub open spec fn manifest_digest(s: Seq<char>) -> Seq<char> {
    s.subrange(first_start(s), token_end(s, first_start(s)))
}

/// The second token: the path of the checksummed file.
pub open spec fn manifest_path(s: Seq<char>) -> Seq<char> {
    s.subrange(second_start(s), token_end(s, second_start(s)))
}

/// Where the segment of `t` that ends at `i` starts: just after the last `/` before `i`.
pub open spec fn segment_start(t: Seq<char>, i: int) -> int
    decreases i,
{
    if i <= 0 {
        0
    } else if t[i - 1] == '/' {
        i
    } else {
        segment_start(t, i - 1)
    }
}

/// The final `/`-separated segment of a path.
pub open spec fn file_name(t: Seq<char>) -> Seq<char> {
    t.subrange(segment_start(t, t.len() as int), t.len() as int)
}

/// An `_`-separated part of `f` starts at `p` with eight digits.
pub open spec fn date_at(f: Seq<char>, p: int) -> bool {
    0 <= p && p + 8 <= f.len() && (p == 0 || f[p - 1] == '_')
        && forall|k: int| p <= k < p + 8 ==> is_digit(#[trigger] f[k])
}

/// The first position at or after `p` where `date_at` holds.
pub open spec fn first_date(f: Seq<char>, p: int) -> Option<int>
    decreases f.len() - p,
{
    if p < 0 || p + 8 > f.len() {
        None
    } else if date_at(f, p) {
        Some(p)
    } else {
        first_date(f, p + 1)
    }
}

/// The dating token of a file name: where the name has an `_`, the first eight
/// digits that open one of its `_`-separated parts.
pub open spec fn date_token(f: Seq<char>) -> Option<Seq<char>> {
    if f.contains('_') && first_date(f, 0) is Some {
        let p = first_date(f, 0)->0;
        Some(f.subrange(p, p + 8))
    } else {
        None
    }
}

/// The dating token that a manifest's text names, if any.
pub open spec fn manifest_date(s: Seq<char>) -> Option<Seq<char>> {
    date_token(file_name(manifest_path(s)))
}

/// The record a manifest's text gives, with `today` standing in for a missing
/// dating token; `None` when the text has fewer than two tokens.
pub open spec fn manifest_record(s: Seq<char>, today: Seq<char>) -> Option<(Seq<char>, Seq<char>)> {
    if !has_two_tokens(s) {
        None
    } else {
        match manifest_date(s) {
            Some(d) => Some((manifest_digest(s), d)),
            None => Some((manifest_digest(s), today)),
        }
    }
}

proof fn lemma_skip_space_to(s: Seq<char>, i: int, a: int)
    requires
        0 <= i <= a <= s.len(),
        forall|k: int| i <= k < a ==> is_space(#[trigger] s[k]),
        a == s.len() || !is_space(s[a]),
    ensures
        skip_space(s, i) == a,
    decreases a - i,
{
    if i < a {
        lemma_skip_space_to(s, i + 1, a);
    }
}

proof fn lemma_token_end_at(s: Seq<char>, i: int, b: int)
    requires
        0 <= i <= b <= s.len(),
        forall|k: int| i <= k < b ==> !is_space(#[trigger] s[k]),
        b == s.len() || is_space(s[b]),
    ensures
        token_end(s, i) == b,
    decreases b - i,
{
    if i < b {
        lemma_token_end_at(s, i + 1, b);
    }
}

/// Text with at most one token, surrounded by any white space, is rejected:
/// the token, if any, is `s[a..b]`.
pub proof fn lemma_single_token_rejected(s: Seq<char>, a: int, b: int)
    requires
        0 <= a <= b <= s.len(),
        forall|k: int| 0 <= k < a ==> is_space(#[trigger] s[k]),
        forall|k: int| a <= k < b ==> !is_space(#[trigger] s[k]),
        forall|k: int| b <= k < s.len() ==> is_space(#[trigger] s[k]),
    ensures
        !has_two_tokens(s),
        forall|today: Seq<char>| manifest_record(s, today) is None,
{
    if a < b {
        lemma_skip_space_to(s, 0, a);
        lemma_token_end_at(s, a, b);
        lemma_skip_space_to(s, b, s.len() as int);
    } else {
        lemma_skip_space_to(s, 0, s.len() as int);
        assert(forall|k: int| 0 <= k < s.len() ==> is_space(#[trigger] s[k]));
        lemma_token_end_at(s, s.len() as int, s.len() as int);
        lemma_skip_space_to(s, s.len() as int, s.len() as int);
    }
}

/// Where the named file carries a dating token, the record holds the first
/// token as digest and that dating token, whatever `today` is.
pub proof fn lemma_dated_record(s: Seq<char>, today: Seq<char>)
    requires
        has_two_tokens(s),
        manifest_date(s) is Some,
    ensures
        manifest_record(s, today) == Some((manifest_digest(s), manifest_date(s)->0)),
        manifest_date(s)->0.len() == 8,
        forall|k: int| 0 <= k < 8 ==> is_digit(#[trigger] manifest_date(s)->0[k]),
{
    let f = file_name(manifest_path(s));
    let p = first_date(f, 0)->0;
    lemma_first_date_holds(f, 0);
    assert forall|k: int| 0 <= k < 8 implies is_digit(#[trigger] manifest_date(s)->0[k]) by {
        assert(manifest_date(s)->0[k] == f[p + k]);
    }
}

proof fn lemma_first_date_holds(f: Seq<char>, p: int)
    ensures
        first_date(f, p) matches Some(q) ==> date_at(f, q),
    decreases f.len() - p,
{
    if !(p < 0 || p + 8 > f.len()) && !date_at(f, p) {
        lemma_first_date_holds(f, p + 1);
    }
}

/// Where the named file carries no dating token, the record's date is `today`.
pub proof fn lemma_undated_record(s: Seq<char>, today: Seq<char>)
    requires
        has_two_tokens(s),
        manifest_date(s) is None,
    ensures
        manifest_record(s, today) == Some((manifest_digest(s), today)),
{
}

fn is_space_char(c: char) -> (r: bool)
    ensures
        r == is_space(c),
{
    let u = c as u32;
    u == 0x20 || (0x09 <= u && u <= 0x0d) || u == 0x85 || u == 0xa0 || u == 0x1680
        || (0x2000 <= u && u <= 0x200a) || u == 0x2028 || u == 0x2029 || u == 0x202f
        || u == 0x205f || u == 0x3000
}

fn skip_space_from(s: &str, n: usize, start: usize) -> (r: usize)
    requires
        n == s@.len(),
        start <= n,
    ensures
        r as int == skip_space(s@, start as int),
        start <= r <= n,
{
    let mut i = start;
    while i < n && is_space_char(s.get_char(i))
        invariant
            n == s@.len(),
            start <= i <= n,
            skip_space(s@, start as int) == skip_space(s@, i as int),
        decreases n - i,
    {
        i = i + 1;
    }
    i
}

fn token_end_from(s: &str, n: usize, start: usize) -> (r: usize)
    requires
        n == s@.len(),
        start <= n,
    ensures
        r as int == token_end(s@, start as int),
        start <= r <= n,
{
    let mut i = start;
    while i < n && !is_space_char(s.get_char(i))
        invariant
            n == s@.len(),
            start <= i <= n,
            token_end(s@, start as int) == token_end(s@, i as int),
        decreases n - i,
    {
        i = i + 1;
    }
    i
}

fn file_name_of(t: &str) -> (r: &str)
    ensures
        r@ == file_name(t@),
{
    let n = t.unicode_len();
    let mut i = n;
    while i > 0 && t.get_char(i - 1) != '/'
        invariant
            n == t@.len(),
            i <= n,
            segment_start(t@, n as int) == segment_start(t@, i as int),
        decreases i,
    {
        i = i - 1;
    }
    t.substring_char(i, n)
}

fn has_underscore(f: &str, n: usize) -> (r: bool)
    requires
        n == f@.len(),
    ensures
        r == f@.contains('_'),
{
    let mut i: usize = 0;
    while i < n
        invariant
            n == f@.len(),
            i <= n,
            forall|k: int| 0 <= k < i ==> f@[k] != '_',
        decreases n - i,
    {
        if f.get_char(i) == '_' {
            return true;
        }
        i = i + 1;
    }
    false
}

fn date_at_pos(f: &str, n: usize, p: usize) -> (r: bool)
    requires
        n == f@.len(),
        p + 8 <= n,
    ensures
        r == date_at(f@, p as int),
{
    if p > 0 && f.get_char(p - 1) != '_' {
        return false;
    }
    let mut k: usize = 0;
    while k < 8
        invariant
            n == f@.len(),
            p + 8 <= n,
            k <= 8,
            forall|j: int| p <= j < p + k ==> is_digit(#[trigger] f@[j]),
        decreases 8 - k,
    {
        let c = f.get_char(p + k);
        if !('0' <= c && c <= '9') {
            return false;
        }
        k = k + 1;
    }
    true
}

/// The dating token of a file name, if it has one.
pub fn find_date_token(f: &str) -> (r: Option<String>)
    ensures
        match r {
            Some(d) => date_token(f@) == Some(d@),
            None => date_token(f@) is None,
        },
{
    let n = f.unicode_len();
    if !has_underscore(f, n) {
        return None;
    }
    let mut p: usize = 0;
    while n >= 8 && p <= n - 8
        invariant
            n == f@.len(),
            p <= n,
            f@.contains('_'),
            first_date(f@, 0) == first_date(f@, p as int),
        decreases n - p,
    {
        if date_at_pos(f, n, p) {
            return Some(String::from_str(f.substring_char(p, p + 8)));
        }
        p = p + 1;
    }
    None
}

/// Reads the expected digest and the dating token from a manifest's text;
/// `today` stands in where the named file carries no dating token.
pub fn parse_md5_file_dated(md5_content: &str, today: &str) -> (r: Result<(String, String), Error>)
    ensures
        match r {
            Ok((h, d)) => manifest_record(md5_content@, today@) == Some((h@, d@)),
            Err(e) => manifest_record(md5_content@, today@) is None && e == Error::ManifestFormat,
        },
{
    let s = md5_content;
    let n = s.unicode_len();
    let a1 = skip_space_from(s, n, 0);
    let b1 = token_end_from(s, n, a1);
    let a2 = skip_space_from(s, n, b1);
    if a2 >= n {
        return Err(Error::ManifestFormat);
    }
    let b2 = token_end_from(s, n, a2);
    let hash = String::from_str(s.substring_char(a1, b1));
    let name = file_name_of(s.substring_char(a2, b2));
    match find_date_token(name) {
        Some(d) => Ok((hash, d)),
        None => Ok((hash, String::from_str(today))),
    }
}

/// Relies on chrono's `Local::now` and `format("%Y%m%d")`: today's local date.
#[verifier::external_body]
fn today_stamp() -> (r: String) {
    chrono::Local::now().format("%Y%m%d").to_string()
}

/// Reads the expected digest and the dating token from a manifest's text;
/// where the named file carries no dating token, today's local date stands in.
pub fn parse_md5_file(md5_content: &str) -> (r: Result<(String, String), Error>)
    ensures
        r is Ok <==> has_two_tokens(md5_content@),
        r matches Ok((h, d)) ==> h@ == manifest_digest(md5_content@)
            && (manifest_date(md5_content@) matches Some(t) ==> d@ == t),
        r matches Err(e) ==> e == Error::ManifestFormat,
{
    let today = today_stamp();
    parse_md5_file_dated(md5_content, today.as_str())
}

} // verus!
