//! Character-sequence utilities: trimming, searching, splitting and the
//! conversions between `String` and `Vec<char>`.

use vstd::prelude::*;

verus! {

/// The Unicode `White_Space` property: the characters that `str::trim`
/// removes and that the regular-expression class `\s` matches.
pub open spec fn is_ws(c: char) -> bool {
    let u = c as u32;
    (0x9 <= u && u <= 0xd) || u == 0x20 || u == 0x85 || u == 0xa0 || u == 0x1680 || (0x2000 <= u
        && u <= 0x200a) || u == 0x2028 || u == 0x2029 || u == 0x202f || u == 0x205f || u == 0x3000
}

pub fn is_ws_char(c: char) -> (r: bool)
    ensures
        r == is_ws(c),
{
    let u = c as u32;
    (0x9 <= u && u <= 0xd) || u == 0x20 || u == 0x85 || u == 0xa0 || u == 0x1680 || (0x2000 <= u
        && u <= 0x200a) || u == 0x2028 || u == 0x2029 || u == 0x202f || u == 0x205f || u == 0x3000
}

/// `s` without its leading white space.
pub open spec fn trim_start(s: Seq<char>) -> Seq<char>
    decreases s.len(),
{
    if s.len() > 0 && is_ws(s[0]) {
        trim_start(s.drop_first())
    } else {
        s
    }
}

/// `s` without its trailing white space.
pub open spec fn trim_end(s: Seq<char>) -> Seq<char>
    decreases s.len(),
{
    if s.len() > 0 && is_ws(s.last()) {
        trim_end(s.drop_last())
    } else {
        s
    }
}

/// `str::trim`: both ends stripped of white space.
pub open spec fn trim(s: Seq<char>) -> Seq<char> {
    trim_end(trim_start(s))
}

/// The characters of a string slice, in order.
#[verifier::external_body]
pub fn chars_of(s: &str) -> (r: Vec<char>)
    ensures
        r@ == s@,
{
    s.chars().collect()
}

/// The string made of the given characters, in order.
#[verifier::external_body]
pub fn string_of(v: &[char]) -> (r: String)
    ensures
        r@ == v@,
{
    v.iter().collect()
}

pub fn trim_chars(s: &[char]) -> (r: Vec<char>)
    ensures
        r@ == trim(s@),
{
    let n = s.len();
    let mut i: usize = 0;
    assert(s@.subrange(0, n as int) =~= s@);
    while i < n && is_ws_char(s[i])
        invariant
            i <= n,
            n == s@.len(),
            trim_start(s@) == trim_start(s@.subrange(i as int, n as int)),
        decreases n - i,
    {
        assert(s@.subrange(i as int, n as int).drop_first() =~= s@.subrange(i + 1, n as int));
        i = i + 1;
    }
    assert(trim_start(s@) == s@.subrange(i as int, n as int));
    let mut j: usize = n;
    while j > i && is_ws_char(s[j - 1])
        invariant
            i <= j <= n,
            n == s@.len(),
            trim(s@) == trim_end(s@.subrange(i as int, j as int)),
        decreases j,
    {
        assert(s@.subrange(i as int, j as int).drop_last() =~= s@.subrange(i as int, j - 1));
        j = j - 1;
    }
    let mut r: Vec<char> = Vec::new();
    let mut k: usize = i;
    while k < j
        invariant
            i <= k <= j <= n,
            n == s@.len(),
            r@ == s@.subrange(i as int, k as int),
        decreases j - k,
    {
        r.push(s[k]);
        assert(r@ =~= s@.subrange(i as int, k + 1));
        k = k + 1;
    }
    r
}


/// `p` occurs in `s` starting at index `i`.
pub open spec fn occurs_at(s: Seq<char>, p: Seq<char>, i: int) -> bool {
    0 <= i && i + p.len() <= s.len() && s.subrange(i, i + p.len()) == p
}

/// The first index at or after `i` where `p` occurs in `s`.
pub open spec fn find_from(s: Seq<char>, p: Seq<char>, i: int) -> Option<int>
    decreases s.len() + 1 - i,
{
    if i < 0 || i + p.len() > s.len() {
        None
    } else if occurs_at(s, p, i) {
        Some(i)
    } else {
        find_from(s, p, i + 1)
    }
}

/// `str::find`: the first index where `p` occurs in `s`.
pub open spec fn find(s: Seq<char>, p: Seq<char>) -> Option<int> {
    find_from(s, p, 0)
}

/// `str::contains`.
pub open spec fn contains(s: Seq<char>, p: Seq<char>) -> bool {
    find(s, p) is Some
}

/// `str::starts_with`.
pub open spec fn starts_with(s: Seq<char>, p: Seq<char>) -> bool {
    occurs_at(s, p, 0)
}

/// `str::ends_with`.
pub open spec fn ends_with(s: Seq<char>, p: Seq<char>) -> bool {
    occurs_at(s, p, s.len() - p.len())
}

pub proof fn lemma_find_from_bounds(s: Seq<char>, p: Seq<char>, i: int)
    ensures
        find_from(s, p, i) matches Some(j) ==> i <= j && j + p.len() <= s.len() && occurs_at(
            s,
            p,
            j,
        ) && forall|k: int| i <= k < j ==> !occurs_at(s, p, k),
    decreases s.len() + 1 - i,
{
    if i < 0 || i + p.len() > s.len() {
    } else if occurs_at(s, p, i) {
    } else {
        lemma_find_from_bounds(s, p, i + 1);
    }
}

/// The search result is determined by where `p` does and does not occur.
pub proof fn lemma_find_from_first(s: Seq<char>, p: Seq<char>, i: int, j: int)
    requires
        0 <= i <= j,
        occurs_at(s, p, j),
        forall|k: int| i <= k < j ==> !occurs_at(s, p, k),
    ensures
        find_from(s, p, i) == Some(j),
    decreases j - i,
{
    if i < j {
        lemma_find_from_first(s, p, i + 1, j);
    }
}

pub proof fn lemma_find_from_none(s: Seq<char>, p: Seq<char>, i: int)
    requires
        0 <= i,
        forall|k: int| i <= k ==> !occurs_at(s, p, k),
    ensures
        find_from(s, p, i) is None,
    decreases s.len() + 1 - i,
{
    if i + p.len() <= s.len() {
        lemma_find_from_none(s, p, i + 1);
    }
}

/// Searching a suffix of `s` is searching `s` from where the suffix starts.
pub proof fn lemma_find_from_suffix(s: Seq<char>, p: Seq<char>, k: int, j: int)
    requires
        0 <= k <= j,
        k <= s.len(),
    ensures
        find_from(s.subrange(k, s.len() as int), p, j - k) == (match find_from(s, p, j) {
            Some(x) => Some(x - k),
            None => None,
        }),
    decreases s.len() + 1 - j,
{
    let t = s.subrange(k, s.len() as int);
    if j + p.len() > s.len() {
    } else {
        assert(t.subrange(j - k, j - k + p.len()) =~= s.subrange(j, j + p.len()));
        if !occurs_at(s, p, j) {
            lemma_find_from_suffix(s, p, k, j + 1);
        }
    }
}

/// Whether `p` occurs in `s` at index `i`.
pub fn occurs_at_exec(s: &[char], p: &[char], i: usize) -> (r: bool)
    ensures
        r == occurs_at(s@, p@, i as int),
{
    if p.len() > s.len() || i > s.len() - p.len() {
        return false;
    }
    let mut k: usize = 0;
    while k < p.len()
        invariant
            k <= p.len(),
            i + p.len() <= s.len(),
            s@.subrange(i as int, i + k) =~= p@.subrange(0, k as int),
        decreases p.len() - k,
    {
        if s[i + k] != p[k] {
            assert(s@.subrange(i as int, i + p.len())[k as int] != p@[k as int]);
            return false;
        }
        k = k + 1;
        assert(s@.subrange(i as int, i + k) =~= p@.subrange(0, k as int));
    }
    assert(p@.subrange(0, p@.len() as int) =~= p@);
    true
}

/// The first index at or after `start` where `p` occurs in `s`.
pub fn find_from_exec(s: &[char], p: &[char], start: usize) -> (r: Option<usize>)
    ensures
        match r {
            Some(i) => find_from(s@, p@, start as int) == Some(i as int),
            None => find_from(s@, p@, start as int) is None,
        },
{
    if p.len() > s.len() || start > s.len() - p.len() {
        return None;
    }
    let last = s.len() - p.len();
    let mut i: usize = start;
    while i <= last
        invariant
            start <= i,
            last + p.len() == s.len(),
            i <= last + 1,
            find_from(s@, p@, start as int) == find_from(s@, p@, i as int),
        decreases last + 1 - i,
    {
        if occurs_at_exec(s, p, i) {
            return Some(i);
        }
        if i == last {
            assert(find_from(s@, p@, i + 1) is None);
            return None;
        }
        i = i + 1;
    }
    None
}

pub fn contains_exec(s: &[char], p: &[char]) -> (r: bool)
    ensures
        r == contains(s@, p@),
{
    find_from_exec(s, p, 0).is_some()
}

/// Whether `s` contains the string `p`.
pub fn contains_str(s: &[char], p: &str) -> (r: bool)
    ensures
        r == contains(s@, p@),
{
    let pc = chars_of(p);
    contains_exec(s, pc.as_slice())
}

pub fn starts_with_exec(s: &[char], p: &[char]) -> (r: bool)
    ensures
        r == starts_with(s@, p@),
{
    occurs_at_exec(s, p, 0)
}

pub fn ends_with_exec(s: &[char], p: &[char]) -> (r: bool)
    ensures
        r == ends_with(s@, p@),
{
    if p.len() > s.len() {
        false
    } else {
        occurs_at_exec(s, p, s.len() - p.len())
    }
}

/// The sequence `s[i..j]` as a vector.
pub fn copy_range(s: &[char], i: usize, j: usize) -> (r: Vec<char>)
    requires
        i <= j <= s@.len(),
    ensures
        r@ == s@.subrange(i as int, j as int),
{
    let mut r: Vec<char> = Vec::new();
    let mut k: usize = i;
    while k < j
        invariant
            i <= k <= j <= s@.len(),
            r@ == s@.subrange(i as int, k as int),
        decreases j - k,
    {
        r.push(s[k]);
        assert(r@ =~= s@.subrange(i as int, k + 1));
        k = k + 1;
    }
    r
}

/// Appends `t` to `r`.
pub fn push_all(r: &mut Vec<char>, t: &[char])
    ensures
        final(r)@ == old(r)@ + t@,
{
    let ghost r0 = r@;
    let mut k: usize = 0;
    while k < t.len()
        invariant
            k <= t@.len(),
            r@ == r0 + t@.subrange(0, k as int),
        decreases t.len() - k,
    {
        r.push(t[k]);
        assert(r@ =~= r0 + t@.subrange(0, k + 1));
        k = k + 1;
    }
    assert(t@.subrange(0, t@.len() as int) =~= t@);
}

/// Appends the characters of the string `t` to `r`.
pub fn push_str(r: &mut Vec<char>, t: &str)
    ensures
        final(r)@ == old(r)@ + t@,
{
    let tc = chars_of(t);
    push_all(r, tc.as_slice());
}

/// `str::replace` with a non-empty pattern: every non-overlapping
/// occurrence of `from`, found from the left, is replaced by `to`.
pub open spec fn replace_all(s: Seq<char>, from: Seq<char>, to: Seq<char>) -> Seq<char>
    decreases s.len(),
{
    if from.len() == 0 {
        s
    } else {
        match find(s, from) {
            Some(i) => {
                proof {
                    lemma_find_from_bounds(s, from, 0);
                }
                s.subrange(0, i) + to + replace_all(
                    s.subrange(i + from.len(), s.len() as int),
                    from,
                    to,
                )
            },
            None => s,
        }
    }
}

pub fn replace_exec(s: &[char], from: &[char], to: &[char]) -> (r: Vec<char>)
    requires
        from@.len() > 0,
    ensures
        r@ == replace_all(s@, from@, to@),
{
    let mut out: Vec<char> = Vec::new();
    let mut pos: usize = 0;
    assert(s@.subrange(0, s@.len() as int) =~= s@);
    loop
        invariant
            pos <= s@.len(),
            from@.len() > 0,
            replace_all(s@, from@, to@) == out@ + replace_all(
                s@.subrange(pos as int, s@.len() as int),
                from@,
                to@,
            ),
        decreases s@.len() - pos,
    {
        let ghost t = s@.subrange(pos as int, s@.len() as int);
        proof {
            lemma_find_from_suffix(s@, from@, pos as int, pos as int);
            lemma_find_from_bounds(s@, from@, pos as int);
        }
        match find_from_exec(s, from, pos) {
            Some(i) => {
                let ghost j = i - pos;
                assert(i + from@.len() <= s@.len());
                assert(t.subrange(0, j) =~= s@.subrange(pos as int, i as int));
                assert(t.subrange(j + from@.len(), t.len() as int) =~= s@.subrange(
                    i + from@.len(),
                    s@.len() as int,
                ));
                let seg = copy_range(s, pos, i);
                push_all(&mut out, seg.as_slice());
                push_all(&mut out, to);
                assert(i + from.len() <= s.len());
                pos = i + from.len();
            },
            None => {
                let seg = copy_range(s, pos, s.len());
                push_all(&mut out, seg.as_slice());
                return out;
            },
        }
    }
}

/// `s` with one trailing carriage return removed, if it has one.
pub open spec fn strip_cr(s: Seq<char>) -> Seq<char> {
    if s.len() > 0 && s.last() == '\r' {
        s.drop_last()
    } else {
        s
    }
}

/// `str::lines`: the pieces between line feeds, each without a trailing
/// carriage return; a final line feed ends the last line without starting
/// another.
pub open spec fn lines(s: Seq<char>) -> Seq<Seq<char>>
    decreases s.len(),
{
    if s.len() == 0 {
        seq![]
    } else {
        match find(s, seq!['\n']) {
            Some(i) => {
                proof {
                    lemma_find_from_bounds(s, seq!['\n'], 0);
                }
                seq![strip_cr(s.subrange(0, i))] + lines(s.subrange(i + 1, s.len() as int))
            },
            None => seq![s],
        }
    }
}

pub proof fn lemma_occurs_single(s: Seq<char>, c: char, k: int)
    requires
        0 <= k < s.len(),
    ensures
        occurs_at(s, seq![c], k) <==> s[k] == c,
{
    assert(s.subrange(k, k + 1) =~= seq![s[k]]);
    if s[k] == c {
        assert(s.subrange(k, k + 1) =~= seq![c]);
    } else {
        assert(s.subrange(k, k + 1)[0] != seq![c][0]);
    }
}

pub fn strip_cr_exec(v: Vec<char>) -> (r: Vec<char>)
    ensures
        r@ == strip_cr(v@),
{
    let mut v = v;
    if v.len() > 0 && v[v.len() - 1] == '\r' {
        v.pop();
    }
    v
}

/// The character sequences held by a vector of character vectors.
pub open spec fn views(v: Seq<Vec<char>>) -> Seq<Seq<char>> {
    v.map_values(|x: Vec<char>| x@)
}

pub fn lines_exec(s: &[char]) -> (r: Vec<Vec<char>>)
    ensures
        views(r@) == lines(s@),
{
    let mut out: Vec<Vec<char>> = Vec::new();
    let mut start: usize = 0;
    let mut i: usize = 0;
    assert(s@.subrange(0, s@.len() as int) =~= s@);
    while i < s.len()
        invariant
            start <= i <= s@.len(),
            lines(s@) == views(out@) + lines(s@.subrange(start as int, s@.len() as int)),
            forall|k: int| start <= k < i ==> s@[k] != '\n',
        decreases s@.len() - i,
    {
        if s[i] == '\n' {
            let ghost t = s@.subrange(start as int, s@.len() as int);
            proof {
                assert forall|k: int| 0 <= k < i - start implies !occurs_at(t, seq!['\n'], k) by {
                    lemma_occurs_single(t, '\n', k);
                }
                lemma_occurs_single(t, '\n', i - start);
                lemma_find_from_first(t, seq!['\n'], 0, i - start);
                assert(t.subrange(0, i - start) =~= s@.subrange(start as int, i as int));
                assert(t.subrange(i - start + 1, t.len() as int) =~= s@.subrange(
                    i + 1,
                    s@.len() as int,
                ));
            }
            let seg = copy_range(s, start, i);
            let seg = strip_cr_exec(seg);
            let ghost before = views(out@);
            out.push(seg);
            assert(views(out@) =~= before + seq![strip_cr(s@.subrange(start as int, i as int))]);
            start = i + 1;
        }
        i = i + 1;
    }
    if start < s.len() {
        let ghost t = s@.subrange(start as int, s@.len() as int);
        proof {
            assert forall|k: int| 0 <= k implies !occurs_at(t, seq!['\n'], k) by {
                if k < t.len() {
                    lemma_occurs_single(t, '\n', k);
                }
            }
            lemma_find_from_none(t, seq!['\n'], 0);
        }
        let seg = copy_range(s, start, s.len());
        let ghost before = views(out@);
        out.push(seg);
        assert(views(out@) =~= before + seq![t]);
    } else {
        assert(views(out@) + lines(s@.subrange(start as int, s@.len() as int)) =~= views(out@));
    }
    out
}


pub open spec fn is_ascii_char(c: char) -> bool {
    (c as u32) < 128
}

pub open spec fn is_ascii_seq(s: Seq<char>) -> bool {
    forall|i: int| 0 <= i < s.len() ==> is_ascii_char(#[trigger] s[i])
}

/// An ASCII text takes one byte per character in UTF-8.
pub proof fn lemma_ascii_utf8_len(s: Seq<char>)
    requires
        is_ascii_seq(s),
    ensures
        vstd::utf8::encode_utf8(s).len() == s.len(),
    decreases s.len(),
{
    if s.len() > 0 {
        assert(is_ascii_char(s[0]));
        assert(is_ascii_seq(s.drop_first()));
        lemma_ascii_utf8_len(s.drop_first());
        assert(vstd::utf8::encode_scalar(s[0] as u32).len() == 1);
    }
}

/// A character takes one to four bytes in UTF-8.
pub proof fn lemma_utf8_len_bounds(s: Seq<char>)
    ensures
        s.len() <= vstd::utf8::encode_utf8(s).len() <= 4 * s.len(),
    decreases s.len(),
{
    if s.len() > 0 {
        lemma_utf8_len_bounds(s.drop_first());
        let e = vstd::utf8::encode_scalar(s[0] as u32);
        assert(1 <= e.len() <= 4);
    }
}

pub open spec fn ascii_lower_char(c: char) -> char {
    if 65 <= (c as u32) && (c as u32) <= 90 {
        ((c as u32) + 32) as char
    } else {
        c
    }
}

pub open spec fn ascii_upper_char(c: char) -> char {
    if 97 <= (c as u32) && (c as u32) <= 122 {
        ((c as u32) - 32) as char
    } else {
        c
    }
}

pub open spec fn ascii_lower(s: Seq<char>) -> Seq<char> {
    s.map_values(|c: char| ascii_lower_char(c))
}

pub open spec fn ascii_upper(s: Seq<char>) -> Seq<char> {
    s.map_values(|c: char| ascii_upper_char(c))
}

/// What `str::to_lowercase` returns for a string with these characters
/// (full Unicode lower-case mapping).
pub uninterp spec fn lowercase(s: Seq<char>) -> Seq<char>;

/// What `str::to_uppercase` returns for a string with these characters
/// (full Unicode upper-case mapping).
pub uninterp spec fn uppercase(s: Seq<char>) -> Seq<char>;

/// Calls `str::to_lowercase`. The result is named `lowercase`; for text
/// that is all ASCII it is the ASCII lower-casing (Unicode maps `A`-`Z` to
/// `a`-`z` and leaves the other ASCII characters alone).
#[verifier::external_body]
pub fn to_lowercase(s: &[char]) -> (r: Vec<char>)
    ensures
        r@ == lowercase(s@),
        is_ascii_seq(s@) ==> r@ == ascii_lower(s@),
{
    let t: String = s.iter().collect();
    t.to_lowercase().chars().collect()
}

/// Calls `str::to_uppercase`. The result is named `uppercase`; for text
/// that is all ASCII it is the ASCII upper-casing.
#[verifier::external_body]
pub fn to_uppercase(s: &[char]) -> (r: Vec<char>)
    ensures
        r@ == uppercase(s@),
        is_ascii_seq(s@) ==> r@ == ascii_upper(s@),
{
    let t: String = s.iter().collect();
    t.to_uppercase().chars().collect()
}

/// Lower-cased text as far as it is known here: the ASCII lower-casing for
/// ASCII text, else `lowercase`.
pub open spec fn lower_text(s: Seq<char>) -> Seq<char> {
    if is_ascii_seq(s) {
        ascii_lower(s)
    } else {
        lowercase(s)
    }
}

/// Upper-cased text as far as it is known here: the ASCII upper-casing for
/// ASCII text, else `uppercase`.
pub open spec fn upper_text(s: Seq<char>) -> Seq<char> {
    if is_ascii_seq(s) {
        ascii_upper(s)
    } else {
        uppercase(s)
    }
}

/// Whether the regular expression `pattern` (of the `regex` crate) matches
/// somewhere in `text`.
pub uninterp spec fn regex_matches(pattern: Seq<char>, text: Seq<char>) -> bool;

pub open spec fn is_ascii_digit(c: char) -> bool {
    48 <= (c as u32) && (c as u32) <= 57
}

pub open spec fn is_ascii_alnum_or_underscore(c: char) -> bool {
    is_ascii_digit(c) || (65 <= (c as u32) && (c as u32) <= 90) || (97 <= (c as u32) && (c as u32)
        <= 122) || c == '_'
}

/// A character of the class `\d` (Unicode `Nd`) of the `regex` crate.
pub open spec fn regex_digit(c: char) -> bool {
    regex_matches("^\\d$"@, seq![c])
}

/// A character of the class `\w` of the `regex` crate.
pub open spec fn regex_word(c: char) -> bool {
    regex_matches("^\\w$"@, seq![c])
}

/// For each character of `s`, whether the one-character text made of it
/// matches `pattern`, by `regex::Regex::is_match`. The pattern is one of
/// the two single-class patterns `^\d$` and `^\w$`, which compile. The crate
/// documents `\d` as `\p{Nd}` and `\w` as `\p{Alphabetic}`, `\p{M}`, `\d`,
/// `\p{Pc}` and `\p{Join_Control}`; among ASCII characters these are
/// exactly the digits, and the digits, letters and `_`.
#[verifier::external_body]
pub fn regex_char_flags(pattern: &str, s: &[char]) -> (r: Vec<bool>)
    requires
        pattern@ == "^\\d$"@ || pattern@ == "^\\w$"@,
    ensures
        r@.len() == s@.len(),
        forall|i: int|
            0 <= i < s@.len() ==> r@[i] == regex_matches(pattern@, seq![#[trigger] s@[i]]),
        pattern@ == "^\\d$"@ ==> forall|i: int|
            0 <= i < s@.len() && is_ascii_char(#[trigger] s@[i]) ==> (r@[i] <==> is_ascii_digit(
                s@[i],
            )),
        pattern@ == "^\\w$"@ ==> forall|i: int|
            0 <= i < s@.len() && is_ascii_char(#[trigger] s@[i]) ==> (r@[i]
                <==> is_ascii_alnum_or_underscore(s@[i])),
{
    let re = regex::Regex::new(pattern).unwrap();
    s.iter().map(|c| re.is_match(&c.to_string())).collect()
}

/// The value of a string of ASCII digits.
pub open spec fn digits_value(s: Seq<char>) -> nat
    decreases s.len(),
{
    if s.len() == 0 {
        0
    } else {
        digits_value(s.drop_last()) * 10 + ((s.last() as u32) - 48) as nat
    }
}

pub open spec fn all_ascii_digits(s: Seq<char>) -> bool {
    forall|i: int| 0 <= i < s.len() ==> is_ascii_digit(#[trigger] s[i])
}

/// `usize::from_str` on text short enough not to overflow: an optional `+`
/// and then one or more ASCII digits.
pub open spec fn parse_usize(s: Seq<char>) -> Option<nat> {
    if s.len() > 0 && all_ascii_digits(s) {
        Some(digits_value(s))
    } else if s.len() > 1 && s[0] == '+' && all_ascii_digits(s.drop_first()) {
        Some(digits_value(s.drop_first()))
    } else {
        None
    }
}

proof fn lemma_digits_value_bound(s: Seq<char>)
    requires
        all_ascii_digits(s),
    ensures
        digits_value(s) < pow10(s.len()),
    decreases s.len(),
{
    if s.len() > 0 {
        lemma_digits_value_bound(s.drop_last());
    }
}

proof fn lemma_pow10_mono(a: nat, b: nat)
    requires
        a <= b,
    ensures
        pow10(a) <= pow10(b),
    decreases b,
{
    if a < b {
        lemma_pow10_mono(a, (b - 1) as nat);
    }
}

pub open spec fn pow10(n: nat) -> nat
    decreases n,
{
    if n == 0 {
        1
    } else {
        10 * pow10((n - 1) as nat)
    }
}

fn digits_value_exec(s: &[char], from: usize) -> (r: u64)
    requires
        from <= s@.len(),
        s@.len() - from <= 4,
        all_ascii_digits(s@.subrange(from as int, s@.len() as int)),
    ensures
        r == digits_value(s@.subrange(from as int, s@.len() as int)),
{
    let mut v: u64 = 0;
    let mut i: usize = from;
    assert(s@.subrange(from as int, from as int) =~= Seq::<char>::empty());
    while i < s.len()
        invariant
            from <= i <= s@.len(),
            s@.len() - from <= 4,
            all_ascii_digits(s@.subrange(from as int, s@.len() as int)),
            v == digits_value(s@.subrange(from as int, i as int)),
            v < pow10((i - from) as nat),
        decreases s@.len() - i,
    {
        let ghost t = s@.subrange(from as int, i + 1);
        assert(t.drop_last() =~= s@.subrange(from as int, i as int));
        assert(s@.subrange(from as int, s@.len() as int)[i - from] == s@[i as int]);
        assert(pow10((i - from) as nat) <= 1000) by {
            reveal_with_fuel(pow10, 5);
        }
        let d = (s[i] as u32 - 48) as u64;
        v = v * 10 + d;
        assert(pow10((i + 1 - from) as nat) == 10 * pow10((i - from) as nat));
        i = i + 1;
    }
    assert(s@.subrange(from as int, i as int) =~= s@.subrange(from as int, s@.len() as int));
    v
}

/// `usize::from_str` on a text of at most four characters.
pub fn parse_usize_exec(s: &[char]) -> (r: Option<u64>)
    requires
        s@.len() <= 4,
    ensures
        match parse_usize(s@) {
            Some(v) => r == Some(v as u64) && v < 10000,
            None => r is None,
        },
{
    if s.len() == 0 {
        return None;
    }
    let start: usize = if s[0] == '+' && s.len() > 1 {
        1
    } else {
        0
    };
    let mut i: usize = start;
    while i < s.len()
        invariant
            start <= i <= s@.len(),
            s@.len() > 0,
            start == (if s@[0] == '+' && s@.len() > 1 {
                1usize
            } else {
                0usize
            }),
            forall|k: int| start <= k < i ==> is_ascii_digit(#[trigger] s@[k]),
        decreases s@.len() - i,
    {
        let u = s[i] as u32;
        if !(u >= 48 && u <= 57) {
            proof {
                if start == 0 {
                    assert(!is_ascii_digit(s@[i as int]));
                    assert(!all_ascii_digits(s@));
                    if s@.len() > 1 && s@[0] == '+' {
                        assert(false);
                    }
                } else {
                    assert(s@.drop_first()[i - 1] == s@[i as int]);
                    if i == 0 {
                    }
                    assert(!is_ascii_digit(s@[0]));
                    assert(!all_ascii_digits(s@));
                }
            }
            return None;
        }
        i = i + 1;
    }
    proof {
        reveal_with_fuel(pow10, 5);
    }
    if start == 0 {
        assert(s@.subrange(0, s@.len() as int) =~= s@);
        assert(all_ascii_digits(s@));
        proof {
            lemma_digits_value_bound(s@);
            lemma_pow10_mono(s@.len(), 4);
        }
        Some(digits_value_exec(s, 0))
    } else {
        assert(s@.subrange(1, s@.len() as int) =~= s@.drop_first());
        assert(!is_ascii_digit(s@[0]));
        assert(all_ascii_digits(s@.drop_first()));
        proof {
            lemma_digits_value_bound(s@.drop_first());
            lemma_pow10_mono(s@.drop_first().len(), 4);
        }
        Some(digits_value_exec(s, 1))
    }
}

/// The character of a decimal digit.
pub open spec fn digit_char(d: nat) -> char {
    ((48 + d) as u32) as char
}

/// The decimal notation of `n`, as `Display` writes an unsigned integer.
pub open spec fn decimal(n: nat) -> Seq<char>
    decreases n,
{
    if n < 10 {
        seq![digit_char(n)]
    } else {
        decimal(n / 10).push(digit_char(n % 10))
    }
}

pub fn digit_char_exec(d: u64) -> (c: char)
    requires
        d < 10,
    ensures
        c == digit_char(d as nat),
{
    let b: u8 = (48 + d) as u8;
    b as char
}

pub fn decimal_exec(n: u64) -> (r: Vec<char>)
    ensures
        r@ == decimal(n as nat),
    decreases n,
{
    if n < 10 {
        let mut v: Vec<char> = Vec::new();
        v.push(digit_char_exec(n));
        assert(v@ =~= seq![digit_char(n as nat)]);
        v
    } else {
        let mut v = decimal_exec(n / 10);
        v.push(digit_char_exec(n % 10));
        v
    }
}

/// `format!("{:0>w$}", s)`: `s` padded on the left with zeros to width `w`.
pub open spec fn pad_zero(s: Seq<char>, w: nat) -> Seq<char> {
    if s.len() >= w {
        s
    } else {
        Seq::new((w - s.len()) as nat, |i: int| '0') + s
    }
}

pub fn pad_zero_exec(s: &[char], w: usize) -> (r: Vec<char>)
    ensures
        r@ == pad_zero(s@, w as nat),
{
    let mut r: Vec<char> = Vec::new();
    if s.len() < w {
        let n = w - s.len();
        let mut k: usize = 0;
        while k < n
            invariant
                k <= n,
                r@ == Seq::new(k as nat, |i: int| '0'),
            decreases n - k,
        {
            r.push('0');
            assert(r@ =~= Seq::new((k + 1) as nat, |i: int| '0'));
            k = k + 1;
        }
    }
    push_all(&mut r, s);
    proof {
        if s@.len() >= w {
            assert(r@ =~= s@);
        }
    }
    r
}

/// `[T]::join`: the parts with `sep` between each two.
pub open spec fn join(parts: Seq<Seq<char>>, sep: Seq<char>) -> Seq<char>
    decreases parts.len(),
{
    if parts.len() == 0 {
        seq![]
    } else if parts.len() == 1 {
        parts[0]
    } else {
        join(parts.drop_last(), sep) + sep + parts.last()
    }
}

pub fn join_exec(parts: &Vec<Vec<char>>, sep: &[char]) -> (r: Vec<char>)
    ensures
        r@ == join(views(parts@), sep@),
{
    let mut r: Vec<char> = Vec::new();
    let mut i: usize = 0;
    while i < parts.len()
        invariant
            i <= parts@.len(),
            r@ == join(views(parts@).subrange(0, i as int), sep@),
        decreases parts@.len() - i,
    {
        let ghost p = views(parts@).subrange(0, i + 1);
        assert(p.drop_last() =~= views(parts@).subrange(0, i as int));
        if i > 0 {
            push_all(&mut r, sep);
        }
        push_all(&mut r, parts[i].as_slice());
        proof {
            if i == 0 {
                assert(r@ =~= p[0]);
            }
        }
        i = i + 1;
    }
    assert(views(parts@).subrange(0, parts@.len() as int) =~= views(parts@));
    r
}

/// How many times `c` occurs in `s`.
pub open spec fn count_char(s: Seq<char>, c: char) -> nat
    decreases s.len(),
{
    if s.len() == 0 {
        0
    } else {
        count_char(s.drop_last(), c) + if s.last() == c {
            1nat
        } else {
            0nat
        }
    }
}

pub fn count_char_exec(s: &[char], c: char) -> (r: usize)
    ensures
        r == count_char(s@, c),
{
    let mut n: usize = 0;
    let mut i: usize = 0;
    assert(s@.subrange(0, 0) =~= Seq::<char>::empty());
    while i < s.len()
        invariant
            i <= s@.len(),
            n == count_char(s@.subrange(0, i as int), c),
            n <= i,
        decreases s@.len() - i,
    {
        assert(s@.subrange(0, i + 1).drop_last() =~= s@.subrange(0, i as int));
        if s[i] == c {
            n = n + 1;
        }
        i = i + 1;
    }
    assert(s@.subrange(0, s@.len() as int) =~= s@);
    n
}


/// The first index of the character `c` in `s`.
pub fn find_char_exec(s: &[char], c: char) -> (r: Option<usize>)
    ensures
        match r {
            Some(i) => find(s@, seq![c]) == Some(i as int),
            None => find(s@, seq![c]) is None,
        },
{
    let mut i: usize = 0;
    while i < s.len()
        invariant
            i <= s@.len(),
            forall|k: int| 0 <= k < i ==> s@[k] != c,
        decreases s@.len() - i,
    {
        if s[i] == c {
            proof {
                assert forall|k: int| 0 <= k < i implies !occurs_at(s@, seq![c], k) by {
                    lemma_occurs_single(s@, c, k);
                }
                lemma_occurs_single(s@, c, i as int);
                lemma_find_from_first(s@, seq![c], 0, i as int);
            }
            return Some(i);
        }
        i = i + 1;
    }
    proof {
        assert forall|k: int| 0 <= k implies !occurs_at(s@, seq![c], k) by {
            if k < s@.len() {
                lemma_occurs_single(s@, c, k);
            }
        }
        lemma_find_from_none(s@, seq![c], 0);
    }
    None
}

/// Whether all of `s[from..to]` are ASCII digits.
pub fn all_ascii_digits_exec(s: &[char], from: usize, to: usize) -> (r: bool)
    requires
        from <= to <= s@.len(),
    ensures
        r == all_ascii_digits(s@.subrange(from as int, to as int)),
{
    let mut i: usize = from;
    while i < to
        invariant
            from <= i <= to <= s@.len(),
            forall|k: int| from <= k < i ==> is_ascii_digit(#[trigger] s@[k]),
        decreases to - i,
    {
        let u = s[i] as u32;
        if !(48 <= u && u <= 57) {
            assert(s@.subrange(from as int, to as int)[i - from] == s@[i as int]);
            return false;
        }
        i = i + 1;
    }
    assert forall|k: int| 0 <= k < to - from implies is_ascii_digit(
        #[trigger] s@.subrange(from as int, to as int)[k],
    ) by {
        assert(s@.subrange(from as int, to as int)[k] == s@[from + k]);
    }
    true
}

pub fn ascii_lower_exec(s: &[char]) -> (r: Vec<char>)
    ensures
        r@ == ascii_lower(s@),
{
    let mut r: Vec<char> = Vec::new();
    let mut i: usize = 0;
    while i < s.len()
        invariant
            i <= s@.len(),
            r@ == ascii_lower(s@.subrange(0, i as int)),
        decreases s@.len() - i,
    {
        let c = s[i];
        let u = c as u32;
        let l = if 65 <= u && u <= 90 {
            ((u + 32) as u8) as char
        } else {
            c
        };
        assert(l == ascii_lower_char(c));
        r.push(l);
        assert(r@ =~= ascii_lower(s@.subrange(0, i + 1)));
        i = i + 1;
    }
    assert(s@.subrange(0, s@.len() as int) =~= s@);
    r
}

/// Whether two character sequences are equal.
pub fn eq_chars(a: &[char], b: &[char]) -> (r: bool)
    ensures
        r == (a@ == b@),
{
    if a.len() != b.len() {
        return false;
    }
    let mut i: usize = 0;
    while i < a.len()
        invariant
            i <= a@.len(),
            a@.len() == b@.len(),
            forall|k: int| 0 <= k < i ==> a@[k] == b@[k],
        decreases a@.len() - i,
    {
        if a[i] != b[i] {
            return false;
        }
        i = i + 1;
    }
    assert(a@ =~= b@);
    true
}

/// Whether the characters equal those of the string `w`.
pub fn eq_str(a: &[char], w: &str) -> (r: bool)
    ensures
        r == (a@ == w@),
{
    let wc = chars_of(w);
    eq_chars(a, wc.as_slice())
}


/// The character sequence of an optional string.
pub open spec fn opt_str(o: Option<String>) -> Option<Seq<char>> {
    match o {
        Some(s) => Some(s@),
        None => None,
    }
}

pub fn clone_opt_string(o: &Option<String>) -> (r: Option<String>)
    ensures
        opt_str(r) == opt_str(*o),
{
    match o {
        Some(s) => Some(s.clone()),
        None => None,
    }
}

/// An owned copy of a string slice.
pub fn owned(s: &str) -> (r: String)
    ensures
        r@ == s@,
{
    s.to_owned()
}


/// The text of the error `std::str::from_utf8` reports for these bytes.
pub uninterp spec fn utf8_error_text(bytes: Seq<u8>) -> Seq<char>;

/// What `String::from_utf8_lossy` makes of these bytes.
pub uninterp spec fn utf8_lossy(bytes: Seq<u8>) -> Seq<char>;

/// Calls `std::str::from_utf8`: the characters the bytes encode when they
/// are valid UTF-8, else the text of the error, which is named
/// `utf8_error_text`.
#[verifier::external_body]
pub fn utf8_decode(bytes: &[u8]) -> (r: Result<String, String>)
    ensures
        match r {
            Ok(s) => vstd::utf8::valid_utf8(bytes@) && s@ == vstd::utf8::decode_utf8(bytes@),
            Err(m) => !vstd::utf8::valid_utf8(bytes@) && m@ == utf8_error_text(bytes@),
        },
{
    match std::str::from_utf8(bytes) {
        Ok(s) => Ok(s.to_string()),
        Err(e) => Err(e.to_string()),
    }
}

/// Calls `String::from_utf8_lossy`. The result is named `utf8_lossy`; for
/// valid UTF-8 it is the text the bytes encode.
#[verifier::external_body]
pub fn utf8_decode_lossy(bytes: &[u8]) -> (r: String)
    ensures
        r@ == utf8_lossy(bytes@),
        vstd::utf8::valid_utf8(bytes@) ==> r@ == vstd::utf8::decode_utf8(bytes@),
{
    String::from_utf8_lossy(bytes).into_owned()
}


/// Texts that differ only in their middle part are equal only when those
/// parts are.
pub proof fn lemma_middle_injective(p: Seq<char>, x: Seq<char>, y: Seq<char>, q: Seq<char>)
    ensures
        x != y ==> p + x + q != p + y + q,
{
    if p + x + q == p + y + q {
        assert((p + x + q).len() == (p + y + q).len());
        assert(x =~= (p + x + q).subrange(p.len() as int, p.len() + x.len() as int));
        assert(y =~= (p + y + q).subrange(p.len() as int, p.len() + y.len() as int));
    }
}


/// A text holds what occurs in it.
pub proof fn lemma_occurs_gives_contains(s: Seq<char>, p: Seq<char>, i: int)
    requires
        occurs_at(s, p, i),
    ensures
        contains(s, p),
{
    lemma_found_from(s, p, 0, i);
}

proof fn lemma_found_from(s: Seq<char>, p: Seq<char>, j: int, i: int)
    requires
        0 <= j <= i,
        occurs_at(s, p, i),
    ensures
        find_from(s, p, j) is Some,
    decreases i - j,
{
    if j < i && !occurs_at(s, p, j) {
        lemma_found_from(s, p, j + 1, i);
    }
}

} // verus!
