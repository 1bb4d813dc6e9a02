//! Reading of OFX (Open Financial Exchange) statements, in the 2.x XML form
//! and the older SGML form: the account, the statement period and the
//! transactions of the `STMTTRN` blocks.

use vstd::prelude::*;
use crate::amount::{Amount, AmountV, display_spec, fixed2_spec, parse_float, parse_float_spec, zero_v};
use crate::bank_csv::str_views;
use crate::errors::ImportError;
use crate::hashing::{sha256_hex, sha256_hex_spec};
use crate::text::{
    chars_of, contains, contains_str, copy_range, find, find_from, find_from_exec, is_ascii_digit,
    is_ws, is_ws_char, lemma_find_from_bounds, occurs_at, occurs_at_exec, opt_str, owned, push_all,
    push_str, replace_all, replace_exec, string_of, trim, trim_chars, utf8_decode_lossy, utf8_lossy,
    lemma_middle_injective,
};

verus! {

/// A tag name as OFX writes them: ASCII letters and digits.
pub open spec fn plain_tag(tag: Seq<char>) -> bool {
    tag.len() > 0 && forall|k: int|
        0 <= k < tag.len() ==> {
            let u = #[trigger] tag[k] as u32;
            (48 <= u <= 57) || (65 <= u <= 90) || (97 <= u <= 122)
        }
}

/// `<TAG>`.
pub open spec fn open_tag(tag: Seq<char>) -> Seq<char> {
    seq!['<'] + tag + seq!['>']
}

/// `</TAG>`.
pub open spec fn close_tag(tag: Seq<char>) -> Seq<char> {
    seq!['<', '/'] + tag + seq!['>']
}

/// The value of an XML element `<TAG>value</TAG>` whose opening tag is at
/// `p`: the text up to the next `<`, which must be non-empty and followed
/// by the closing tag; trimmed.
pub open spec fn xml_value_at(c: Seq<char>, tag: Seq<char>, p: int) -> Option<Seq<char>> {
    let o = open_tag(tag);
    if occurs_at(c, o, p) {
        let start = p + o.len();
        match find_from(c, seq!['<'], start) {
            Some(q) => if q > start && occurs_at(c, close_tag(tag), q) {
                Some(trim(c.subrange(start, q)))
            } else {
                None
            },
            None => None,
        }
    } else {
        None
    }
}

/// The value of the first XML element `<TAG>value</TAG>` that starts at or
/// after `p`.
pub open spec fn xml_search(c: Seq<char>, tag: Seq<char>, p: int) -> Option<Seq<char>>
    decreases c.len() + 1 - p,
{
    if p < 0 || p > c.len() {
        None
    } else {
        match xml_value_at(c, tag, p) {
            Some(v) => Some(v),
            None => xml_search(c, tag, p + 1),
        }
    }
}

/// Where an SGML value that starts the text `rest` ends: at the first line
/// feed, else at the first double space, else at the end.
pub open spec fn sgml_end(rest: Seq<char>) -> int {
    match find(rest, seq!['\n']) {
        Some(e) => e,
        None => match find(rest, seq![' ', ' ']) {
            Some(e) => e,
            None => rest.len() as int,
        },
    }
}

/// The value of an SGML element `<TAG>value` (with no closing tag) at the
/// first `<TAG>`: trimmed, and only when not empty.
pub open spec fn sgml_value(c: Seq<char>, tag: Seq<char>) -> Option<Seq<char>> {
    let o = open_tag(tag);
    match find(c, o) {
        Some(s) => {
            let rest = c.subrange(s + o.len(), c.len() as int);
            let v = trim(rest.subrange(0, sgml_end(rest)));
            if v.len() > 0 {
                Some(v)
            } else {
                None
            }
        },
        None => None,
    }
}

/// The value of the element `tag`: the first XML element `<TAG>v</TAG>`,
/// else the SGML element at the first `<TAG>`.
pub open spec fn extract_tag_spec(c: Seq<char>, tag: Seq<char>) -> Option<Seq<char>> {
    match xml_search(c, tag, 0) {
        Some(v) => Some(v),
        None => sgml_value(c, tag),
    }
}

pub open spec fn opt_chars(o: Option<Vec<char>>) -> Option<Seq<char>> {
    match o {
        Some(v) => Some(v@),
        None => None,
    }
}

fn tag_brackets(tag: &[char]) -> (r: (Vec<char>, Vec<char>))
    ensures
        r.0@ == open_tag(tag@),
        r.1@ == close_tag(tag@),
{
    let mut o: Vec<char> = Vec::new();
    o.push('<');
    push_all(&mut o, tag);
    o.push('>');
    let mut cl: Vec<char> = Vec::new();
    cl.push('<');
    cl.push('/');
    push_all(&mut cl, tag);
    cl.push('>');
    assert(o@ =~= open_tag(tag@));
    assert(cl@ =~= close_tag(tag@));
    (o, cl)
}

fn xml_value_at_exec(c: &[char], o: &[char], cl: &[char], tag: Ghost<Seq<char>>, p: usize) -> (r:
    Option<Vec<char>>)
    requires
        o@ == open_tag(tag@),
        cl@ == close_tag(tag@),
    ensures
        opt_chars(r) == xml_value_at(c@, tag@, p as int),
{
    if !occurs_at_exec(c, o, p) {
        return None;
    }
    let n = c.len();
    assert(p + o@.len() <= n);
    let start = p + o.len();
    let lt = vec!['<'];
    assert(lt@ =~= seq!['<']);
    proof {
        lemma_find_from_bounds(c@, seq!['<'], start as int);
    }
    match find_from_exec(c, lt.as_slice(), start) {
        Some(q) => {
            if q > start && occurs_at_exec(c, cl, q) {
                let v = copy_range(c, start, q);
                Some(trim_chars(v.as_slice()))
            } else {
                None
            }
        },
        None => None,
    }
}

fn sgml_value_exec(c: &[char], o: &[char], tag: Ghost<Seq<char>>) -> (r: Option<Vec<char>>)
    requires
        o@ == open_tag(tag@),
    ensures
        opt_chars(r) == sgml_value(c@, tag@),
{
    proof {
        lemma_find_from_bounds(c@, o@, 0);
    }
    match find_from_exec(c, o, 0) {
        Some(s) => {
            let n = c.len();
            assert(s + o@.len() <= n);
            let rest = copy_range(c, s + o.len(), c.len());
            let nl = vec!['\n'];
            let two = vec![' ', ' '];
            assert(nl@ =~= seq!['\n']);
            assert(two@ =~= seq![' ', ' ']);
            proof {
                lemma_find_from_bounds(rest@, seq!['\n'], 0);
                lemma_find_from_bounds(rest@, seq![' ', ' '], 0);
            }
            let end = match find_from_exec(rest.as_slice(), nl.as_slice(), 0) {
                Some(e) => e,
                None => match find_from_exec(rest.as_slice(), two.as_slice(), 0) {
                    Some(e) => e,
                    None => rest.len(),
                },
            };
            let head = copy_range(rest.as_slice(), 0, end);
            let v = trim_chars(head.as_slice());
            if v.len() > 0 {
                Some(v)
            } else {
                None
            }
        },
        None => None,
    }
}

/// The value of the element `tag` in `c` (see `extract_tag_spec`).
pub fn tag_value(c: &[char], tag: &[char]) -> (r: Option<Vec<char>>)
    ensures
        opt_chars(r) == extract_tag_spec(c@, tag@),
{
    let (o, cl) = tag_brackets(tag);
    let mut p: usize = 0;
    while p < c.len()
        invariant
            o@ == open_tag(tag@),
            cl@ == close_tag(tag@),
            p <= c@.len(),
            xml_search(c@, tag@, 0) == xml_search(c@, tag@, p as int),
        decreases c@.len() - p,
    {
        match xml_value_at_exec(c, o.as_slice(), cl.as_slice(), Ghost(tag@), p) {
            Some(v) => {
                return Some(v);
            },
            None => {},
        }
        p = p + 1;
    }
    match xml_value_at_exec(c, o.as_slice(), cl.as_slice(), Ghost(tag@), c.len()) {
        Some(v) => {
            return Some(v);
        },
        None => {},
    }
    assert(xml_search(c@, tag@, c@.len() + 1int) is None);
    sgml_value_exec(c, o.as_slice(), Ghost(tag@))
}

/// The value of the element `tag` of an OFX text: the first XML element
/// `<TAG>value</TAG>` (the value non-empty, without `<`, and trimmed), else
/// the SGML element `<TAG>value` at the first `<TAG>`, its value running to
/// the end of the line, to a double space or to the end of the text,
/// trimmed, and only when not empty.
pub fn extract_tag(content: &str, tag: &str) -> (r: Option<String>)
    requires
        plain_tag(tag@),
    ensures
        opt_str(r) == extract_tag_spec(content@, tag@),
{
    let c = chars_of(content);
    let t = chars_of(tag);
    match tag_value(c.as_slice(), t.as_slice()) {
        Some(v) => Some(string_of(v.as_slice())),
        None => None,
    }
}

/// The ASCII digits of `s`, in order.
pub open spec fn ascii_digits_of(s: Seq<char>) -> Seq<char>
    decreases s.len(),
{
    if s.len() == 0 {
        s
    } else if is_ascii_digit(s.last()) {
        ascii_digits_of(s.drop_last()).push(s.last())
    } else {
        ascii_digits_of(s.drop_last())
    }
}

/// An OFX date (`YYYYMMDD`, possibly followed by a time) in `YYYY-MM-DD`
/// form, from its first eight ASCII digits; the text itself when it has
/// fewer.
pub open spec fn normalize_ofx_date_spec(s: Seq<char>) -> Seq<char> {
    let d = ascii_digits_of(s);
    if d.len() >= 8 {
        d.subrange(0, 4) + seq!['-'] + d.subrange(4, 6) + seq!['-'] + d.subrange(6, 8)
    } else {
        s
    }
}

fn ascii_digits_exec(s: &[char]) -> (r: Vec<char>)
    ensures
        r@ == ascii_digits_of(s@),
{
    let mut r: Vec<char> = Vec::new();
    let mut i: usize = 0;
    assert(s@.subrange(0, 0) =~= Seq::<char>::empty());
    while i < s.len()
        invariant
            i <= s@.len(),
            r@ == ascii_digits_of(s@.subrange(0, i as int)),
        decreases s@.len() - i,
    {
        assert(s@.subrange(0, i + 1).drop_last() =~= s@.subrange(0, i as int));
        let c = s[i];
        let u = c as u32;
        if 48 <= u && u <= 57 {
            r.push(c);
        }
        i = i + 1;
    }
    assert(s@.subrange(0, s@.len() as int) =~= s@);
    r
}

fn normalize_chars(s: &[char]) -> (r: Vec<char>)
    ensures
        r@ == normalize_ofx_date_spec(s@),
{
    let d = ascii_digits_exec(s);
    if d.len() >= 8 {
        let mut r = copy_range(d.as_slice(), 0, 4);
        r.push('-');
        let m = copy_range(d.as_slice(), 4, 6);
        push_all(&mut r, m.as_slice());
        r.push('-');
        let dd = copy_range(d.as_slice(), 6, 8);
        push_all(&mut r, dd.as_slice());
        assert(r@ =~= normalize_ofx_date_spec(s@));
        r
    } else {
        let r = copy_range(s, 0, s.len());
        assert(r@ =~= s@);
        r
    }
}

/// An OFX date in `YYYY-MM-DD` form (see `normalize_ofx_date_spec`).
pub fn normalize_ofx_date(date_str: &str) -> (r: String)
    ensures
        r@ == normalize_ofx_date_spec(date_str@),
{
    let c = chars_of(date_str);
    let r = normalize_chars(c.as_slice());
    string_of(r.as_slice())
}

/// The amount of a `TRNAMT` value: trimmed, without commas, in the syntax
/// of a float; zero when it cannot be read.
pub open spec fn parse_ofx_amount_spec(s: Seq<char>) -> AmountV {
    match parse_float_spec(replace_all(trim(s), seq![','], seq![])) {
        Some(a) => a,
        None => zero_v(),
    }
}

fn ofx_amount_chars(s: &[char]) -> (r: Amount)
    ensures
        r@ == parse_ofx_amount_spec(s@),
{
    let t = trim_chars(s);
    let comma = vec![','];
    let nothing: Vec<char> = Vec::new();
    assert(comma@ =~= seq![',']);
    assert(nothing@ =~= Seq::<char>::empty());
    let c = replace_exec(t.as_slice(), comma.as_slice(), nothing.as_slice());
    match parse_float(c.as_slice()) {
        Some(a) => a,
        None => Amount::zero(),
    }
}

/// Reads the amount of a `TRNAMT` value (see `parse_ofx_amount_spec`).
pub fn parse_ofx_amount(s: &str) -> (r: Amount)
    ensures
        r@ == parse_ofx_amount_spec(s@),
{
    let c = chars_of(s);
    ofx_amount_chars(c.as_slice())
}

/// The identifier given to a transaction without `FITID`: the first 32 hex
/// digits of the SHA-256 fingerprint of `input`.
pub open spec fn fitid_fallback_spec(input: Seq<char>) -> Seq<char> {
    sha256_hex_spec(input).subrange(0, 32)
}

fn fitid_fallback_chars(input: &[char]) -> (r: Vec<char>)
    ensures
        r@ == fitid_fallback_spec(input@),
        r@.len() == 32,
{
    let h = sha256_hex(input);
    copy_range(h.as_slice(), 0, 32)
}

/// The identifier given to a transaction without `FITID` (see
/// `fitid_fallback_spec`).
pub fn generate_fitid_fallback(input: &str) -> (r: String)
    ensures
        r@ == fitid_fallback_spec(input@),
        r@.len() == 32,
{
    let c = chars_of(input);
    let r = fitid_fallback_chars(c.as_slice());
    string_of(r.as_slice())
}

/// `OFX|{account}|{fitid}|{date}|{amount:.2}`.
pub open spec fn ofx_key_text(
    account_id: Seq<char>,
    fitid: Seq<char>,
    date: Seq<char>,
    amount: AmountV,
) -> Seq<char> {
    "OFX|"@ + account_id + "|"@ + fitid + "|"@ + date + "|"@ + fixed2_spec(amount)
}

/// The idempotency key of an OFX transaction: the SHA-256 fingerprint, in
/// lower-case hex, of its key text (see `ofx_key_text`).
pub fn generate_ofx_idempotency_key(account_id: &str, fitid: &str, date: &str, amount: &Amount) -> (r:
    String)
    ensures
        r@ == sha256_hex_spec(ofx_key_text(account_id@, fitid@, date@, amount@)),
        r@.len() == 64,
{
    let mut t = chars_of("OFX|");
    push_str(&mut t, account_id);
    push_str(&mut t, "|");
    push_str(&mut t, fitid);
    push_str(&mut t, "|");
    push_str(&mut t, date);
    push_str(&mut t, "|");
    let f = amount.fixed2_chars();
    push_all(&mut t, f.as_slice());
    let h = sha256_hex(t.as_slice());
    string_of(h.as_slice())
}

/// Character equality of the `regex` crate's case-insensitive mode for a
/// pattern character that is `<`, `/` or an upper-case ASCII letter other
/// than `K`: the character itself, its lower-case form, and for `S` also
/// the long s (U+017F), which Unicode folds to `s`.
pub open spec fn fold_eq(a: char, p: char) -> bool {
    a == p || (65 <= (p as u32) <= 90 && (a as u32) == (p as u32) + 32) || (p == 'S' && (a as u32)
        == 0x17f)
}

/// Whether the pattern character `p` matches `a`, with or without regard
/// to case.
pub open spec fn char_match(a: char, p: char, ci: bool) -> bool {
    if ci {
        fold_eq(a, p)
    } else {
        a == p
    }
}

/// `name` matches `c` at `i`.
pub open spec fn name_at(c: Seq<char>, i: int, name: Seq<char>, ci: bool) -> bool {
    0 <= i && i + name.len() <= c.len() && forall|k: int|
        0 <= k < name.len() ==> char_match(#[trigger] c[i + k], name[k], ci)
}

/// The first index at or after `i` that does not hold white space (`\s`).
pub open spec fn skip_ws(c: Seq<char>, i: int) -> int
    decreases c.len() - i,
{
    if 0 <= i < c.len() && is_ws(c[i]) {
        skip_ws(c, i + 1)
    } else {
        i
    }
}

/// A tag `name\s*>` at `i`: the index after its `>`.
pub open spec fn tag_end(c: Seq<char>, i: int, name: Seq<char>, ci: bool) -> Option<int> {
    if name_at(c, i, name, ci) {
        let j = skip_ws(c, i + name.len());
        if j < c.len() && c[j] == '>' {
            Some(j + 1)
        } else {
            None
        }
    } else {
        None
    }
}

/// The lazy match of a body that starts at `i`: the first index `q` at or
/// after `i` where the closing tag `close\s*>` matches, with the index after
/// it; the body may not hold a line feed unless `any`.
pub open spec fn lazy_close(c: Seq<char>, i: int, close: Seq<char>, ci: bool, any: bool) -> Option<
    (int, int),
>
    decreases c.len() + 1 - i,
{
    if i < 0 || i > c.len() {
        None
    } else {
        match tag_end(c, i, close, ci) {
            Some(e) => Some((i, e)),
            None => if i < c.len() && (any || c[i] != '\n') {
                lazy_close(c, i + 1, close, ci, any)
            } else {
                None
            },
        }
    }
}

/// A block `open\s*>body close\s*>` that starts at `p`, its body matched
/// lazily: where the body starts and ends, and where the block ends.
pub open spec fn block_at(
    c: Seq<char>,
    p: int,
    open: Seq<char>,
    close: Seq<char>,
    ci: bool,
    any: bool,
) -> Option<(int, int, int)> {
    match tag_end(c, p, open, ci) {
        Some(b) => match lazy_close(c, b, close, ci, any) {
            Some((q, e)) => Some((b, q, e)),
            None => None,
        },
        None => None,
    }
}

/// The leftmost block that starts at or after `p`.
pub open spec fn first_block(
    c: Seq<char>,
    p: int,
    open: Seq<char>,
    close: Seq<char>,
    ci: bool,
    any: bool,
) -> Option<(int, int, int)>
    decreases c.len() + 1 - p,
{
    if p < 0 || p > c.len() {
        None
    } else {
        match block_at(c, p, open, close, ci, any) {
            Some(r) => Some(r),
            None => first_block(c, p + 1, open, close, ci, any),
        }
    }
}

pub proof fn lemma_skip_ws(c: Seq<char>, i: int)
    requires
        0 <= i <= c.len(),
    ensures
        i <= skip_ws(c, i) <= c.len(),
    decreases c.len() - i,
{
    if i < c.len() && is_ws(c[i]) {
        lemma_skip_ws(c, i + 1);
    }
}

pub proof fn lemma_tag_end(c: Seq<char>, i: int, name: Seq<char>, ci: bool)
    ensures
        tag_end(c, i, name, ci) matches Some(e) ==> 0 <= i && i + name.len() < e <= c.len(),
{
    if name_at(c, i, name, ci) {
        lemma_skip_ws(c, i + name.len());
    }
}

pub proof fn lemma_lazy_close(c: Seq<char>, i: int, close: Seq<char>, ci: bool, any: bool)
    ensures
        lazy_close(c, i, close, ci, any) matches Some((q, e)) ==> i <= q && q + close.len() < e
            <= c.len(),
    decreases c.len() + 1 - i,
{
    if 0 <= i <= c.len() {
        lemma_tag_end(c, i, close, ci);
        if tag_end(c, i, close, ci) is None && i < c.len() && (any || c[i] != '\n') {
            lemma_lazy_close(c, i + 1, close, ci, any);
        }
    }
}

pub proof fn lemma_first_block(
    c: Seq<char>,
    p: int,
    open: Seq<char>,
    close: Seq<char>,
    ci: bool,
    any: bool,
)
    requires
        open.len() > 0,
    ensures
        first_block(c, p, open, close, ci, any) matches Some((b, q, e)) ==> 0 <= p < b <= q < e
            <= c.len(),
    decreases c.len() + 1 - p,
{
    if 0 <= p <= c.len() {
        lemma_tag_end(c, p, open, ci);
        match tag_end(c, p, open, ci) {
            Some(b) => lemma_lazy_close(c, b, close, ci, any),
            None => {},
        }
        if block_at(c, p, open, close, ci, any) is None {
            lemma_first_block(c, p + 1, open, close, ci, any);
        }
    }
}

/// `<BANKTRANLIST`.
pub open spec fn tranlist_open() -> Seq<char> {
    seq!['<', 'B', 'A', 'N', 'K', 'T', 'R', 'A', 'N', 'L', 'I', 'S', 'T']
}

/// `</BANKTRANLIST`.
pub open spec fn tranlist_close() -> Seq<char> {
    seq!['<', '/', 'B', 'A', 'N', 'K', 'T', 'R', 'A', 'N', 'L', 'I', 'S', 'T']
}

/// `<STMTTRN`.
pub open spec fn stmttrn_open() -> Seq<char> {
    seq!['<', 'S', 'T', 'M', 'T', 'T', 'R', 'N']
}

/// `</STMTTRN`.
pub open spec fn stmttrn_close() -> Seq<char> {
    seq!['<', '/', 'S', 'T', 'M', 'T', 'T', 'R', 'N']
}

/// The text searched for transactions: the body of the first
/// `<BANKTRANLIST>` block that is closed on its line, else the whole text.
pub open spec fn tranlist_of(c: Seq<char>) -> Seq<char> {
    match first_block(c, 0, tranlist_open(), tranlist_close(), false, false) {
        Some((b, q, _)) => c.subrange(b, q),
        None => c,
    }
}

/// The bodies of the successive `<STMTTRN>` blocks from `p` on, tags
/// matched without regard to case, each block searched for after the end
/// of the previous one.
pub open spec fn stmttrn_blocks(c: Seq<char>, p: int) -> Seq<Seq<char>>
    decreases c.len() + 1 - p,
{
    if p < 0 || p > c.len() {
        seq![]
    } else {
        match first_block(c, p, stmttrn_open(), stmttrn_close(), true, true) {
            Some((b, q, e)) => {
                proof {
                    lemma_first_block(c, p, stmttrn_open(), stmttrn_close(), true, true);
                }
                seq![c.subrange(b, q)] + stmttrn_blocks(c, e)
            },
            None => seq![],
        }
    }
}

fn fold_eq_exec(a: char, p: char) -> (r: bool)
    ensures
        r == fold_eq(a, p),
{
    let au = a as u32;
    let pu = p as u32;
    a == p || (65 <= pu && pu <= 90 && au == pu + 32) || (p == 'S' && au == 0x17f)
}

fn name_at_exec(c: &[char], i: usize, name: &[char], ci: bool) -> (r: bool)
    ensures
        r == name_at(c@, i as int, name@, ci),
{
    let n = c.len();
    if name.len() > n || i > n - name.len() {
        return false;
    }
    let mut k: usize = 0;
    while k < name.len()
        invariant
            k <= name@.len(),
            n == c@.len(),
            i + name@.len() <= n,
            forall|j: int| 0 <= j < k ==> char_match(#[trigger] c@[i + j], name@[j], ci),
        decreases name@.len() - k,
    {
        let ok = if ci {
            fold_eq_exec(c[i + k], name[k])
        } else {
            c[i + k] == name[k]
        };
        if !ok {
            assert(!char_match(c@[i + k], name@[k as int], ci));
            return false;
        }
        k = k + 1;
    }
    true
}

fn skip_ws_exec(c: &[char], i: usize) -> (r: usize)
    requires
        i <= c@.len(),
    ensures
        r == skip_ws(c@, i as int),
{
    let mut j = i;
    while j < c.len() && is_ws_char(c[j])
        invariant
            i <= j <= c@.len(),
            skip_ws(c@, i as int) == skip_ws(c@, j as int),
        decreases c@.len() - j,
    {
        j = j + 1;
    }
    j
}

fn tag_end_exec(c: &[char], i: usize, name: &[char], ci: bool) -> (r: Option<usize>)
    ensures
        match r {
            Some(e) => tag_end(c@, i as int, name@, ci) == Some(e as int),
            None => tag_end(c@, i as int, name@, ci) is None,
        },
{
    if !name_at_exec(c, i, name, ci) {
        return None;
    }
    let n = c.len();
    assert(i + name@.len() <= n);
    let j = skip_ws_exec(c, i + name.len());
    if j < c.len() && c[j] == '>' {
        Some(j + 1)
    } else {
        None
    }
}

fn lazy_close_exec(c: &[char], i: usize, close: &[char], ci: bool, any: bool) -> (r: Option<
    (usize, usize),
>)
    requires
        i <= c@.len(),
    ensures
        match r {
            Some((q, e)) => lazy_close(c@, i as int, close@, ci, any) == Some((q as int, e as int)),
            None => lazy_close(c@, i as int, close@, ci, any) is None,
        },
{
    let mut j = i;
    while j <= c.len()
        invariant
            i <= j <= c@.len(),
            lazy_close(c@, i as int, close@, ci, any) == lazy_close(c@, j as int, close@, ci, any),
        decreases c@.len() - j,
    {
        match tag_end_exec(c, j, close, ci) {
            Some(e) => {
                return Some((j, e));
            },
            None => {},
        }
        if j < c.len() && (any || c[j] != '\n') {
            j = j + 1;
        } else {
            return None;
        }
    }
    None
}

fn first_block_exec(c: &[char], p: usize, open: &[char], close: &[char], ci: bool, any: bool) -> (r:
    Option<(usize, usize, usize)>)
    requires
        p <= c@.len(),
    ensures
        match r {
            Some((b, q, e)) => first_block(c@, p as int, open@, close@, ci, any) == Some(
                (b as int, q as int, e as int),
            ),
            None => first_block(c@, p as int, open@, close@, ci, any) is None,
        },
{
    let mut i = p;
    loop
        invariant
            p <= i <= c@.len(),
            first_block(c@, p as int, open@, close@, ci, any) == first_block(
                c@,
                i as int,
                open@,
                close@,
                ci,
                any,
            ),
        decreases c@.len() - i,
    {
        match tag_end_exec(c, i, open, ci) {
            Some(b) => {
                proof {
                    lemma_tag_end(c@, i as int, open@, ci);
                }
                match lazy_close_exec(c, b, close, ci, any) {
                    Some((q, e)) => {
                        return Some((b, q, e));
                    },
                    None => {},
                }
            },
            None => {},
        }
        if i == c.len() {
            assert(first_block(c@, i + 1, open@, close@, ci, any) is None);
            return None;
        }
        i = i + 1;
    }
}

/// A transaction of an OFX statement.
#[derive(Debug)]
pub struct OfxTransaction {
    pub trn_type: String,
    pub date_posted: String,
    pub amount: Amount,
    pub fitid: String,
    pub name: String,
    pub memo: Option<String>,
    pub account_id: String,
    pub bank_id: Option<String>,
}

pub struct OfxTransactionV {
    pub trn_type: Seq<char>,
    pub date_posted: Seq<char>,
    pub amount: AmountV,
    pub fitid: Seq<char>,
    pub name: Seq<char>,
    pub memo: Option<Seq<char>>,
    pub account_id: Seq<char>,
    pub bank_id: Option<Seq<char>>,
}

impl View for OfxTransaction {
    type V = OfxTransactionV;

    open spec fn view(&self) -> OfxTransactionV {
        OfxTransactionV {
            trn_type: self.trn_type@,
            date_posted: self.date_posted@,
            amount: self.amount@,
            fitid: self.fitid@,
            name: self.name@,
            memo: opt_str(self.memo),
            account_id: self.account_id@,
            bank_id: opt_str(self.bank_id),
        }
    }
}

/// The result of reading an OFX statement.
#[derive(Debug)]
pub struct OfxParseResult {
    pub account_id: String,
    pub bank_id: Option<String>,
    pub account_type: String,
    pub currency: String,
    pub transactions: Vec<OfxTransaction>,
    pub start_date: String,
    pub end_date: String,
    pub errors: Vec<String>,
}

pub struct OfxParseV {
    pub account_id: Seq<char>,
    pub bank_id: Option<Seq<char>>,
    pub account_type: Seq<char>,
    pub currency: Seq<char>,
    pub transactions: Seq<OfxTransactionV>,
    pub start_date: Seq<char>,
    pub end_date: Seq<char>,
    pub errors: Seq<Seq<char>>,
}

pub open spec fn ofx_txs_view(v: Seq<OfxTransaction>) -> Seq<OfxTransactionV> {
    v.map_values(|t: OfxTransaction| t@)
}

impl View for OfxParseResult {
    type V = OfxParseV;

    open spec fn view(&self) -> OfxParseV {
        OfxParseV {
            account_id: self.account_id@,
            bank_id: opt_str(self.bank_id),
            account_type: self.account_type@,
            currency: self.currency@,
            transactions: ofx_txs_view(self.transactions@),
            start_date: self.start_date@,
            end_date: self.end_date@,
            errors: str_views(self.errors@),
        }
    }
}

pub open spec fn or_default(o: Option<Seq<char>>, d: Seq<char>) -> Seq<char> {
    match o {
        Some(v) => v,
        None => d,
    }
}

pub open spec fn opt_slice(o: Option<&str>) -> Option<Seq<char>> {
    match o {
        Some(s) => Some(s@),
        None => None,
    }
}

/// The date a transaction was posted: its `DTPOSTED` in `YYYY-MM-DD` form,
/// or `1900-01-01`.
pub open spec fn posted_date(block: Seq<char>) -> Seq<char> {
    match extract_tag_spec(block, "DTPOSTED"@) {
        Some(d) => normalize_ofx_date_spec(d),
        None => "1900-01-01"@,
    }
}

/// The amount of a transaction: its `TRNAMT`, or zero.
pub open spec fn block_amount(block: Seq<char>) -> AmountV {
    parse_ofx_amount_spec(or_default(extract_tag_spec(block, "TRNAMT"@), "0"@))
}

/// The transaction of the body of a `STMTTRN` block. A transaction without
/// `FITID` is identified by the fingerprint of `{date}_{amount}`.
pub open spec fn ofx_transaction_spec(
    block: Seq<char>,
    account_id: Seq<char>,
    bank_id: Option<Seq<char>>,
) -> OfxTransactionV {
    let date_posted = posted_date(block);
    let amount = block_amount(block);
    OfxTransactionV {
        trn_type: or_default(extract_tag_spec(block, "TRNTYPE"@), "OTHER"@),
        date_posted,
        amount,
        fitid: match extract_tag_spec(block, "FITID"@) {
            Some(f) => f,
            None => fitid_fallback_spec(date_posted + "_"@ + display_spec(amount)),
        },
        name: or_default(extract_tag_spec(block, "NAME"@), seq![]),
        memo: extract_tag_spec(block, "MEMO"@),
        account_id,
        bank_id,
    }
}

/// The transactions of an OFX text, one per `STMTTRN` block of its
/// transaction list, in order.
pub open spec fn ofx_transactions_spec(
    c: Seq<char>,
    account_id: Seq<char>,
    bank_id: Option<Seq<char>>,
) -> Seq<OfxTransactionV> {
    stmttrn_blocks(tranlist_of(c), 0).map_values(
        |b: Seq<char>| ofx_transaction_spec(b, account_id, bank_id),
    )
}

/// The errors recorded for these transactions.
pub open spec fn ofx_errors(txs: Seq<OfxTransactionV>) -> Seq<Seq<char>> {
    if txs.len() == 0 {
        seq!["No transactions found in OFX file"@]
    } else {
        seq![]
    }
}

fn tag_value_or(c: &[char], tag: &str, default: &str) -> (r: Vec<char>)
    ensures
        r@ == or_default(extract_tag_spec(c@, tag@), default@),
{
    let t = chars_of(tag);
    match tag_value(c, t.as_slice()) {
        Some(v) => v,
        None => chars_of(default),
    }
}

fn opt_owned(o: Option<&str>) -> (r: Option<String>)
    ensures
        opt_str(r) == opt_slice(o),
{
    match o {
        Some(s) => Some(owned(s)),
        None => None,
    }
}

fn ofx_transaction_exec(block: &[char], account_id: &str, bank_id: Option<&str>) -> (r:
    OfxTransaction)
    ensures
        r@ == ofx_transaction_spec(block@, account_id@, opt_slice(bank_id)),
{
    let trn_type = tag_value_or(block, "TRNTYPE", "OTHER");
    let dt = chars_of("DTPOSTED");
    let date_posted = match tag_value(block, dt.as_slice()) {
        Some(d) => normalize_chars(d.as_slice()),
        None => chars_of("1900-01-01"),
    };
    let amount_text = tag_value_or(block, "TRNAMT", "0");
    let amount = ofx_amount_chars(amount_text.as_slice());
    let ft = chars_of("FITID");
    let fitid = match tag_value(block, ft.as_slice()) {
        Some(f) => f,
        None => {
            let mut input = copy_range(date_posted.as_slice(), 0, date_posted.len());
            push_str(&mut input, "_");
            let shown = amount.display_chars();
            push_all(&mut input, shown.as_slice());
            assert(input@ =~= date_posted@ + "_"@ + display_spec(amount@));
            fitid_fallback_chars(input.as_slice())
        },
    };
    let name = tag_value_or(block, "NAME", "");
    proof {
        reveal_strlit("");
        assert(""@ =~= Seq::<char>::empty());
    }
    let mt = chars_of("MEMO");
    let memo = match tag_value(block, mt.as_slice()) {
        Some(m) => Some(string_of(m.as_slice())),
        None => None,
    };
    OfxTransaction {
        trn_type: string_of(trn_type.as_slice()),
        date_posted: string_of(date_posted.as_slice()),
        amount,
        fitid: string_of(fitid.as_slice()),
        name: string_of(name.as_slice()),
        memo,
        account_id: owned(account_id),
        bank_id: opt_owned(bank_id),
    }
}

fn tranlist_exec(c: &[char]) -> (r: Vec<char>)
    ensures
        r@ == tranlist_of(c@),
{
    let open = chars_of("<BANKTRANLIST");
    let close = chars_of("</BANKTRANLIST");
    proof {
        reveal_strlit("<BANKTRANLIST");
        reveal_strlit("</BANKTRANLIST");
        assert(open@ =~= tranlist_open());
        assert(close@ =~= tranlist_close());
        lemma_first_block(c@, 0, tranlist_open(), tranlist_close(), false, false);
    }
    match first_block_exec(c, 0, open.as_slice(), close.as_slice(), false, false) {
        Some((b, q, _)) => copy_range(c, b, q),
        None => {
            let r = copy_range(c, 0, c.len());
            assert(r@ =~= c@);
            r
        },
    }
}

/// Reads the transactions of an OFX text (see `ofx_transactions_spec`),
/// and records an error when there are none.
pub fn extract_transactions(
    content: &str,
    account_id: &str,
    bank_id: Option<&str>,
    errors: &mut Vec<String>,
) -> (r: Vec<OfxTransaction>)
    ensures
        ofx_txs_view(r@) == ofx_transactions_spec(content@, account_id@, opt_slice(bank_id)),
        str_views(final(errors)@) == str_views(old(errors)@) + ofx_errors(ofx_txs_view(r@)),
{
    let c = chars_of(content);
    let t = tranlist_exec(c.as_slice());
    let ts = t.as_slice();
    let open = chars_of("<STMTTRN");
    let close = chars_of("</STMTTRN");
    proof {
        reveal_strlit("<STMTTRN");
        reveal_strlit("</STMTTRN");
        assert(open@ =~= stmttrn_open());
        assert(close@ =~= stmttrn_close());
    }
    let ghost bank = opt_slice(bank_id);
    let ghost all = stmttrn_blocks(t@, 0);
    let ghost mut done: Seq<Seq<char>> = seq![];
    let mut transactions: Vec<OfxTransaction> = Vec::new();
    let mut pos: usize = 0;
    loop
        invariant
            pos <= t@.len(),
            ts@ == t@,
            open@ == stmttrn_open(),
            close@ == stmttrn_close(),
            all == stmttrn_blocks(t@, 0),
            all == done + stmttrn_blocks(t@, pos as int),
            ofx_txs_view(transactions@) == done.map_values(
                |b: Seq<char>| ofx_transaction_spec(b, account_id@, bank),
            ),
            bank == opt_slice(bank_id),
        ensures
            all == done,
            ofx_txs_view(transactions@) == done.map_values(
                |b: Seq<char>| ofx_transaction_spec(b, account_id@, bank),
            ),
        decreases t@.len() - pos,
    {
        proof {
            lemma_first_block(t@, pos as int, stmttrn_open(), stmttrn_close(), true, true);
        }
        match first_block_exec(ts, pos, open.as_slice(), close.as_slice(), true, true) {
            Some((b, q, e)) => {
                let block = copy_range(ts, b, q);
                let tx = ofx_transaction_exec(block.as_slice(), account_id, bank_id);
                let ghost before = ofx_txs_view(transactions@);
                transactions.push(tx);
                proof {
                    assert(stmttrn_blocks(t@, pos as int) == seq![t@.subrange(b as int, q as int)]
                        + stmttrn_blocks(t@, e as int));
                    let d2 = done.push(block@);
                    assert(ofx_txs_view(transactions@) =~= before.push(tx@));
                    assert(done + stmttrn_blocks(t@, pos as int) =~= d2 + stmttrn_blocks(
                        t@,
                        e as int,
                    ));
                    assert(ofx_txs_view(transactions@) =~= d2.map_values(
                        |b: Seq<char>| ofx_transaction_spec(b, account_id@, bank),
                    ));
                    done = d2;
                }
                pos = e;
            },
            None => {
                assert(stmttrn_blocks(t@, pos as int) =~= Seq::<Seq<char>>::empty());
                assert(all =~= done);
                break;
            },
        }
    }
    if transactions.len() == 0 {
        let ghost before = str_views(errors@);
        errors.push(owned("No transactions found in OFX file"));
        assert(str_views(errors@) =~= before + seq!["No transactions found in OFX file"@]);
    } else {
        assert(str_views(errors@) =~= str_views(errors@) + Seq::<Seq<char>>::empty());
    }
    transactions
}

/// The account of an OFX text: `ACCTID` (else `UNKNOWN`), `BANKID`,
/// `ACCTTYPE` (else `CHECKING`) and `CURDEF` (else `AUD`).
pub open spec fn account_info_spec(c: Seq<char>) -> (Seq<char>, Option<Seq<char>>, Seq<char>, Seq<
    char,
>) {
    (
        or_default(extract_tag_spec(c, "ACCTID"@), "UNKNOWN"@),
        extract_tag_spec(c, "BANKID"@),
        or_default(extract_tag_spec(c, "ACCTTYPE"@), "CHECKING"@),
        or_default(extract_tag_spec(c, "CURDEF"@), "AUD"@),
    )
}

/// Reads the account of an OFX text (see `account_info_spec`); records no
/// error.
pub fn extract_account_info(content: &str, errors: &mut Vec<String>) -> (r: (
    String,
    Option<String>,
    String,
    String,
))
    ensures
        (r.0@, opt_str(r.1), r.2@, r.3@) == account_info_spec(content@),
        final(errors)@ == old(errors)@,
{
    let c = chars_of(content);
    let cs = c.as_slice();
    let account_id = tag_value_or(cs, "ACCTID", "UNKNOWN");
    let bt = chars_of("BANKID");
    let bank_id = match tag_value(cs, bt.as_slice()) {
        Some(b) => Some(string_of(b.as_slice())),
        None => None,
    };
    let account_type = tag_value_or(cs, "ACCTTYPE", "CHECKING");
    let currency = tag_value_or(cs, "CURDEF", "AUD");
    (
        string_of(account_id.as_slice()),
        bank_id,
        string_of(account_type.as_slice()),
        string_of(currency.as_slice()),
    )
}

/// A date of the statement period: the element's value in `YYYY-MM-DD`
/// form, or nothing.
pub open spec fn period_date(c: Seq<char>, tag: Seq<char>) -> Seq<char> {
    match extract_tag_spec(c, tag) {
        Some(d) => normalize_ofx_date_spec(d),
        None => seq![],
    }
}

fn period_date_exec(c: &[char], tag: &str) -> (r: String)
    ensures
        r@ == period_date(c@, tag@),
{
    let t = chars_of(tag);
    match tag_value(c, t.as_slice()) {
        Some(d) => {
            let n = normalize_chars(d.as_slice());
            string_of(n.as_slice())
        },
        None => String::new(),
    }
}

/// The statement period of an OFX text: `DTSTART` and `DTEND` (see
/// `period_date`).
pub fn extract_date_range(content: &str) -> (r: (String, String))
    ensures
        r.0@ == period_date(content@, "DTSTART"@),
        r.1@ == period_date(content@, "DTEND"@),
{
    let c = chars_of(content);
    let start = period_date_exec(c.as_slice(), "DTSTART");
    let end = period_date_exec(c.as_slice(), "DTEND");
    (start, end)
}

/// What reading an OFX statement gives for these bytes: an error when the
/// text (with undecodable bytes replaced) has neither `<OFX>` nor
/// `OFXHEADER`; else its account, period and transactions.
pub open spec fn parse_ofx_spec(content: Seq<u8>) -> Result<OfxParseV, Seq<char>> {
    let c = utf8_lossy(content);
    if !contains(c, "<OFX>"@) && !contains(c, "OFXHEADER"@) {
        Err("Invalid OFX file: missing OFX header"@)
    } else {
        let (account_id, bank_id, account_type, currency) = account_info_spec(c);
        let txs = ofx_transactions_spec(c, account_id, bank_id);
        Ok(
            OfxParseV {
                account_id,
                bank_id,
                account_type,
                currency,
                transactions: txs,
                start_date: period_date(c, "DTSTART"@),
                end_date: period_date(c, "DTEND"@),
                errors: ofx_errors(txs),
            },
        )
    }
}

pub open spec fn ofx_result_view(r: Result<OfxParseResult, ImportError>) -> Result<
    OfxParseV,
    Seq<char>,
> {
    match r {
        Ok(p) => Ok(p@),
        Err(e) => Err(e.message_spec()),
    }
}

fn opt_as_str(o: &Option<String>) -> (r: Option<&str>)
    ensures
        opt_slice(r) == opt_str(*o),
{
    match o {
        Some(s) => Some(s.as_str()),
        None => None,
    }
}

/// Reads an OFX statement (see `parse_ofx_spec`).
pub fn parse_ofx(content: &[u8]) -> (r: Result<OfxParseResult, ImportError>)
    ensures
        ofx_result_view(r) == parse_ofx_spec(content@),
{
    let text = utf8_decode_lossy(content);
    let tc = chars_of(text.as_str());
    if !contains_str(tc.as_slice(), "<OFX>") && !contains_str(tc.as_slice(), "OFXHEADER") {
        return Err(ImportError::InvalidInput(owned("Invalid OFX file: missing OFX header")));
    }
    let mut errors: Vec<String> = Vec::new();
    let (account_id, bank_id, account_type, currency) = extract_account_info(
        text.as_str(),
        &mut errors,
    );
    let (start_date, end_date) = extract_date_range(text.as_str());
    let transactions = extract_transactions(
        text.as_str(),
        account_id.as_str(),
        opt_as_str(&bank_id),
        &mut errors,
    );
    assert(str_views(errors@) =~= ofx_errors(ofx_txs_view(transactions@)));
    Ok(
        OfxParseResult {
            account_id,
            bank_id,
            account_type,
            currency,
            transactions,
            start_date,
            end_date,
            errors,
        },
    )
}

proof fn lemma_ascii_digits_append(a: Seq<char>, b: Seq<char>)
    ensures
        ascii_digits_of(a + b) == ascii_digits_of(a) + ascii_digits_of(b),
    decreases b.len(),
{
    if b.len() == 0 {
        assert(a + b =~= a);
        assert(ascii_digits_of(a) + ascii_digits_of(b) =~= ascii_digits_of(a));
    } else {
        assert((a + b).drop_last() =~= a + b.drop_last());
        lemma_ascii_digits_append(a, b.drop_last());
        if is_ascii_digit(b.last()) {
            assert(ascii_digits_of(a) + ascii_digits_of(b) =~= (ascii_digits_of(a)
                + ascii_digits_of(b.drop_last())).push(b.last()));
        }
    }
}

proof fn lemma_ascii_digits_of_digits(d: Seq<char>)
    requires
        forall|k: int| 0 <= k < d.len() ==> is_ascii_digit(#[trigger] d[k]),
    ensures
        ascii_digits_of(d) == d,
    decreases d.len(),
{
    if d.len() > 0 {
        lemma_ascii_digits_of_digits(d.drop_last());
        assert(d.drop_last().push(d.last()) =~= d);
    }
}

proof fn lemma_ascii_digits_are_digits(s: Seq<char>)
    ensures
        forall|k: int|
            0 <= k < ascii_digits_of(s).len() ==> is_ascii_digit(#[trigger] ascii_digits_of(s)[k]),
    decreases s.len(),
{
    if s.len() > 0 {
        lemma_ascii_digits_are_digits(s.drop_last());
        let p = ascii_digits_of(s.drop_last());
        if is_ascii_digit(s.last()) {
            assert forall|k: int| 0 <= k < ascii_digits_of(s).len() implies is_ascii_digit(
                #[trigger] ascii_digits_of(s)[k],
            ) by {
                if k < p.len() {
                    assert(ascii_digits_of(s)[k] == p[k]);
                }
            }
        }
    }
}

/// Normalizing an OFX date twice gives what normalizing it once gives.
pub proof fn law_normalize_ofx_date_idempotent(s: Seq<char>)
    ensures
        normalize_ofx_date_spec(normalize_ofx_date_spec(s)) == normalize_ofx_date_spec(s),
{
    let d = ascii_digits_of(s);
    if d.len() >= 8 {
        lemma_ascii_digits_are_digits(s);
        let y = d.subrange(0, 4);
        let m = d.subrange(4, 6);
        let dd = d.subrange(6, 8);
        let n = y + seq!['-'] + m + seq!['-'] + dd;
        assert(ascii_digits_of(seq!['-']) =~= Seq::<char>::empty()) by {
            let dash = seq!['-'];
            assert(dash.drop_last() =~= Seq::<char>::empty());
            assert(dash.last() == '-');
            assert(('-' as u32) == 45);
            assert(!is_ascii_digit(dash.last()));
            assert(ascii_digits_of(Seq::<char>::empty()) =~= Seq::<char>::empty());
        }
        lemma_ascii_digits_append(y, seq!['-']);
        lemma_ascii_digits_append(y + seq!['-'], m);
        lemma_ascii_digits_append(y + seq!['-'] + m, seq!['-']);
        lemma_ascii_digits_append(y + seq!['-'] + m + seq!['-'], dd);
        lemma_ascii_digits_of_digits(y);
        lemma_ascii_digits_of_digits(m);
        lemma_ascii_digits_of_digits(dd);
        assert(ascii_digits_of(n) =~= y + m + dd);
        assert((y + m + dd).subrange(0, 4) =~= y);
        assert((y + m + dd).subrange(4, 6) =~= m);
        assert((y + m + dd).subrange(6, 8) =~= dd);
    }
}

/// The key text of an OFX transaction tells apart transactions that differ
/// in one of its fields: the account, the identifier, the date or the
/// amount to the cent.
pub proof fn law_ofx_key_text_separates_fields(
    account_id: Seq<char>,
    fitid: Seq<char>,
    date: Seq<char>,
    amount: AmountV,
    account_id_2: Seq<char>,
    fitid_2: Seq<char>,
    date_2: Seq<char>,
    amount_2: AmountV,
)
    ensures
        account_id != account_id_2 ==> ofx_key_text(account_id, fitid, date, amount) != ofx_key_text(account_id_2, fitid, date, amount),
        fitid != fitid_2 ==> ofx_key_text(account_id, fitid, date, amount) != ofx_key_text(account_id, fitid_2, date, amount),
        date != date_2 ==> ofx_key_text(account_id, fitid, date, amount) != ofx_key_text(account_id, fitid, date_2, amount),
        fixed2_spec(amount) != fixed2_spec(amount_2) ==> ofx_key_text(account_id, fitid, date, amount) != ofx_key_text(account_id, fitid, date, amount_2),
{
    let bar = "|"@;
    assert(ofx_key_text(account_id, fitid, date, amount) =~= "OFX|"@ + account_id + (bar + fitid + bar + date + bar + fixed2_spec(amount) + Seq::<char>::empty()));
    assert(ofx_key_text(account_id_2, fitid, date, amount) =~= "OFX|"@ + account_id_2 + (bar + fitid + bar + date + bar + fixed2_spec(amount) + Seq::<char>::empty()));
    lemma_middle_injective("OFX|"@, account_id, account_id_2, (bar + fitid + bar + date + bar + fixed2_spec(amount) + Seq::<char>::empty()));
    assert(ofx_key_text(account_id, fitid, date, amount) =~= "OFX|"@ + account_id + bar + fitid + (bar + date + bar + fixed2_spec(amount) + Seq::<char>::empty()));
    assert(ofx_key_text(account_id, fitid_2, date, amount) =~= "OFX|"@ + account_id + bar + fitid_2 + (bar + date + bar + fixed2_spec(amount) + Seq::<char>::empty()));
    lemma_middle_injective("OFX|"@ + account_id + bar, fitid, fitid_2, (bar + date + bar + fixed2_spec(amount) + Seq::<char>::empty()));
    assert(ofx_key_text(account_id, fitid, date, amount) =~= "OFX|"@ + account_id + bar + fitid + bar + date + (bar + fixed2_spec(amount) + Seq::<char>::empty()));
    assert(ofx_key_text(account_id, fitid, date_2, amount) =~= "OFX|"@ + account_id + bar + fitid + bar + date_2 + (bar + fixed2_spec(amount) + Seq::<char>::empty()));
    lemma_middle_injective("OFX|"@ + account_id + bar + fitid + bar, date, date_2, (bar + fixed2_spec(amount) + Seq::<char>::empty()));
    assert(ofx_key_text(account_id, fitid, date, amount) =~= "OFX|"@ + account_id + bar + fitid + bar + date + bar + fixed2_spec(amount) + (Seq::<char>::empty()));
    assert(ofx_key_text(account_id, fitid, date, amount_2) =~= "OFX|"@ + account_id + bar + fitid + bar + date + bar + fixed2_spec(amount_2) + (Seq::<char>::empty()));
    lemma_middle_injective("OFX|"@ + account_id + bar + fitid + bar + date + bar, fixed2_spec(amount), fixed2_spec(amount_2), (Seq::<char>::empty()));
}

} // verus!
