//! Pieces shared by the date readers of the statement formats: splitting a
//! date at its separators, the digit and word classes of the `regex` crate,
//! and month names.

use vstd::prelude::*;
use crate::text::{
    chars_of, eq_str, find, find_char_exec, lemma_find_from_bounds, lowercase, parse_usize,
    regex_char_flags, regex_digit, regex_word, to_lowercase, lower_text, ascii_lower, ascii_lower_char,
    is_ascii_seq, is_ascii_char,
};

verus! {

/// `s` split at its first two occurrences of `sep`.
pub open spec fn split3(s: Seq<char>, sep: char) -> Option<(Seq<char>, Seq<char>, Seq<char>)> {
    match find(s, seq![sep]) {
        Some(i) => {
            let rest = s.subrange(i + 1, s.len() as int);
            match find(rest, seq![sep]) {
                Some(j) => Some(
                    (s.subrange(0, i), rest.subrange(0, j), rest.subrange(j + 1, rest.len() as int)),
                ),
                None => None,
            }
        },
        None => None,
    }
}

/// The positions of the first two occurrences of `sep` in `s`.
pub fn split3_exec(s: &[char], sep: char) -> (r: Option<(usize, usize)>)
    ensures
        match r {
            Some((i, k)) => i < k < s@.len() && split3(s@, sep) == Some(
                (
                    s@.subrange(0, i as int),
                    s@.subrange(i + 1, k as int),
                    s@.subrange(k + 1, s@.len() as int),
                ),
            ),
            None => split3(s@, sep) is None,
        },
{
    match find_char_exec(s, sep) {
        Some(i) => {
            proof {
                lemma_find_from_bounds(s@, seq![sep], 0);
            }
            let n = s.len();
            assert(i < n);
            let rest = crate::text::copy_range(s, i + 1, n);
            match find_char_exec(rest.as_slice(), sep) {
                Some(j) => {
                    proof {
                        lemma_find_from_bounds(rest@, seq![sep], 0);
                        assert(rest@.subrange(0, j as int) =~= s@.subrange(i + 1, i + 1 + j));
                        assert(rest@.subrange(j + 1, rest@.len() as int) =~= s@.subrange(
                            i + 1 + j + 1,
                            s@.len() as int,
                        ));
                    }
                    Some((i, i + 1 + j))
                },
                None => None,
            }
        },
        None => None,
    }
}

/// Every character is of the class `\d`.
pub open spec fn all_regex_digits(s: Seq<char>) -> bool {
    forall|i: int| 0 <= i < s.len() ==> regex_digit(#[trigger] s[i])
}

/// Every character is of the class `\w`.
pub open spec fn all_regex_word(s: Seq<char>) -> bool {
    forall|i: int| 0 <= i < s.len() ==> regex_word(#[trigger] s[i])
}

/// The class flags of the characters of `s`: first `\d`, then `\w`.
pub fn class_flags(s: &[char]) -> (r: (Vec<bool>, Vec<bool>))
    ensures
        r.0@.len() == s@.len(),
        r.1@.len() == s@.len(),
        forall|i: int| 0 <= i < s@.len() ==> r.0@[i] == regex_digit(#[trigger] s@[i]),
        forall|i: int| 0 <= i < s@.len() ==> r.1@[i] == regex_word(#[trigger] s@[i]),
{
    let d = regex_char_flags("^\\d$", s);
    let w = regex_char_flags("^\\w$", s);
    (d, w)
}

/// All of `flags[from..to]` are set.
pub fn all_set(flags: &[bool], from: usize, to: usize) -> (r: bool)
    requires
        from <= to <= flags@.len(),
    ensures
        r == forall|k: int| from <= k < to ==> #[trigger] flags@[k],
{
    let mut i: usize = from;
    while i < to
        invariant
            from <= i <= to <= flags@.len(),
            forall|k: int| from <= k < i ==> #[trigger] flags@[k],
        decreases to - i,
    {
        if !flags[i] {
            return false;
        }
        i = i + 1;
    }
    true
}

/// Whether `s[from..to]` are all of the class `\d`, given its flags.
pub fn range_digits(s: &[char], flags: &Vec<bool>, from: usize, to: usize) -> (r: bool)
    requires
        from <= to <= s@.len(),
        flags@.len() == s@.len(),
        forall|i: int| 0 <= i < s@.len() ==> flags@[i] == regex_digit(#[trigger] s@[i]),
    ensures
        r == all_regex_digits(s@.subrange(from as int, to as int)),
{
    let r = all_set(flags.as_slice(), from, to);
    proof {
        let t = s@.subrange(from as int, to as int);
        if r {
            assert forall|i: int| 0 <= i < t.len() implies regex_digit(#[trigger] t[i]) by {
                assert(t[i] == s@[from + i]);
                assert(flags@[from + i]);
            }
        } else {
            let k = choose|k: int| from <= k < to && !#[trigger] flags@[k];
            assert(t[k - from] == s@[k]);
            assert(!regex_digit(t[k - from]));
        }
    }
    r
}

/// Whether `s[from..to]` are all of the class `\w`, given its flags.
pub fn range_word(s: &[char], flags: &Vec<bool>, from: usize, to: usize) -> (r: bool)
    requires
        from <= to <= s@.len(),
        flags@.len() == s@.len(),
        forall|i: int| 0 <= i < s@.len() ==> flags@[i] == regex_word(#[trigger] s@[i]),
    ensures
        r == all_regex_word(s@.subrange(from as int, to as int)),
{
    let r = all_set(flags.as_slice(), from, to);
    proof {
        let t = s@.subrange(from as int, to as int);
        if r {
            assert forall|i: int| 0 <= i < t.len() implies regex_word(#[trigger] t[i]) by {
                assert(t[i] == s@[from + i]);
                assert(flags@[from + i]);
            }
        } else {
            let k = choose|k: int| from <= k < to && !#[trigger] flags@[k];
            assert(t[k - from] == s@[k]);
            assert(!regex_word(t[k - from]));
        }
    }
    r
}

/// The number of a three-letter month name, in any case; one when the name
/// is not a month.
pub open spec fn month_name_to_num_spec(month: Seq<char>) -> nat {
    let l = lower_text(month);
    if l == "jan"@ {
        1
    } else if l == "feb"@ {
        2
    } else if l == "mar"@ {
        3
    } else if l == "apr"@ {
        4
    } else if l == "may"@ {
        5
    } else if l == "jun"@ {
        6
    } else if l == "jul"@ {
        7
    } else if l == "aug"@ {
        8
    } else if l == "sep"@ {
        9
    } else if l == "oct"@ {
        10
    } else if l == "nov"@ {
        11
    } else if l == "dec"@ {
        12
    } else {
        1
    }
}

pub fn month_name_to_num(month: &str) -> (r: usize)
    ensures
        r == month_name_to_num_spec(month@),
{
    let mc = chars_of(month);
    let lv = to_lowercase(mc.as_slice());
    assert(lv@ == lower_text(month@));
    let l = lv.as_slice();
    if eq_str(l, "jan") {
        1
    } else if eq_str(l, "feb") {
        2
    } else if eq_str(l, "mar") {
        3
    } else if eq_str(l, "apr") {
        4
    } else if eq_str(l, "may") {
        5
    } else if eq_str(l, "jun") {
        6
    } else if eq_str(l, "jul") {
        7
    } else if eq_str(l, "aug") {
        8
    } else if eq_str(l, "sep") {
        9
    } else if eq_str(l, "oct") {
        10
    } else if eq_str(l, "nov") {
        11
    } else if eq_str(l, "dec") {
        12
    } else {
        1
    }
}

/// `text.parse::<usize>().unwrap_or(1)`.
pub open spec fn usize_or_one(text: Seq<char>) -> nat {
    match parse_usize(text) {
        Some(v) => v,
        None => 1,
    }
}


/// The twelve month names, in order, are the months one to twelve.
pub proof fn law_month_numbers()
    ensures
        month_name_to_num_spec("jan"@) == 1,
        month_name_to_num_spec("feb"@) == 2,
        month_name_to_num_spec("mar"@) == 3,
        month_name_to_num_spec("apr"@) == 4,
        month_name_to_num_spec("may"@) == 5,
        month_name_to_num_spec("jun"@) == 6,
        month_name_to_num_spec("jul"@) == 7,
        month_name_to_num_spec("aug"@) == 8,
        month_name_to_num_spec("sep"@) == 9,
        month_name_to_num_spec("oct"@) == 10,
        month_name_to_num_spec("nov"@) == 11,
        month_name_to_num_spec("dec"@) == 12,
{
    reveal_strlit("jan");
    reveal_strlit("feb");
    reveal_strlit("mar");
    reveal_strlit("apr");
    reveal_strlit("may");
    reveal_strlit("jun");
    reveal_strlit("jul");
    reveal_strlit("aug");
    reveal_strlit("sep");
    reveal_strlit("oct");
    reveal_strlit("nov");
    reveal_strlit("dec");
    lemma_lower_of_lower("jan"@);
    lemma_lower_of_lower("feb"@);
    lemma_lower_of_lower("mar"@);
    lemma_lower_of_lower("apr"@);
    lemma_lower_of_lower("may"@);
    lemma_lower_of_lower("jun"@);
    lemma_lower_of_lower("jul"@);
    lemma_lower_of_lower("aug"@);
    lemma_lower_of_lower("sep"@);
    lemma_lower_of_lower("oct"@);
    lemma_lower_of_lower("nov"@);
    lemma_lower_of_lower("dec"@);
    assert("jan"@[0] != "feb"@[0]);
    assert("jan"@[0] != "mar"@[0]);
    assert("jan"@[0] != "apr"@[0]);
    assert("jan"@[0] != "may"@[0]);
    assert("jan"@[1] != "jun"@[1]);
    assert("jan"@[1] != "jul"@[1]);
    assert("jan"@[0] != "aug"@[0]);
    assert("jan"@[0] != "sep"@[0]);
    assert("jan"@[0] != "oct"@[0]);
    assert("jan"@[0] != "nov"@[0]);
    assert("jan"@[0] != "dec"@[0]);
    assert("feb"@[0] != "mar"@[0]);
    assert("feb"@[0] != "apr"@[0]);
    assert("feb"@[0] != "may"@[0]);
    assert("feb"@[0] != "jun"@[0]);
    assert("feb"@[0] != "jul"@[0]);
    assert("feb"@[0] != "aug"@[0]);
    assert("feb"@[0] != "sep"@[0]);
    assert("feb"@[0] != "oct"@[0]);
    assert("feb"@[0] != "nov"@[0]);
    assert("feb"@[0] != "dec"@[0]);
    assert("mar"@[0] != "apr"@[0]);
    assert("mar"@[2] != "may"@[2]);
    assert("mar"@[0] != "jun"@[0]);
    assert("mar"@[0] != "jul"@[0]);
    assert("mar"@[0] != "aug"@[0]);
    assert("mar"@[0] != "sep"@[0]);
    assert("mar"@[0] != "oct"@[0]);
    assert("mar"@[0] != "nov"@[0]);
    assert("mar"@[0] != "dec"@[0]);
    assert("apr"@[0] != "may"@[0]);
    assert("apr"@[0] != "jun"@[0]);
    assert("apr"@[0] != "jul"@[0]);
    assert("apr"@[1] != "aug"@[1]);
    assert("apr"@[0] != "sep"@[0]);
    assert("apr"@[0] != "oct"@[0]);
    assert("apr"@[0] != "nov"@[0]);
    assert("apr"@[0] != "dec"@[0]);
    assert("may"@[0] != "jun"@[0]);
    assert("may"@[0] != "jul"@[0]);
    assert("may"@[0] != "aug"@[0]);
    assert("may"@[0] != "sep"@[0]);
    assert("may"@[0] != "oct"@[0]);
    assert("may"@[0] != "nov"@[0]);
    assert("may"@[0] != "dec"@[0]);
    assert("jun"@[2] != "jul"@[2]);
    assert("jun"@[0] != "aug"@[0]);
    assert("jun"@[0] != "sep"@[0]);
    assert("jun"@[0] != "oct"@[0]);
    assert("jun"@[0] != "nov"@[0]);
    assert("jun"@[0] != "dec"@[0]);
    assert("jul"@[0] != "aug"@[0]);
    assert("jul"@[0] != "sep"@[0]);
    assert("jul"@[0] != "oct"@[0]);
    assert("jul"@[0] != "nov"@[0]);
    assert("jul"@[0] != "dec"@[0]);
    assert("aug"@[0] != "sep"@[0]);
    assert("aug"@[0] != "oct"@[0]);
    assert("aug"@[0] != "nov"@[0]);
    assert("aug"@[0] != "dec"@[0]);
    assert("sep"@[0] != "oct"@[0]);
    assert("sep"@[0] != "nov"@[0]);
    assert("sep"@[0] != "dec"@[0]);
    assert("oct"@[0] != "nov"@[0]);
    assert("oct"@[0] != "dec"@[0]);
    assert("nov"@[0] != "dec"@[0]);
}

/// ASCII text without upper-case letters is its own lower-casing.
proof fn lemma_lower_of_lower(s: Seq<char>)
    requires
        forall|i: int| 0 <= i < s.len() ==> 97 <= #[trigger] (s[i] as u32) <= 122,
    ensures
        lower_text(s) == s,
{
    assert(is_ascii_seq(s)) by {
        assert forall|i: int| 0 <= i < s.len() implies is_ascii_char(#[trigger] s[i]) by {
            assert(97 <= (s[i] as u32) <= 122);
        }
    }
    assert forall|i: int| 0 <= i < s.len() implies #[trigger] ascii_lower(s)[i] == s[i] by {
        assert(97 <= (s[i] as u32) <= 122);
        assert(ascii_lower_char(s[i]) == s[i]);
    }
    assert(ascii_lower(s) =~= s);
}

/// Month names are read in any case: an ASCII name gives the number its
/// lower-cased form gives.
pub proof fn law_month_any_case(month: Seq<char>)
    requires
        is_ascii_seq(month),
    ensures
        month_name_to_num_spec(month) == month_name_to_num_spec(ascii_lower(month)),
        1 <= month_name_to_num_spec(month) <= 12,
{
    let l = ascii_lower(month);
    assert(is_ascii_seq(l)) by {
        assert forall|i: int| 0 <= i < l.len() implies is_ascii_char(#[trigger] l[i]) by {
            assert(is_ascii_char(month[i]));
            assert(l[i] == ascii_lower_char(month[i]));
        }
    }
    assert forall|i: int| 0 <= i < l.len() implies #[trigger] ascii_lower(l)[i] == l[i] by {
        assert(l[i] == ascii_lower_char(month[i]));
    }
    assert(ascii_lower(l) =~= l);
}

} // verus!
