use vstd::prelude::*;
use crate::text::owned;

verus! {

/// Different output formats supported by command line
#[derive(Debug, Clone, Copy, PartialEq, Eq, Structural)]
pub enum OutputType {
    /// Text output format
    Text,
    /// Json output format
    Json,
}

/// Error returned when a string names no output format.
#[derive(Debug, Clone, Copy, PartialEq, Eq, Structural)]
pub enum ParseOutputTypeError {
    InvalidOutputType,
}

impl ParseOutputTypeError {
    /// The message reported for the error.
    pub fn message(&self) -> (r: String)
        ensures
            r@ == (match *self {
                ParseOutputTypeError::InvalidOutputType => "invalid output type"@,
            }),
    {
        match self {
            ParseOutputTypeError::InvalidOutputType => owned("invalid output type"),
        }
    }
}

/// `c` is a white space character in the sense of `char::is_whitespace`
/// (the Unicode `White_Space` property).
pub open spec fn is_white_space(c: char) -> bool {
    ||| ('\u{9}' <= c && c <= '\u{d}')
    ||| c == ' '
    ||| c == '\u{85}'
    ||| c == '\u{a0}'
    ||| c == '\u{1680}'
    ||| ('\u{2000}' <= c && c <= '\u{200a}')
    ||| c == '\u{2028}'
    ||| c == '\u{2029}'
    ||| c == '\u{202f}'
    ||| c == '\u{205f}'
    ||| c == '\u{3000}'
}

/// `s` with its leading white space removed.
pub open spec fn trim_start_seq(s: Seq<char>) -> Seq<char>
    decreases s.len(),
{
    if s.len() > 0 && is_white_space(s[0]) {
        trim_start_seq(s.drop_first())
    } else {
        s
    }
}

/// `s` with its trailing white space removed.
pub open spec fn trim_end_seq(s: Seq<char>) -> Seq<char>
    decreases s.len(),
{
    if s.len() > 0 && is_white_space(s.last()) {
        trim_end_seq(s.drop_last())
    } else {
        s
    }
}

/// `s` with leading and trailing white space removed, as `str::trim` does.
pub open spec fn trim_seq(s: Seq<char>) -> Seq<char> {
    trim_end_seq(trim_start_seq(s))
}

/// The ASCII lower case of `c` is `w`; characters outside `A`..`Z` lower to
/// themselves.
pub open spec fn lowers_char_to(c: char, w: char) -> bool {
    if 'A' <= c && c <= 'Z' {
        (c as u32) + 32 == (w as u32)
    } else {
        c == w
    }
}

/// `s` and `word` (an all lower case ASCII word) are equal once `s` is
/// lowered. No character outside ASCII lowers into an ASCII letter of the words
/// used here, so this agrees with comparing `s.to_lowercase()` with `word`.
pub open spec fn lowers_to(s: Seq<char>, word: Seq<char>) -> bool {
    &&& s.len() == word.len()
    &&& forall|i: int| 0 <= i < s.len() ==> lowers_char_to(#[trigger] s[i], word[i])
}

pub open spec fn text_word() -> Seq<char> {
    seq!['t', 'e', 'x', 't']
}

pub open spec fn json_word() -> Seq<char> {
    seq!['j', 's', 'o', 'n']
}

/// The output type that a command line string names: the string is trimmed and
/// lower cased, then compared with `text` and `json`.
pub open spec fn spec_parse_output_type(s: Seq<char>) -> Option<OutputType> {
    let t = trim_seq(s);
    if lowers_to(t, text_word()) {
        Some(OutputType::Text)
    } else if lowers_to(t, json_word()) {
        Some(OutputType::Json)
    } else {
        None
    }
}

/// The name under which an output type is displayed.
pub open spec fn spec_output_type_name(t: OutputType) -> Seq<char> {
    match t {
        OutputType::Text => text_word(),
        OutputType::Json => json_word(),
    }
}

fn is_white_space_char(c: char) -> (b: bool)
    ensures
        b == is_white_space(c),
{
    ('\u{9}' <= c && c <= '\u{d}') || c == ' ' || c == '\u{85}' || c == '\u{a0}'
        || c == '\u{1680}' || ('\u{2000}' <= c && c <= '\u{200a}') || c == '\u{2028}'
        || c == '\u{2029}' || c == '\u{202f}' || c == '\u{205f}' || c == '\u{3000}'
}

fn lowers_char_to_exec(c: char, w: char) -> (b: bool)
    ensures
        b == lowers_char_to(c, w),
{
    if 'A' <= c && c <= 'Z' {
        (c as u32) + 32 == (w as u32)
    } else {
        c == w
    }
}

/// The chars of `s` in `start..end` lower to `word`.
fn range_lowers_to(s: &str, start: usize, end: usize, word: &str) -> (b: bool)
    requires
        start <= end <= s@.len(),
    ensures
        b == lowers_to(s@.subrange(start as int, end as int), word@),
{
    let wn = word.unicode_len();
    if end - start != wn {
        return false;
    }
    let ghost sub = s@.subrange(start as int, end as int);
    let mut i: usize = 0;
    while i < wn
        invariant
            wn == word@.len(),
            end - start == wn,
            start <= end <= s@.len(),
            sub == s@.subrange(start as int, end as int),
            i <= wn,
            forall|j: int| 0 <= j < i ==> lowers_char_to(#[trigger] sub[j], word@[j]),
        decreases wn - i,
    {
        let c = s.get_char(start + i);
        let w = word.get_char(i);
        assert(sub[i as int] == c);
        if !lowers_char_to_exec(c, w) {
            return false;
        }
        i = i + 1;
    }
    true
}

proof fn lemma_trim_start_step(s: Seq<char>, k: int)
    requires
        0 <= k < s.len(),
        is_white_space(s[k]),
    ensures
        trim_start_seq(s.subrange(k, s.len() as int)) == trim_start_seq(
            s.subrange(k + 1, s.len() as int),
        ),
{
    let sub = s.subrange(k, s.len() as int);
    assert(sub.drop_first() =~= s.subrange(k + 1, s.len() as int));
}

proof fn lemma_trim_end_step(s: Seq<char>, a: int, e: int)
    requires
        0 <= a < e <= s.len(),
        is_white_space(s[e - 1]),
    ensures
        trim_end_seq(s.subrange(a, e)) == trim_end_seq(s.subrange(a, e - 1)),
{
    let sub = s.subrange(a, e);
    assert(sub.drop_last() =~= s.subrange(a, e - 1));
}

/// The bounds `(start, end)` of `s` once leading and trailing white space is
/// removed.
fn trim_bounds(s: &str) -> (r: (usize, usize))
    ensures
        r.0 <= r.1 <= s@.len(),
        trim_seq(s@) == s@.subrange(r.0 as int, r.1 as int),
{
    let n = s.unicode_len();
    let mut start: usize = 0;
    assert(s@.subrange(0, n as int) =~= s@);
    while start < n && is_white_space_char(s.get_char(start))
        invariant
            n == s@.len(),
            start <= n,
            trim_start_seq(s@) == trim_start_seq(s@.subrange(start as int, n as int)),
        decreases n - start,
    {
        proof {
            lemma_trim_start_step(s@, start as int);
        }
        start = start + 1;
    }
    let ghost t = s@.subrange(start as int, n as int);
    assert(trim_start_seq(t) == t) by {
        if t.len() > 0 {
            assert(t[0] == s@[start as int]);
        }
    }
    let mut end: usize = n;
    while end > start && is_white_space_char(s.get_char(end - 1))
        invariant
            n == s@.len(),
            start <= end <= n,
            trim_seq(s@) == trim_end_seq(s@.subrange(start as int, end as int)),
        decreases end - start,
    {
        proof {
            lemma_trim_end_step(s@, start as int, end as int);
        }
        end = end - 1;
    }
    let ghost u = s@.subrange(start as int, end as int);
    assert(trim_end_seq(u) == u) by {
        if u.len() > 0 {
            assert(u.last() == s@[end - 1]);
        }
    }
    (start, end)
}

impl OutputType {
    /// The name under which the output type is displayed: `text` or `json`.
    pub fn as_str(&self) -> (s: &'static str)
        ensures
            s@ == spec_output_type_name(*self),
    {
        match self {
            OutputType::Text => {
                proof {
                    reveal_strlit("text");
                }
                "text"
            },
            OutputType::Json => {
                proof {
                    reveal_strlit("json");
                }
                "json"
            },
        }
    }
}

/// Parses an output type from a command line string: surrounding white space
/// is ignored and so is the letters' case.
pub fn parse_output_type(s: &str) -> (r: Result<OutputType, ParseOutputTypeError>)
    ensures
        r == (match spec_parse_output_type(s@) {
            Some(t) => Ok(t),
            None => Err(ParseOutputTypeError::InvalidOutputType),
        }),
{
    let (start, end) = trim_bounds(s);
    proof {
        reveal_strlit("text");
        reveal_strlit("json");
    }
    if range_lowers_to(s, start, end, "text") {
        Ok(OutputType::Text)
    } else if range_lowers_to(s, start, end, "json") {
        Ok(OutputType::Json)
    } else {
        Err(ParseOutputTypeError::InvalidOutputType)
    }
}

/// Parsing the displayed name of an output type gives that output type back.
pub proof fn lemma_output_type_round_trip(t: OutputType)
    ensures
        spec_parse_output_type(spec_output_type_name(t)) == Some(t),
{
    let s = spec_output_type_name(t);
    assert(trim_start_seq(s) == s);
    assert(trim_end_seq(s) == s);
    match t {
        OutputType::Text => {
            assert(lowers_to(s, text_word()));
        },
        OutputType::Json => {
            assert(!lowers_to(s, text_word())) by {
                assert(!lowers_char_to(s[0], text_word()[0]));
            }
            assert(lowers_to(s, json_word()));
        },
    }
}

impl core::str::FromStr for OutputType {
    type Err = ParseOutputTypeError;

    fn from_str(s: &str) -> (r: Result<Self, Self::Err>)
        ensures
            r == (match spec_parse_output_type(s@) {
                Some(t) => Ok(t),
                None => Err(ParseOutputTypeError::InvalidOutputType),
            }),
    {
        parse_output_type(s)
    }
}

} // verus!
