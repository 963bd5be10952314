//! The snapshot line parser.
//!
//! The sidecar writes one JSON object per line.  This module defines the
//! accepted grammar as spec functions over the line's characters and an
//! executable recursive-descent parser proved equal to them.
//!
//! The grammar is the JSON subset the sidecar speaks: objects, arrays,
//! strings with the single-character escapes (`\u` escapes are not
//! accepted), `null`, `true`, `false`, and decimal numbers with an optional
//! sign, one to fifteen integer digits and at most three fraction digits
//! (no exponents).  Numbers are read exactly, as a count of thousandths.
//! Unknown object keys are tolerated and their values skipped; a repeated
//! key overwrites the earlier one; a trailing comma before a closing
//! bracket is tolerated.

use crate::data::{CpuDataView, GpuDataView, SidecarCpuData, SidecarData, SidecarDataView, SidecarGpuData, view_opt_milli, view_opt_string};
use crate::milli::Milli;
use crate::text::{chars_eq_str, string_from_chars};
use vstd::prelude::*;

verus! {

/// JSON insignificant whitespace.
pub open spec fn is_ws_char(c: char) -> bool {
    c == ' ' || c == '\t' || c == '\r' || c == '\n'
}

pub open spec fn is_digit_char(c: char) -> bool {
    '0' <= c && c <= '9'
}

pub open spec fn digit_val(c: char) -> int {
    (c as u8) as int - 48
}

/// First index at or after `i` holding a non-whitespace character.
pub open spec fn spec_skip_ws(s: Seq<char>, i: int) -> int
    decreases s.len() - i when 0 <= i <= s.len()
{
    if i < s.len() && is_ws_char(s[i]) {
        spec_skip_ws(s, i + 1)
    } else {
        i
    }
}

/// First index at or after `i` holding a non-digit character.
pub open spec fn spec_digits_end(s: Seq<char>, i: int) -> int
    decreases s.len() - i when 0 <= i <= s.len()
{
    if i < s.len() && is_digit_char(s[i]) {
        spec_digits_end(s, i + 1)
    } else {
        i
    }
}

/// Value of the decimal digit run `s[i..j)`.
pub open spec fn spec_digits_val(s: Seq<char>, i: int, j: int) -> int
    decreases j - i when i <= j
{
    if i < j {
        spec_digits_val(s, i, j - 1) * 10 + digit_val(s[j - 1])
    } else {
        0
    }
}

pub open spec fn pow10(n: nat) -> int
    decreases n,
{
    if n == 0 {
        1
    } else {
        10 * pow10((n - 1) as nat)
    }
}

proof fn lemma_pow10_pos(n: nat)
    ensures
        pow10(n) >= 1,
    decreases n,
{
    if n > 0 {
        lemma_pow10_pos((n - 1) as nat);
    }
}

proof fn lemma_pow10_mono(a: nat, b: nat)
    requires
        a <= b,
    ensures
        pow10(a) <= pow10(b),
        pow10(a) >= 1,
    decreases b,
{
    lemma_pow10_pos(a);
    if a < b {
        lemma_pow10_mono(a, (b - 1) as nat);
        lemma_pow10_pos((b - 1) as nat);
    }
}

/// Scale factor that turns `n` fraction digits into thousandths.
pub open spec fn frac_scale(n: int) -> int {
    if n == 1 {
        100
    } else if n == 2 {
        10
    } else {
        1
    }
}

/// One number token starting at `i`: optional `-`, one to fifteen integer
/// digits, optionally `.` and one to three fraction digits.  Returns the
/// value as a count of thousandths, and the index after the token.
pub open spec fn spec_parse_number(s: Seq<char>, i: int) -> Option<(int, int)>
{
    if 0 <= i < s.len() {
        let neg = s[i] == '-';
        let i0 = if neg { i + 1 } else { i };
        if i0 <= s.len() {
            let j = spec_digits_end(s, i0);
            if i0 < j <= i0 + 15 && j <= s.len() {
                let whole = spec_digits_val(s, i0, j);
                if j < s.len() && s[j] == '.' {
                    let k = spec_digits_end(s, j + 1);
                    if j + 1 < k <= j + 4 && k <= s.len() {
                        let frac = spec_digits_val(s, j + 1, k) * frac_scale(k - (j + 1));
                        let v = whole * 1000 + frac;
                        Some((if neg { -v } else { v }, k))
                    } else {
                        None
                    }
                } else {
                    let v = whole * 1000;
                    Some((if neg { -v } else { v }, j))
                }
            } else {
                None
            }
        } else {
            None
        }
    } else {
        None
    }
}

/// Skips insignificant whitespace.
pub(crate) fn skip_ws(s: &str, i: usize) -> (r: usize)
    requires
        i <= s@.len(),
    ensures
        r == spec_skip_ws(s@, i as int),
        i <= r <= s@.len(),
        r < s@.len() ==> !is_ws_char(s@[r as int]),
    decreases s@.len() - i,
{
    if i < s.unicode_len() {
        let c = s.get_char(i);
        if c == ' ' || c == '\t' || c == '\r' || c == '\n' {
            return skip_ws(s, i + 1);
        }
    }
    i
}

/// Scans to the end of a digit run.
fn digits_end(s: &str, i: usize) -> (r: usize)
    requires
        i <= s@.len(),
    ensures
        r == spec_digits_end(s@, i as int),
        i <= r <= s@.len(),
    decreases s@.len() - i,
{
    if i < s.unicode_len() {
        let c = s.get_char(i);
        if '0' <= c && c <= '9' {
            return digits_end(s, i + 1);
        }
    }
    i
}

proof fn lemma_digits_end_digits(s: Seq<char>, i: int, p: int)
    requires
        0 <= i <= s.len(),
        i <= p < spec_digits_end(s, i),
    ensures
        is_digit_char(s[p]),
    decreases s.len() - i,
{
    if i < s.len() && is_digit_char(s[i]) {
        if p > i {
            lemma_digits_end_digits(s, i + 1, p);
        }
    }
}

/// Reads the digit run `s[i..j)` as an `i64`.
fn read_digits(s: &str, i: usize, j: usize) -> (v: i64)
    requires
        i <= j <= s@.len(),
        j - i <= 15,
        forall|p: int| i <= p < j ==> is_digit_char(#[trigger] s@[p]),
    ensures
        v == spec_digits_val(s@, i as int, j as int),
        0 <= v < pow10((j - i) as nat),
{
    let mut v: i64 = 0;
    let mut k: usize = i;
    proof {
        lemma_pow10_mono(0, 15);
    }
    while k < j
        invariant
            i <= k <= j <= s@.len(),
            j - i <= 15,
            forall|p: int| i <= p < j ==> is_digit_char(#[trigger] s@[p]),
            v == spec_digits_val(s@, i as int, k as int),
            0 <= v < pow10((k - i) as nat),
        decreases j - k,
    {
        let c = s.get_char(k);
        proof {
            assert(is_digit_char(s@[k as int]));
            lemma_pow10_mono((k - i) as nat, 14);
            assert(pow10(14) == 100_000_000_000_000) by {
                reveal_with_fuel(pow10, 15);
            }
        }
        let d: i64 = (c as u8 - 48) as i64;
        v = v * 10 + d;
        k = k + 1;
    }
    v
}

/// Reads one number token; `Some((value_in_thousandths, end))` exactly when
/// the grammar accepts a number at `i`.
pub(crate) fn parse_number(s: &str, i: usize) -> (r: Option<(i64, usize)>)
    requires
        i <= s@.len(),
    ensures
        match spec_parse_number(s@, i as int) {
            Some((v, j)) => r is Some && r.unwrap().0 == v && r.unwrap().1 == j
                && i < j <= s@.len()
                && -1_000_000_000_000_000_000 <= v <= 1_000_000_000_000_000_000,
            None => r is None,
        },
{
    let n = s.unicode_len();
    if i >= n {
        return None;
    }
    let neg = s.get_char(i) == '-';
    let i0: usize = if neg { i + 1 } else { i };
    let j = digits_end(s, i0);
    if !(i0 < j && j - i0 <= 15) {
        return None;
    }
    proof {
        assert forall|p: int| i0 <= p < j implies is_digit_char(#[trigger] s@[p]) by {
            lemma_digits_end_digits(s@, i0 as int, p);
        }
        assert(pow10(15) == 1_000_000_000_000_000) by {
            reveal_with_fuel(pow10, 16);
        }
        lemma_pow10_mono((j - i0) as nat, 15);
    }
    let whole = read_digits(s, i0, j);
    if j < n && s.get_char(j) == '.' {
        let k = digits_end(s, j + 1);
        if !(j + 1 < k && k - (j + 1) <= 3) {
            return None;
        }
        proof {
            assert forall|p: int| j + 1 <= p < k implies is_digit_char(#[trigger] s@[p]) by {
                lemma_digits_end_digits(s@, (j + 1) as int, p);
            }
            assert(pow10(3) == 1000) by {
                reveal_with_fuel(pow10, 4);
            }
            lemma_pow10_mono((k - (j + 1)) as nat, 3);
        }
        let fd = read_digits(s, j + 1, k);
        let scale: i64 = if k - (j + 1) == 1 {
            100
        } else if k - (j + 1) == 2 {
            10
        } else {
            1
        };
        proof {
            assert(whole <= 999_999_999_999_999);
            if k - (j + 1) == 1 {
                assert(pow10(1) == 10) by {
                    reveal_with_fuel(pow10, 2);
                }
                assert(0 <= fd * scale <= 900);
            } else if k - (j + 1) == 2 {
                assert(pow10(2) == 100) by {
                    reveal_with_fuel(pow10, 3);
                }
                assert(0 <= fd * scale <= 990);
            } else {
                assert(0 <= fd * scale <= 999);
            }
        }
        let v: i64 = whole * 1000 + fd * scale;
        Some((if neg { -v } else { v }, k))
    } else {
        let v: i64 = whole * 1000;
        Some((if neg { -v } else { v }, j))
    }
}

/// The character named by a single-character escape, if the escape is accepted.
pub open spec fn esc_char(c: char) -> Option<char> {
    if c == '"' {
        Some('"')
    } else if c == '\\' {
        Some('\\')
    } else if c == '/' {
        Some('/')
    } else if c == 'n' {
        Some('\n')
    } else if c == 't' {
        Some('\t')
    } else if c == 'r' {
        Some('\r')
    } else if c == 'b' {
        Some('\u{0008}')
    } else if c == 'f' {
        Some('\u{000c}')
    } else {
        None
    }
}

fn esc_char_exec(c: char) -> (r: Option<char>)
    ensures
        r == esc_char(c),
{
    if c == '"' {
        Some('"')
    } else if c == '\\' {
        Some('\\')
    } else if c == '/' {
        Some('/')
    } else if c == 'n' {
        Some('\n')
    } else if c == 't' {
        Some('\t')
    } else if c == 'r' {
        Some('\r')
    } else if c == 'b' {
        Some('\u{0008}')
    } else if c == 'f' {
        Some('\u{000c}')
    } else {
        None
    }
}

/// Characters of a string token after its opening quote: the decoded
/// content and the index after the closing quote.
pub open spec fn spec_string_body(s: Seq<char>, i: int) -> Option<(Seq<char>, int)>
    decreases s.len() - i when 0 <= i <= s.len()
{
    if i < s.len() {
        let c = s[i];
        if c == '"' {
            Some((Seq::<char>::empty(), i + 1))
        } else if c == '\\' {
            if i + 1 < s.len() {
                match esc_char(s[i + 1]) {
                    Some(e) => match spec_string_body(s, i + 2) {
                        Some((t, j)) => Some((seq![e] + t, j)),
                        None => None,
                    },
                    None => None,
                }
            } else {
                None
            }
        } else {
            match spec_string_body(s, i + 1) {
                Some((t, j)) => Some((seq![c] + t, j)),
                None => None,
            }
        }
    } else {
        None
    }
}

/// One string token starting at `i` (which must hold the opening quote).
pub open spec fn spec_parse_string(s: Seq<char>, i: int) -> Option<(Seq<char>, int)> {
    if 0 <= i < s.len() && s[i] == '"' {
        spec_string_body(s, i + 1)
    } else {
        None
    }
}

fn string_body(s: &str, i: usize) -> (r: Option<(Vec<char>, usize)>)
    requires
        i <= s@.len(),
    ensures
        match spec_string_body(s@, i as int) {
            Some((t, j)) => r is Some && r.unwrap().0@ == t && r.unwrap().1 == j
                && i < j <= s@.len(),
            None => r is None,
        },
    decreases s@.len() - i,
{
    let n = s.unicode_len();
    if i >= n {
        return None;
    }
    let c = s.get_char(i);
    if c == '"' {
        Some((Vec::new(), i + 1))
    } else if c == '\\' {
        if i + 1 < n {
            match esc_char_exec(s.get_char(i + 1)) {
                Some(e) => match string_body(s, i + 2) {
                    Some((t, j)) => {
                        let mut t2 = t;
                        t2.insert(0, e);
                        proof {
                            assert(t2@ =~= seq![e] + t2@.subrange(1, t2@.len() as int));
                        }
                        Some((t2, j))
                    },
                    None => None,
                },
                None => None,
            }
        } else {
            None
        }
    } else {
        match string_body(s, i + 1) {
            Some((t, j)) => {
                let mut t2 = t;
                t2.insert(0, c);
                proof {
                    assert(t2@ =~= seq![c] + t2@.subrange(1, t2@.len() as int));
                }
                Some((t2, j))
            },
            None => None,
        }
    }
}

/// Reads one string token; `Some((content, end))` exactly when the grammar
/// accepts a string at `i`.
pub(crate) fn parse_string(s: &str, i: usize) -> (r: Option<(Vec<char>, usize)>)
    requires
        i <= s@.len(),
    ensures
        match spec_parse_string(s@, i as int) {
            Some((t, j)) => r is Some && r.unwrap().0@ == t && r.unwrap().1 == j
                && i + 1 < j <= s@.len(),
            None => r is None,
        },
    decreases s@.len() - i,
{
    let n = s.unicode_len();
    if i < n && s.get_char(i) == '"' {
        string_body(s, i + 1)
    } else {
        None
    }
}

/// The literal `null` stands at `i`.
pub open spec fn spec_null_at(s: Seq<char>, i: int) -> bool {
    &&& 0 <= i
    &&& i + 4 <= s.len()
    &&& s[i] == 'n'
    &&& s[i + 1] == 'u'
    &&& s[i + 2] == 'l'
    &&& s[i + 3] == 'l'
}

pub open spec fn spec_true_at(s: Seq<char>, i: int) -> bool {
    &&& 0 <= i
    &&& i + 4 <= s.len()
    &&& s[i] == 't'
    &&& s[i + 1] == 'r'
    &&& s[i + 2] == 'u'
    &&& s[i + 3] == 'e'
}

pub open spec fn spec_false_at(s: Seq<char>, i: int) -> bool {
    &&& 0 <= i
    &&& i + 5 <= s.len()
    &&& s[i] == 'f'
    &&& s[i + 1] == 'a'
    &&& s[i + 2] == 'l'
    &&& s[i + 3] == 's'
    &&& s[i + 4] == 'e'
}

fn null_at(s: &str, i: usize) -> (r: bool)
    requires
        i <= s@.len(),
    ensures
        r == spec_null_at(s@, i as int),
{
    let n = s.unicode_len();
    n - i >= 4 && s.get_char(i) == 'n' && s.get_char(i + 1) == 'u'
        && s.get_char(i + 2) == 'l' && s.get_char(i + 3) == 'l'
}

fn true_at(s: &str, i: usize) -> (r: bool)
    requires
        i <= s@.len(),
    ensures
        r == spec_true_at(s@, i as int),
{
    let n = s.unicode_len();
    n - i >= 4 && s.get_char(i) == 't' && s.get_char(i + 1) == 'r'
        && s.get_char(i + 2) == 'u' && s.get_char(i + 3) == 'e'
}

fn false_at(s: &str, i: usize) -> (r: bool)
    requires
        i <= s@.len(),
    ensures
        r == spec_false_at(s@, i as int),
{
    let n = s.unicode_len();
    n - i >= 5 && s.get_char(i) == 'f' && s.get_char(i + 1) == 'a'
        && s.get_char(i + 2) == 'l' && s.get_char(i + 3) == 's' && s.get_char(i + 4) == 'e'
}

/// Index after one JSON value starting at `i`, if the grammar accepts one.
pub open spec fn spec_skip_value(s: Seq<char>, i: int) -> Option<int>
    decreases s.len() - i, 0int when 0 <= i <= s.len()
{
    if i < s.len() {
        let c = s[i];
        if c == 'n' {
            if spec_null_at(s, i) {
                Some(i + 4)
            } else {
                None
            }
        } else if c == 't' {
            if spec_true_at(s, i) {
                Some(i + 4)
            } else {
                None
            }
        } else if c == 'f' {
            if spec_false_at(s, i) {
                Some(i + 5)
            } else {
                None
            }
        } else if c == '"' {
            match spec_parse_string(s, i) {
                Some((t, j)) => Some(j),
                None => None,
            }
        } else if c == '[' {
            let j = spec_skip_ws(s, i + 1);
            if i < j <= s.len() {
                spec_skip_items(s, j)
            } else {
                None
            }
        } else if c == '{' {
            let j = spec_skip_ws(s, i + 1);
            if i < j <= s.len() {
                spec_skip_members(s, j)
            } else {
                None
            }
        } else {
            match spec_parse_number(s, i) {
                Some((v, j)) => Some(j),
                None => None,
            }
        }
    } else {
        None
    }
}

/// Index after the remaining items of an array (with `[` already consumed).
pub open spec fn spec_skip_items(s: Seq<char>, i: int) -> Option<int>
    decreases s.len() - i, 1int when 0 <= i <= s.len()
{
    if i < s.len() {
        if s[i] == ']' {
            Some(i + 1)
        } else {
            match spec_skip_value(s, i) {
                Some(e) => if i < e <= s.len() {
                    let j = spec_skip_ws(s, e);
                    if e <= j <= s.len() {
                        if j < s.len() && s[j] == ',' {
                            let k = spec_skip_ws(s, j + 1);
                            if i < k <= s.len() {
                                spec_skip_items(s, k)
                            } else {
                                None
                            }
                        } else if j < s.len() && s[j] == ']' {
                            Some(j + 1)
                        } else {
                            None
                        }
                    } else {
                        None
                    }
                } else {
                    None
                },
                None => None,
            }
        }
    } else {
        None
    }
}

/// Index after the remaining members of an object (with `{` already consumed).
pub open spec fn spec_skip_members(s: Seq<char>, i: int) -> Option<int>
    decreases s.len() - i, 1int when 0 <= i <= s.len()
{
    if i < s.len() {
        if s[i] == '}' {
            Some(i + 1)
        } else {
            match spec_parse_string(s, i) {
                Some((key, j1)) => if i < j1 <= s.len() {
                    let j2 = spec_skip_ws(s, j1);
                    if j1 <= j2 <= s.len() && j2 < s.len() && s[j2] == ':' {
                        let j3 = spec_skip_ws(s, j2 + 1);
                        if i < j3 <= s.len() {
                            match spec_skip_value(s, j3) {
                                Some(e) => if j3 < e <= s.len() {
                                    let j4 = spec_skip_ws(s, e);
                                    if e <= j4 <= s.len() {
                                        if j4 < s.len() && s[j4] == ',' {
                                            let k = spec_skip_ws(s, j4 + 1);
                                            if i < k <= s.len() {
                                                spec_skip_members(s, k)
                                            } else {
                                                None
                                            }
                                        } else if j4 < s.len() && s[j4] == '}' {
                                            Some(j4 + 1)
                                        } else {
                                            None
                                        }
                                    } else {
                                        None
                                    }
                                } else {
                                    None
                                },
                                None => None,
                            }
                        } else {
                            None
                        }
                    } else {
                        None
                    }
                } else {
                    None
                },
                None => None,
            }
        }
    } else {
        None
    }
}

/// Skips one JSON value.
fn skip_value(s: &str, i: usize) -> (r: Option<usize>)
    requires
        i <= s@.len(),
    ensures
        match spec_skip_value(s@, i as int) {
            Some(e) => r is Some && r.unwrap() == e && i < e <= s@.len(),
            None => r is None,
        },
    decreases s@.len() - i, 0int,
{
    let n = s.unicode_len();
    if i >= n {
        return None;
    }
    let c = s.get_char(i);
    if c == 'n' {
        if null_at(s, i) {
            Some(i + 4)
        } else {
            None
        }
    } else if c == 't' {
        if true_at(s, i) {
            Some(i + 4)
        } else {
            None
        }
    } else if c == 'f' {
        if false_at(s, i) {
            Some(i + 5)
        } else {
            None
        }
    } else if c == '"' {
        match parse_string(s, i) {
            Some((t, j)) => Some(j),
            None => None,
        }
    } else if c == '[' {
        let j = skip_ws(s, i + 1);
        skip_items(s, j)
    } else if c == '{' {
        let j = skip_ws(s, i + 1);
        skip_members(s, j)
    } else {
        match parse_number(s, i) {
            Some((v, j)) => Some(j),
            None => None,
        }
    }
}

/// Skips the remaining items of an array.
fn skip_items(s: &str, i: usize) -> (r: Option<usize>)
    requires
        i <= s@.len(),
    ensures
        match spec_skip_items(s@, i as int) {
            Some(e) => r is Some && r.unwrap() == e && i < e <= s@.len(),
            None => r is None,
        },
    decreases s@.len() - i, 1int,
{
    let n = s.unicode_len();
    if i >= n {
        return None;
    }
    if s.get_char(i) == ']' {
        return Some(i + 1);
    }
    match skip_value(s, i) {
        Some(e) => {
            let j = skip_ws(s, e);
            if j < n && s.get_char(j) == ',' {
                let k = skip_ws(s, j + 1);
                skip_items(s, k)
            } else if j < n && s.get_char(j) == ']' {
                Some(j + 1)
            } else {
                None
            }
        },
        None => None,
    }
}

/// Skips the remaining members of an object.
fn skip_members(s: &str, i: usize) -> (r: Option<usize>)
    requires
        i <= s@.len(),
    ensures
        match spec_skip_members(s@, i as int) {
            Some(e) => r is Some && r.unwrap() == e && i < e <= s@.len(),
            None => r is None,
        },
    decreases s@.len() - i, 1int,
{
    let n = s.unicode_len();
    if i >= n {
        return None;
    }
    if s.get_char(i) == '}' {
        return Some(i + 1);
    }
    match parse_string(s, i) {
        Some((key, j1)) => {
            let j2 = skip_ws(s, j1);
            if !(j2 < n && s.get_char(j2) == ':') {
                return None;
            }
            let j3 = skip_ws(s, j2 + 1);
            match skip_value(s, j3) {
                Some(e) => {
                    let j4 = skip_ws(s, e);
                    if j4 < n && s.get_char(j4) == ',' {
                        let k = skip_ws(s, j4 + 1);
                        skip_members(s, k)
                    } else if j4 < n && s.get_char(j4) == '}' {
                        Some(j4 + 1)
                    } else {
                        None
                    }
                },
                None => None,
            }
        },
        None => None,
    }
}

/// A number token or `null`: the reading (in thousandths) or `None`.
pub open spec fn spec_number_or_null(s: Seq<char>, i: int) -> Option<(Option<int>, int)> {
    if spec_null_at(s, i) {
        Some((None, i + 4))
    } else {
        match spec_parse_number(s, i) {
            Some((v, j)) => Some((Some(v), j)),
            None => None,
        }
    }
}

fn number_or_null(s: &str, i: usize) -> (r: Option<(Option<Milli>, usize)>)
    requires
        i <= s@.len(),
    ensures
        match spec_number_or_null(s@, i as int) {
            Some((v, j)) => r is Some && view_opt_milli(r.unwrap().0) == v && r.unwrap().1 == j
                && i < j <= s@.len(),
            None => r is None,
        },
{
    let _n: usize = s.unicode_len();
    if null_at(s, i) {
        Some((None, i + 4))
    } else {
        match parse_number(s, i) {
            Some((v, j)) => Some((Some(Milli(v)), j)),
            None => None,
        }
    }
}

/// A string token or `null`: the content or `None`.
pub open spec fn spec_string_or_null(s: Seq<char>, i: int) -> Option<(Option<Seq<char>>, int)> {
    if spec_null_at(s, i) {
        Some((None, i + 4))
    } else {
        match spec_parse_string(s, i) {
            Some((v, j)) => Some((Some(v), j)),
            None => None,
        }
    }
}

fn string_or_null(s: &str, i: usize) -> (r: Option<(Option<String>, usize)>)
    requires
        i <= s@.len(),
    ensures
        match spec_string_or_null(s@, i as int) {
            Some((v, j)) => r is Some && view_opt_string(r.unwrap().0) == v && r.unwrap().1 == j
                && i < j <= s@.len(),
            None => r is None,
        },
{
    let _n: usize = s.unicode_len();
    if null_at(s, i) {
        Some((None, i + 4))
    } else {
        match parse_string(s, i) {
            Some((v, j)) => Some((Some(string_from_chars(&v)), j)),
            None => None,
        }
    }
}

/// Remaining items of a `[number|null, ...]` array (with `[` consumed).
pub open spec fn spec_milli_items(s: Seq<char>, i: int) -> Option<(Seq<Option<int>>, int)>
    decreases s.len() - i when 0 <= i <= s.len()
{
    if i < s.len() {
        if s[i] == ']' {
            Some((Seq::empty(), i + 1))
        } else {
            match spec_number_or_null(s, i) {
                Some((v, e)) => if i < e <= s.len() {
                    let j = spec_skip_ws(s, e);
                    if e <= j <= s.len() {
                        if j < s.len() && s[j] == ',' {
                            let k = spec_skip_ws(s, j + 1);
                            if i < k <= s.len() {
                                match spec_milli_items(s, k) {
                                    Some((rest, end)) => Some((seq![v] + rest, end)),
                                    None => None,
                                }
                            } else {
                                None
                            }
                        } else if j < s.len() && s[j] == ']' {
                            Some((seq![v], j + 1))
                        } else {
                            None
                        }
                    } else {
                        None
                    }
                } else {
                    None
                },
                None => None,
            }
        }
    } else {
        None
    }
}

fn milli_items(s: &str, i: usize) -> (r: Option<(Vec<Option<Milli>>, usize)>)
    requires
        i <= s@.len(),
    ensures
        match spec_milli_items(s@, i as int) {
            Some((vs, e)) => r is Some
                && r.unwrap().0@.map(|k: int, o: Option<Milli>| view_opt_milli(o)) == vs
                && r.unwrap().1 == e && i < e <= s@.len(),
            None => r is None,
        },
    decreases s@.len() - i,
{
    let n = s.unicode_len();
    if i >= n {
        return None;
    }
    if s.get_char(i) == ']' {
        let out: Vec<Option<Milli>> = Vec::new();
        proof {
            assert(out@.map(|k: int, o: Option<Milli>| view_opt_milli(o))
                =~= Seq::<Option<int>>::empty());
        }
        return Some((out, i + 1));
    }
    match number_or_null(s, i) {
        Some((v, e)) => {
            let j = skip_ws(s, e);
            if j < n && s.get_char(j) == ',' {
                let k = skip_ws(s, j + 1);
                match milli_items(s, k) {
                    Some((rest, end)) => {
                        let mut out = rest;
                        out.insert(0, v);
                        proof {
                            let f = |q: int, o: Option<Milli>| view_opt_milli(o);
                            assert(out@.map(f) =~= seq![view_opt_milli(v)]
                                + out@.subrange(1, out@.len() as int).map(f));
                        }
                        Some((out, end))
                    },
                    None => None,
                }
            } else if j < n && s.get_char(j) == ']' {
                let mut out: Vec<Option<Milli>> = Vec::new();
                out.push(v);
                proof {
                    let f = |q: int, o: Option<Milli>| view_opt_milli(o);
                    assert(out@.map(f) =~= seq![view_opt_milli(v)]);
                }
                Some((out, j + 1))
            } else {
                None
            }
        },
        None => None,
    }
}

/// GPU accumulator before any member was seen.
pub open spec fn gpu_view_init() -> GpuDataView {
    GpuDataView {
        name: None,
        vendor: None,
        temperature: None,
        hot_spot_temperature: None,
        power: None,
        core_clock: None,
        memory_clock: None,
        fan_speed: None,
        load: None,
    }
}

/// CPU accumulator before any member was seen.
pub open spec fn cpu_view_init() -> CpuDataView {
    CpuDataView {
        name: None,
        temperature: None,
        package_temperature: None,
        core_temperatures: Seq::empty(),
        max_temperature: None,
        power: None,
        core_powers: Seq::empty(),
    }
}

/// One GPU member's value at `i`, keyed by `key`, folded into `acc`.
pub open spec fn spec_gpu_field(s: Seq<char>, i: int, key: Seq<char>, acc: GpuDataView)
    -> Option<(GpuDataView, int)>
{
    if key == "name"@ {
        match spec_string_or_null(s, i) {
            Some((v, e)) => Some((GpuDataView { name: v, ..acc }, e)),
            None => None,
        }
    } else if key == "vendor"@ {
        match spec_string_or_null(s, i) {
            Some((v, e)) => Some((GpuDataView { vendor: v, ..acc }, e)),
            None => None,
        }
    } else if key == "temperature"@ {
        match spec_number_or_null(s, i) {
            Some((v, e)) => Some((GpuDataView { temperature: v, ..acc }, e)),
            None => None,
        }
    } else if key == "hot_spot_temperature"@ {
        match spec_number_or_null(s, i) {
            Some((v, e)) => Some((GpuDataView { hot_spot_temperature: v, ..acc }, e)),
            None => None,
        }
    } else if key == "power"@ {
        match spec_number_or_null(s, i) {
            Some((v, e)) => Some((GpuDataView { power: v, ..acc }, e)),
            None => None,
        }
    } else if key == "core_clock"@ {
        match spec_number_or_null(s, i) {
            Some((v, e)) => Some((GpuDataView { core_clock: v, ..acc }, e)),
            None => None,
        }
    } else if key == "memory_clock"@ {
        match spec_number_or_null(s, i) {
            Some((v, e)) => Some((GpuDataView { memory_clock: v, ..acc }, e)),
            None => None,
        }
    } else if key == "fan_speed"@ {
        match spec_number_or_null(s, i) {
            Some((v, e)) => Some((GpuDataView { fan_speed: v, ..acc }, e)),
            None => None,
        }
    } else if key == "load"@ {
        match spec_number_or_null(s, i) {
            Some((v, e)) => Some((GpuDataView { load: v, ..acc }, e)),
            None => None,
        }
    } else {
        match spec_skip_value(s, i) {
            Some(e) => Some((acc, e)),
            None => None,
        }
    }
}

fn gpu_field(s: &str, i: usize, key: &Vec<char>, acc: SidecarGpuData)
    -> (r: Option<(SidecarGpuData, usize)>)
    requires
        i <= s@.len(),
    ensures
        match spec_gpu_field(s@, i as int, key@, acc@) {
            Some((av, e)) => r is Some && r.unwrap().0@ == av && r.unwrap().1 == e
                && i < e <= s@.len(),
            None => r is None,
        },
{
    if chars_eq_str(key, "name") {
        match string_or_null(s, i) {
            Some((v, e)) => Some((SidecarGpuData { name: v, ..acc }, e)),
            None => None,
        }
    } else if chars_eq_str(key, "vendor") {
        match string_or_null(s, i) {
            Some((v, e)) => Some((SidecarGpuData { vendor: v, ..acc }, e)),
            None => None,
        }
    } else if chars_eq_str(key, "temperature") {
        match number_or_null(s, i) {
            Some((v, e)) => Some((SidecarGpuData { temperature: v, ..acc }, e)),
            None => None,
        }
    } else if chars_eq_str(key, "hot_spot_temperature") {
        match number_or_null(s, i) {
            Some((v, e)) => Some((SidecarGpuData { hot_spot_temperature: v, ..acc }, e)),
            None => None,
        }
    } else if chars_eq_str(key, "power") {
        match number_or_null(s, i) {
            Some((v, e)) => Some((SidecarGpuData { power: v, ..acc }, e)),
            None => None,
        }
    } else if chars_eq_str(key, "core_clock") {
        match number_or_null(s, i) {
            Some((v, e)) => Some((SidecarGpuData { core_clock: v, ..acc }, e)),
            None => None,
        }
    } else if chars_eq_str(key, "memory_clock") {
        match number_or_null(s, i) {
            Some((v, e)) => Some((SidecarGpuData { memory_clock: v, ..acc }, e)),
            None => None,
        }
    } else if chars_eq_str(key, "fan_speed") {
        match number_or_null(s, i) {
            Some((v, e)) => Some((SidecarGpuData { fan_speed: v, ..acc }, e)),
            None => None,
        }
    } else if chars_eq_str(key, "load") {
        match number_or_null(s, i) {
            Some((v, e)) => Some((SidecarGpuData { load: v, ..acc }, e)),
            None => None,
        }
    } else {
        match skip_value(s, i) {
            Some(e) => Some((acc, e)),
            None => None,
        }
    }
}

/// Remaining members of a GPU object (with `{` consumed), folded into `acc`.
pub open spec fn spec_gpu_members(s: Seq<char>, i: int, acc: GpuDataView)
    -> Option<(GpuDataView, int)>
    decreases s.len() - i when 0 <= i <= s.len()
{
    if i < s.len() {
        if s[i] == '}' {
            Some((acc, i + 1))
        } else {
            match spec_parse_string(s, i) {
                Some((key, j1)) => if i < j1 <= s.len() {
                    let j2 = spec_skip_ws(s, j1);
                    if j1 <= j2 <= s.len() && j2 < s.len() && s[j2] == ':' {
                        let j3 = spec_skip_ws(s, j2 + 1);
                        if i < j3 <= s.len() {
                            match spec_gpu_field(s, j3, key, acc) {
                                Some((acc2, e)) => if i < e <= s.len() {
                                    let j4 = spec_skip_ws(s, e);
                                    if e <= j4 <= s.len() {
                                        if j4 < s.len() && s[j4] == ',' {
                                            let k = spec_skip_ws(s, j4 + 1);
                                            if i < k <= s.len() {
                                                spec_gpu_members(s, k, acc2)
                                            } else {
                                                None
                                            }
                                        } else if j4 < s.len() && s[j4] == '}' {
                                            Some((acc2, j4 + 1))
                                        } else {
                                            None
                                        }
                                    } else {
                                        None
                                    }
                                } else {
                                    None
                                },
                                None => None,
                            }
                        } else {
                            None
                        }
                    } else {
                        None
                    }
                } else {
                    None
                },
                None => None,
            }
        }
    } else {
        None
    }
}

fn gpu_members(s: &str, i: usize, acc: SidecarGpuData) -> (r: Option<(SidecarGpuData, usize)>)
    requires
        i <= s@.len(),
    ensures
        match spec_gpu_members(s@, i as int, acc@) {
            Some((av, e)) => r is Some && r.unwrap().0@ == av && r.unwrap().1 == e
                && i < e <= s@.len(),
            None => r is None,
        },
    decreases s@.len() - i,
{
    let n = s.unicode_len();
    if i >= n {
        return None;
    }
    if s.get_char(i) == '}' {
        return Some((acc, i + 1));
    }
    match parse_string(s, i) {
        Some((key, j1)) => {
            let j2 = skip_ws(s, j1);
            if !(j2 < n && s.get_char(j2) == ':') {
                return None;
            }
            let j3 = skip_ws(s, j2 + 1);
            match gpu_field(s, j3, &key, acc) {
                Some((acc2, e)) => {
                    let j4 = skip_ws(s, e);
                    if j4 < n && s.get_char(j4) == ',' {
                        let k = skip_ws(s, j4 + 1);
                        gpu_members(s, k, acc2)
                    } else if j4 < n && s.get_char(j4) == '}' {
                        Some((acc2, j4 + 1))
                    } else {
                        None
                    }
                },
                None => None,
            }
        },
        None => None,
    }
}

/// Remaining items of the GPU array (with `[` consumed); each item is an object.
pub open spec fn spec_gpu_items(s: Seq<char>, i: int) -> Option<(Seq<GpuDataView>, int)>
    decreases s.len() - i when 0 <= i <= s.len()
{
    if i < s.len() {
        if s[i] == ']' {
            Some((Seq::empty(), i + 1))
        } else if s[i] == '{' {
            let j = spec_skip_ws(s, i + 1);
            if i < j <= s.len() {
                match spec_gpu_members(s, j, gpu_view_init()) {
                    Some((gv, e)) => if i < e <= s.len() {
                        let j2 = spec_skip_ws(s, e);
                        if e <= j2 <= s.len() {
                            if j2 < s.len() && s[j2] == ',' {
                                let k = spec_skip_ws(s, j2 + 1);
                                if i < k <= s.len() {
                                    match spec_gpu_items(s, k) {
                                        Some((rest, end)) => Some((seq![gv] + rest, end)),
                                        None => None,
                                    }
                                } else {
                                    None
                                }
                            } else if j2 < s.len() && s[j2] == ']' {
                                Some((seq![gv], j2 + 1))
                            } else {
                                None
                            }
                        } else {
                            None
                        }
                    } else {
                        None
                    },
                    None => None,
                }
            } else {
                None
            }
        } else {
            None
        }
    } else {
        None
    }
}

fn gpu_acc_new() -> (r: SidecarGpuData)
    ensures
        r@ == gpu_view_init(),
{
    SidecarGpuData {
        name: None,
        vendor: None,
        temperature: None,
        hot_spot_temperature: None,
        power: None,
        core_clock: None,
        memory_clock: None,
        fan_speed: None,
        load: None,
    }
}

fn gpu_items(s: &str, i: usize) -> (r: Option<(Vec<SidecarGpuData>, usize)>)
    requires
        i <= s@.len(),
    ensures
        match spec_gpu_items(s@, i as int) {
            Some((gs, e)) => r is Some
                && r.unwrap().0@.map(|k: int, g: SidecarGpuData| g@) == gs
                && r.unwrap().1 == e && i < e <= s@.len(),
            None => r is None,
        },
    decreases s@.len() - i,
{
    let n = s.unicode_len();
    if i >= n {
        return None;
    }
    if s.get_char(i) == ']' {
        let out: Vec<SidecarGpuData> = Vec::new();
        proof {
            assert(out@.map(|k: int, g: SidecarGpuData| g@) =~= Seq::<GpuDataView>::empty());
        }
        return Some((out, i + 1));
    }
    if s.get_char(i) != '{' {
        return None;
    }
    let j = skip_ws(s, i + 1);
    match gpu_members(s, j, gpu_acc_new()) {
        Some((g, e)) => {
            let j2 = skip_ws(s, e);
            if j2 < n && s.get_char(j2) == ',' {
                let k = skip_ws(s, j2 + 1);
                match gpu_items(s, k) {
                    Some((rest, end)) => {
                        let mut out = rest;
                        out.insert(0, g);
                        proof {
                            let f = |q: int, x: SidecarGpuData| x@;
                            assert(out@.map(f) =~= seq![out@[0]@]
                                + out@.subrange(1, out@.len() as int).map(f));
                        }
                        Some((out, end))
                    },
                    None => None,
                }
            } else if j2 < n && s.get_char(j2) == ']' {
                let mut out: Vec<SidecarGpuData> = Vec::new();
                out.push(g);
                proof {
                    let f = |q: int, x: SidecarGpuData| x@;
                    assert(out@.map(f) =~= seq![out@[0]@]);
                }
                Some((out, j2 + 1))
            } else {
                None
            }
        },
        None => None,
    }
}

/// One CPU member's value at `i`, keyed by `key`, folded into `acc`.
pub open spec fn spec_cpu_field(s: Seq<char>, i: int, key: Seq<char>, acc: CpuDataView)
    -> Option<(CpuDataView, int)>
{
    if key == "name"@ {
        match spec_string_or_null(s, i) {
            Some((v, e)) => Some((CpuDataView { name: v, ..acc }, e)),
            None => None,
        }
    } else if key == "temperature"@ {
        match spec_number_or_null(s, i) {
            Some((v, e)) => Some((CpuDataView { temperature: v, ..acc }, e)),
            None => None,
        }
    } else if key == "package_temperature"@ {
        match spec_number_or_null(s, i) {
            Some((v, e)) => Some((CpuDataView { package_temperature: v, ..acc }, e)),
            None => None,
        }
    } else if key == "max_temperature"@ {
        match spec_number_or_null(s, i) {
            Some((v, e)) => Some((CpuDataView { max_temperature: v, ..acc }, e)),
            None => None,
        }
    } else if key == "power"@ {
        match spec_number_or_null(s, i) {
            Some((v, e)) => Some((CpuDataView { power: v, ..acc }, e)),
            None => None,
        }
    } else if key == "core_temperatures"@ {
        if 0 <= i < s.len() && s[i] == '[' {
            let j = spec_skip_ws(s, i + 1);
            if i < j <= s.len() {
                match spec_milli_items(s, j) {
                    Some((vs, e)) => Some((CpuDataView { core_temperatures: vs, ..acc }, e)),
                    None => None,
                }
            } else {
                None
            }
        } else {
            None
        }
    } else if key == "core_powers"@ {
        if 0 <= i < s.len() && s[i] == '[' {
            let j = spec_skip_ws(s, i + 1);
            if i < j <= s.len() {
                match spec_milli_items(s, j) {
                    Some((vs, e)) => Some((CpuDataView { core_powers: vs, ..acc }, e)),
                    None => None,
                }
            } else {
                None
            }
        } else {
            None
        }
    } else {
        match spec_skip_value(s, i) {
            Some(e) => Some((acc, e)),
            None => None,
        }
    }
}

fn cpu_field(s: &str, i: usize, key: &Vec<char>, acc: SidecarCpuData)
    -> (r: Option<(SidecarCpuData, usize)>)
    requires
        i <= s@.len(),
    ensures
        match spec_cpu_field(s@, i as int, key@, acc@) {
            Some((av, e)) => r is Some && r.unwrap().0@ == av && r.unwrap().1 == e
                && i < e <= s@.len(),
            None => r is None,
        },
{
    let n = s.unicode_len();
    if chars_eq_str(key, "name") {
        match string_or_null(s, i) {
            Some((v, e)) => Some((SidecarCpuData { name: v, ..acc }, e)),
            None => None,
        }
    } else if chars_eq_str(key, "temperature") {
        match number_or_null(s, i) {
            Some((v, e)) => Some((SidecarCpuData { temperature: v, ..acc }, e)),
            None => None,
        }
    } else if chars_eq_str(key, "package_temperature") {
        match number_or_null(s, i) {
            Some((v, e)) => Some((SidecarCpuData { package_temperature: v, ..acc }, e)),
            None => None,
        }
    } else if chars_eq_str(key, "max_temperature") {
        match number_or_null(s, i) {
            Some((v, e)) => Some((SidecarCpuData { max_temperature: v, ..acc }, e)),
            None => None,
        }
    } else if chars_eq_str(key, "power") {
        match number_or_null(s, i) {
            Some((v, e)) => Some((SidecarCpuData { power: v, ..acc }, e)),
            None => None,
        }
    } else if chars_eq_str(key, "core_temperatures") {
        if i < n && s.get_char(i) == '[' {
            let j = skip_ws(s, i + 1);
            match milli_items(s, j) {
                Some((vs, e)) => Some((SidecarCpuData { core_temperatures: vs, ..acc }, e)),
                None => None,
            }
        } else {
            None
        }
    } else if chars_eq_str(key, "core_powers") {
        if i < n && s.get_char(i) == '[' {
            let j = skip_ws(s, i + 1);
            match milli_items(s, j) {
                Some((vs, e)) => Some((SidecarCpuData { core_powers: vs, ..acc }, e)),
                None => None,
            }
        } else {
            None
        }
    } else {
        match skip_value(s, i) {
            Some(e) => Some((acc, e)),
            None => None,
        }
    }
}

/// Remaining members of the CPU object (with `{` consumed), folded into `acc`.
pub open spec fn spec_cpu_members(s: Seq<char>, i: int, acc: CpuDataView)
    -> Option<(CpuDataView, int)>
    decreases s.len() - i when 0 <= i <= s.len()
{
    if i < s.len() {
        if s[i] == '}' {
            Some((acc, i + 1))
        } else {
            match spec_parse_string(s, i) {
                Some((key, j1)) => if i < j1 <= s.len() {
                    let j2 = spec_skip_ws(s, j1);
                    if j1 <= j2 <= s.len() && j2 < s.len() && s[j2] == ':' {
                        let j3 = spec_skip_ws(s, j2 + 1);
                        if i < j3 <= s.len() {
                            match spec_cpu_field(s, j3, key, acc) {
                                Some((acc2, e)) => if i < e <= s.len() {
                                    let j4 = spec_skip_ws(s, e);
                                    if e <= j4 <= s.len() {
                                        if j4 < s.len() && s[j4] == ',' {
                                            let k = spec_skip_ws(s, j4 + 1);
                                            if i < k <= s.len() {
                                                spec_cpu_members(s, k, acc2)
                                            } else {
                                                None
                                            }
                                        } else if j4 < s.len() && s[j4] == '}' {
                                            Some((acc2, j4 + 1))
                                        } else {
                                            None
                                        }
                                    } else {
                                        None
                                    }
                                } else {
                                    None
                                },
                                None => None,
                            }
                        } else {
                            None
                        }
                    } else {
                        None
                    }
                } else {
                    None
                },
                None => None,
            }
        }
    } else {
        None
    }
}

fn cpu_acc_new() -> (r: SidecarCpuData)
    ensures
        r@ == cpu_view_init(),
{
    let r = SidecarCpuData {
        name: None,
        temperature: None,
        package_temperature: None,
        core_temperatures: Vec::new(),
        max_temperature: None,
        power: None,
        core_powers: Vec::new(),
    };
    proof {
        assert(r@.core_temperatures =~= Seq::<Option<int>>::empty());
        assert(r@.core_powers =~= Seq::<Option<int>>::empty());
    }
    r
}

fn cpu_members(s: &str, i: usize, acc: SidecarCpuData) -> (r: Option<(SidecarCpuData, usize)>)
    requires
        i <= s@.len(),
    ensures
        match spec_cpu_members(s@, i as int, acc@) {
            Some((av, e)) => r is Some && r.unwrap().0@ == av && r.unwrap().1 == e
                && i < e <= s@.len(),
            None => r is None,
        },
    decreases s@.len() - i,
{
    let n = s.unicode_len();
    if i >= n {
        return None;
    }
    if s.get_char(i) == '}' {
        return Some((acc, i + 1));
    }
    match parse_string(s, i) {
        Some((key, j1)) => {
            let j2 = skip_ws(s, j1);
            if !(j2 < n && s.get_char(j2) == ':') {
                return None;
            }
            let j3 = skip_ws(s, j2 + 1);
            match cpu_field(s, j3, &key, acc) {
                Some((acc2, e)) => {
                    let j4 = skip_ws(s, e);
                    if j4 < n && s.get_char(j4) == ',' {
                        let k = skip_ws(s, j4 + 1);
                        cpu_members(s, k, acc2)
                    } else if j4 < n && s.get_char(j4) == '}' {
                        Some((acc2, j4 + 1))
                    } else {
                        None
                    }
                },
                None => None,
            }
        },
        None => None,
    }
}

/// Accumulated top-level members of a snapshot line.
pub struct TopView {
    pub cpu: Option<CpuDataView>,
    pub gpu: Seq<GpuDataView>,
    pub timestamp: Option<int>,
    pub error: Option<Seq<char>>,
}

/// Top-level accumulator before any member was seen.
pub open spec fn top_view_init() -> TopView {
    TopView { cpu: None, gpu: Seq::empty(), timestamp: None, error: None }
}

struct TopAcc {
    cpu: Option<SidecarCpuData>,
    gpu: Vec<SidecarGpuData>,
    timestamp: Option<i64>,
    error: Option<String>,
}

impl View for TopAcc {
    type V = TopView;

    closed spec fn view(&self) -> TopView {
        TopView {
            cpu: match self.cpu {
                Some(c) => Some(c@),
                None => None,
            },
            gpu: self.gpu@.map(|i: int, g: SidecarGpuData| g@),
            timestamp: match self.timestamp {
                Some(v) => Some(v as int),
                None => None,
            },
            error: view_opt_string(self.error),
        }
    }
}

/// One top-level member's value at `i`, keyed by `key`, folded into `acc`.
/// A `timestamp` value must be a whole number of milliseconds.
pub open spec fn spec_top_field(s: Seq<char>, i: int, key: Seq<char>, acc: TopView)
    -> Option<(TopView, int)>
{
    if key == "cpu"@ {
        if spec_null_at(s, i) {
            Some((TopView { cpu: None, ..acc }, i + 4))
        } else if 0 <= i < s.len() && s[i] == '{' {
            let j = spec_skip_ws(s, i + 1);
            if i < j <= s.len() {
                match spec_cpu_members(s, j, cpu_view_init()) {
                    Some((cv, e)) => Some((TopView { cpu: Some(cv), ..acc }, e)),
                    None => None,
                }
            } else {
                None
            }
        } else {
            None
        }
    } else if key == "gpu"@ {
        if 0 <= i < s.len() && s[i] == '[' {
            let j = spec_skip_ws(s, i + 1);
            if i < j <= s.len() {
                match spec_gpu_items(s, j) {
                    Some((gs, e)) => Some((TopView { gpu: gs, ..acc }, e)),
                    None => None,
                }
            } else {
                None
            }
        } else {
            None
        }
    } else if key == "timestamp"@ {
        match spec_parse_number(s, i) {
            Some((v, j)) => if v >= 0 {
                if v % 1000 == 0 {
                    Some((TopView { timestamp: Some(v / 1000), ..acc }, j))
                } else {
                    None
                }
            } else {
                let w = -v;
                if w % 1000 == 0 {
                    Some((TopView { timestamp: Some(-(w / 1000)), ..acc }, j))
                } else {
                    None
                }
            },
            None => None,
        }
    } else if key == "error"@ {
        match spec_string_or_null(s, i) {
            Some((v, e)) => Some((TopView { error: v, ..acc }, e)),
            None => None,
        }
    } else {
        match spec_skip_value(s, i) {
            Some(e) => Some((acc, e)),
            None => None,
        }
    }
}

fn top_field(s: &str, i: usize, key: &Vec<char>, acc: TopAcc) -> (r: Option<(TopAcc, usize)>)
    requires
        i <= s@.len(),
    ensures
        match spec_top_field(s@, i as int, key@, acc@) {
            Some((av, e)) => r is Some && r.unwrap().0@ == av && r.unwrap().1 == e
                && i < e <= s@.len(),
            None => r is None,
        },
{
    let n = s.unicode_len();
    if chars_eq_str(key, "cpu") {
        if null_at(s, i) {
            Some((TopAcc { cpu: None, ..acc }, i + 4))
        } else if i < n && s.get_char(i) == '{' {
            let j = skip_ws(s, i + 1);
            match cpu_members(s, j, cpu_acc_new()) {
                Some((c, e)) => Some((TopAcc { cpu: Some(c), ..acc }, e)),
                None => None,
            }
        } else {
            None
        }
    } else if chars_eq_str(key, "gpu") {
        if i < n && s.get_char(i) == '[' {
            let j = skip_ws(s, i + 1);
            match gpu_items(s, j) {
                Some((gs, e)) => Some((TopAcc { gpu: gs, ..acc }, e)),
                None => None,
            }
        } else {
            None
        }
    } else if chars_eq_str(key, "timestamp") {
        match parse_number(s, i) {
            Some((v, j)) => {
                if v >= 0 {
                    if v % 1000 == 0 {
                        Some((TopAcc { timestamp: Some(v / 1000), ..acc }, j))
                    } else {
                        None
                    }
                } else {
                    let w: i64 = -v;
                    if w % 1000 == 0 {
                        Some((TopAcc { timestamp: Some(-(w / 1000)), ..acc }, j))
                    } else {
                        None
                    }
                }
            },
            None => None,
        }
    } else if chars_eq_str(key, "error") {
        match string_or_null(s, i) {
            Some((v, e)) => Some((TopAcc { error: v, ..acc }, e)),
            None => None,
        }
    } else {
        match skip_value(s, i) {
            Some(e) => Some((acc, e)),
            None => None,
        }
    }
}

/// Remaining top-level members (with `{` consumed), folded into `acc`.
pub open spec fn spec_top_members(s: Seq<char>, i: int, acc: TopView) -> Option<(TopView, int)>
    decreases s.len() - i when 0 <= i <= s.len()
{
    if i < s.len() {
        if s[i] == '}' {
            Some((acc, i + 1))
        } else {
            match spec_parse_string(s, i) {
                Some((key, j1)) => if i < j1 <= s.len() {
                    let j2 = spec_skip_ws(s, j1);
                    if j1 <= j2 <= s.len() && j2 < s.len() && s[j2] == ':' {
                        let j3 = spec_skip_ws(s, j2 + 1);
                        if i < j3 <= s.len() {
                            match spec_top_field(s, j3, key, acc) {
                                Some((acc2, e)) => if i < e <= s.len() {
                                    let j4 = spec_skip_ws(s, e);
                                    if e <= j4 <= s.len() {
                                        if j4 < s.len() && s[j4] == ',' {
                                            let k = spec_skip_ws(s, j4 + 1);
                                            if i < k <= s.len() {
                                                spec_top_members(s, k, acc2)
                                            } else {
                                                None
                                            }
                                        } else if j4 < s.len() && s[j4] == '}' {
                                            Some((acc2, j4 + 1))
                                        } else {
                                            None
                                        }
                                    } else {
                                        None
                                    }
                                } else {
                                    None
                                },
                                None => None,
                            }
                        } else {
                            None
                        }
                    } else {
                        None
                    }
                } else {
                    None
                },
                None => None,
            }
        }
    } else {
        None
    }
}

fn top_members(s: &str, i: usize, acc: TopAcc) -> (r: Option<(TopAcc, usize)>)
    requires
        i <= s@.len(),
    ensures
        match spec_top_members(s@, i as int, acc@) {
            Some((av, e)) => r is Some && r.unwrap().0@ == av && r.unwrap().1 == e
                && i < e <= s@.len(),
            None => r is None,
        },
    decreases s@.len() - i,
{
    let n = s.unicode_len();
    if i >= n {
        return None;
    }
    if s.get_char(i) == '}' {
        return Some((acc, i + 1));
    }
    match parse_string(s, i) {
        Some((key, j1)) => {
            let j2 = skip_ws(s, j1);
            if !(j2 < n && s.get_char(j2) == ':') {
                return None;
            }
            let j3 = skip_ws(s, j2 + 1);
            match top_field(s, j3, &key, acc) {
                Some((acc2, e)) => {
                    let j4 = skip_ws(s, e);
                    if j4 < n && s.get_char(j4) == ',' {
                        let k = skip_ws(s, j4 + 1);
                        top_members(s, k, acc2)
                    } else if j4 < n && s.get_char(j4) == '}' {
                        Some((acc2, j4 + 1))
                    } else {
                        None
                    }
                },
                None => None,
            }
        },
        None => None,
    }
}

/// The image of the snapshot that a line decodes to, if the grammar accepts
/// the whole line: one object, the `timestamp` member present, nothing but
/// whitespace around it.
pub open spec fn spec_parse_snapshot(s: Seq<char>) -> Option<SidecarDataView> {
    let i = spec_skip_ws(s, 0);
    if 0 <= i < s.len() && s[i] == '{' {
        let j = spec_skip_ws(s, i + 1);
        if i < j <= s.len() {
            match spec_top_members(s, j, top_view_init()) {
                Some((acc, e)) => if e <= s.len() {
                    let f = spec_skip_ws(s, e);
                    if f == s.len() && acc.timestamp is Some {
                        Some(SidecarDataView {
                            cpu: acc.cpu,
                            gpu: acc.gpu,
                            timestamp: acc.timestamp->0,
                            error: acc.error,
                        })
                    } else {
                        None
                    }
                } else {
                    None
                },
                None => None,
            }
        } else {
            None
        }
    } else {
        None
    }
}

/// A line holds nothing but whitespace.
pub open spec fn spec_line_is_blank(s: Seq<char>) -> bool {
    spec_skip_ws(s, 0) == s.len()
}

/// Outcome of reading one line of sidecar output.
#[derive(Debug)]
pub enum LineParse {
    /// The line held only whitespace; it is ignored.
    Blank,
    /// The line decoded to a snapshot.
    Snapshot(SidecarData),
    /// The line was not accepted by the grammar; it is dropped and the
    /// previous snapshot is left untouched.
    Malformed,
}

/// Decodes one line of sidecar output.
///
/// A whitespace-only line is [`LineParse::Blank`]; a line the grammar
/// accepts decodes to exactly the snapshot that [`spec_parse_snapshot`]
/// names, each present field holding the written value and each absent
/// field `None`; every other line is [`LineParse::Malformed`].
pub fn parse_snapshot_line(line: &str) -> (r: LineParse)
    ensures
        match r {
            LineParse::Blank => spec_line_is_blank(line@),
            LineParse::Snapshot(d) => !spec_line_is_blank(line@)
                && spec_parse_snapshot(line@) == Some(d@),
            LineParse::Malformed => !spec_line_is_blank(line@)
                && spec_parse_snapshot(line@) is None,
        },
{
    let n = line.unicode_len();
    let i = skip_ws(line, 0);
    if i == n {
        return LineParse::Blank;
    }
    if line.get_char(i) != '{' {
        return LineParse::Malformed;
    }
    let j = skip_ws(line, i + 1);
    let acc0 = TopAcc { cpu: None, gpu: Vec::new(), timestamp: None, error: None };
    proof {
        assert(acc0@.gpu =~= Seq::<GpuDataView>::empty());
    }
    match top_members(line, j, acc0) {
        Some((acc, e)) => {
            let f = skip_ws(line, e);
            if f == n {
                match acc.timestamp {
                    Some(ts) => {
                        let d = SidecarData { cpu: acc.cpu, gpu: acc.gpu, timestamp: ts, error: acc.error };
                        LineParse::Snapshot(d)
                    },
                    None => LineParse::Malformed,
                }
            } else {
                LineParse::Malformed
            }
        },
        None => LineParse::Malformed,
    }
}

} // verus!
