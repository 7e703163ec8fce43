//! Wire-level string helpers: comma joining, form-urlencoded percent
//! encoding, decimal rendering of integers, and extraction of string fields
//! from JSON response bodies.

use vstd::prelude::*;
use vstd::string::StrSliceExecFns;
use vstd::string::StringExecFns;

verus! {

/// Relies on `String::push`: appends one character at the end.
pub assume_specification[ String::push ](s: &mut String, c: char)
    ensures
        final(s)@ == old(s)@.push(c),
;

/// The identifiers joined into one string with a comma between neighbours.
pub open spec fn spec_join_comma(ids: Seq<Seq<char>>) -> Seq<char>
    decreases ids.len(),
{
    if ids.len() == 0 {
        Seq::empty()
    } else if ids.len() == 1 {
        ids[0]
    } else {
        spec_join_comma(ids.drop_last()) + seq![','] + ids.last()
    }
}

/// Joins the identifiers with commas; an empty list yields the empty string.
pub fn join_comma(ids: &Vec<String>) -> (r: String)
    ensures
        r@ == spec_join_comma(ids.deep_view()),
{
    let mut r = String::new();
    let mut i: usize = 0;
    while i < ids.len()
        invariant
            i <= ids.len(),
            r@ == spec_join_comma(ids.deep_view().take(i as int)),
        decreases ids.len() - i,
    {
        if i > 0 {
            r.append(",");
        }
        r.append(ids[i].as_str());
        proof {
            reveal_strlit(",");
            let all = ids.deep_view();
            assert(all.take(i + 1).drop_last() =~= all.take(i as int));
            assert(all.take(i + 1).last() == all[i as int]);
            if i == 0 {
                assert(spec_join_comma(all.take(1)) == all[0]);
            }
        }
        i = i + 1;
    }
    proof {
        assert(ids.deep_view().take(ids.len() as int) =~= ids.deep_view());
    }
    r
}

/// The digit character for a value below sixteen, upper case beyond nine.
pub open spec fn spec_hex_digit(n: int) -> char {
    seq!['0', '1', '2', '3', '4', '5', '6', '7', '8', '9', 'A', 'B', 'C', 'D', 'E', 'F'][n]
}

/// Returns the digit character for `n`, upper case beyond nine.
pub fn hex_digit(n: u8) -> (c: char)
    requires
        n < 16,
    ensures
        c == spec_hex_digit(n as int),
{
    let c = match n {
        0 => '0',
        1 => '1',
        2 => '2',
        3 => '3',
        4 => '4',
        5 => '5',
        6 => '6',
        7 => '7',
        8 => '8',
        9 => '9',
        10 => 'A',
        11 => 'B',
        12 => 'C',
        13 => 'D',
        14 => 'E',
        _ => 'F',
    };
    c
}

/// The decimal rendering of a non-negative integer, most significant digit
/// first, with no leading zeros (zero itself is the single digit `0`).
pub open spec fn spec_dec_nat(n: nat) -> Seq<char>
    decreases n,
{
    if n < 10 {
        seq![spec_hex_digit(n as int)]
    } else {
        spec_dec_nat(n / 10) + seq![spec_hex_digit((n % 10) as int)]
    }
}

/// The decimal rendering of a signed integer: a leading minus sign when
/// negative, then the digits of its magnitude.
pub open spec fn spec_dec_i64(n: int) -> Seq<char> {
    if n < 0 {
        seq!['-'] + spec_dec_nat((-n) as nat)
    } else {
        spec_dec_nat(n as nat)
    }
}

fn push_dec_u64(r: &mut String, n: u64)
    ensures
        final(r)@ == old(r)@ + spec_dec_nat(n as nat),
    decreases n,
{
    if n < 10 {
        r.push(hex_digit(n as u8));
    } else {
        push_dec_u64(r, n / 10);
        r.push(hex_digit((n % 10) as u8));
    }
    proof {
        assert(r@ =~= old(r)@ + spec_dec_nat(n as nat));
    }
}

/// Renders a signed integer in decimal, as its standard display form.
pub fn dec_i64(n: i64) -> (r: String)
    ensures
        r@ == spec_dec_i64(n as int),
{
    let mut r = String::new();
    if n < 0 {
        r.push('-');
        let magnitude: u64 = ((-(n + 1)) as u64) + 1;
        assert(magnitude == -(n as int));
        push_dec_u64(&mut r, magnitude);
        proof {
            assert(r@ =~= spec_dec_i64(n as int));
        }
    } else {
        push_dec_u64(&mut r, n as u64);
        proof {
            assert(r@ =~= spec_dec_i64(n as int));
        }
    }
    r
}

/// True for the characters that a form-urlencoded value carries unchanged:
/// letters, digits, `*`, `-`, `.`, `_`, and the comma, which has no special
/// meaning to a form decoder and is kept readable in joined identifier
/// lists.
pub open spec fn spec_is_form_safe(v: u32) -> bool {
    ||| (0x41 <= v && v <= 0x5A)
    ||| (0x61 <= v && v <= 0x7A)
    ||| (0x30 <= v && v <= 0x39)
    ||| v == 0x2A
    ||| v == 0x2D
    ||| v == 0x2E
    ||| v == 0x5F
    ||| v == 0x2C
}

fn is_form_safe(v: u32) -> (b: bool)
    ensures
        b == spec_is_form_safe(v),
{
    (0x41 <= v && v <= 0x5A) || (0x61 <= v && v <= 0x7A) || (0x30 <= v && v <= 0x39) || v == 0x2A
        || v == 0x2D || v == 0x2E || v == 0x5F || v == 0x2C
}

/// One byte rendered as a percent escape: `%` and two upper-case hex digits.
pub open spec fn spec_pct_byte(b: u8) -> Seq<char> {
    seq!['%', spec_hex_digit(b as int / 16), spec_hex_digit(b as int % 16)]
}

/// A byte sequence rendered as consecutive percent escapes.
pub open spec fn spec_pct_bytes(bs: Seq<u8>) -> Seq<char>
    decreases bs.len(),
{
    if bs.len() == 0 {
        Seq::empty()
    } else {
        spec_pct_bytes(bs.drop_last()) + spec_pct_byte(bs.last())
    }
}

/// The form-urlencoded rendering of one character: kept when safe, a space
/// becomes `+`, and anything else is the percent-escaped UTF-8 encoding of
/// the character.
pub open spec fn spec_form_encode_char(c: char) -> Seq<char> {
    if spec_is_form_safe(c as u32) {
        seq![c]
    } else if c as u32 == 0x20 {
        seq!['+']
    } else {
        spec_pct_bytes(vstd::utf8::encode_scalar(c as u32))
    }
}

/// The form-urlencoded rendering of a string, character by character.
pub open spec fn spec_form_encode(s: Seq<char>) -> Seq<char>
    decreases s.len(),
{
    if s.len() == 0 {
        Seq::empty()
    } else {
        spec_form_encode(s.drop_last()) + spec_form_encode_char(s.last())
    }
}

fn utf8_bytes_of_char(c: char) -> (bs: Vec<u8>)
    ensures
        bs@ == vstd::utf8::encode_scalar(c as u32),
{
    proof {
        vstd::utf8::char_is_scalar(c);
    }
    let v = c as u32;
    let mut bs: Vec<u8> = Vec::new();
    if v <= 0x7F {
        bs.push((v & 0x7F) as u8);
    } else if v <= 0x7FF {
        bs.push(0xC0u8 | (((v >> 6) & 0x1F) as u8));
        bs.push(0x80u8 | ((v & 0x3F) as u8));
    } else if v <= 0xFFFF {
        bs.push(0xE0u8 | (((v >> 12) & 0x0F) as u8));
        bs.push(0x80u8 | (((v >> 6) & 0x3F) as u8));
        bs.push(0x80u8 | ((v & 0x3F) as u8));
    } else {
        bs.push(0xF0u8 | (((v >> 18) & 0x7) as u8));
        bs.push(0x80u8 | (((v >> 12) & 0x3F) as u8));
        bs.push(0x80u8 | (((v >> 6) & 0x3F) as u8));
        bs.push(0x80u8 | ((v & 0x3F) as u8));
    }
    proof {
        assert(bs@ =~= vstd::utf8::encode_scalar(v));
    }
    bs
}

fn push_pct_byte(r: &mut String, b: u8)
    ensures
        final(r)@ == old(r)@ + spec_pct_byte(b),
{
    r.push('%');
    r.push(hex_digit(b / 16));
    r.push(hex_digit(b % 16));
    proof {
        assert(r@ =~= old(r)@ + spec_pct_byte(b));
    }
}

/// Encodes a string for use as a form-urlencoded value.
pub fn form_encode(s: &str) -> (r: String)
    ensures
        r@ == spec_form_encode(s@),
{
    let n = s.unicode_len();
    let mut r = String::new();
    let mut i: usize = 0;
    while i < n
        invariant
            i <= n,
            n == s@.len(),
            r@ == spec_form_encode(s@.take(i as int)),
        decreases n - i,
    {
        let c = s.get_char(i);
        let v = c as u32;
        if is_form_safe(v) {
            r.push(c);
        } else if v == 0x20 {
            r.push('+');
        } else {
            let bs = utf8_bytes_of_char(c);
            let mut j: usize = 0;
            while j < bs.len()
                invariant
                    j <= bs.len(),
                    bs@ == vstd::utf8::encode_scalar(c as u32),
                    r@ == spec_form_encode(s@.take(i as int)) + spec_pct_bytes(
                        bs@.take(j as int),
                    ),
                decreases bs.len() - j,
            {
                push_pct_byte(&mut r, bs[j]);
                proof {
                    assert(bs@.take(j + 1).drop_last() =~= bs@.take(j as int));
                    assert(r@ =~= spec_form_encode(s@.take(i as int)) + spec_pct_bytes(
                        bs@.take(j + 1),
                    ));
                }
                j = j + 1;
            }
            proof {
                assert(bs@.take(bs@.len() as int) =~= bs@);
            }
        }
        proof {
            assert(s@.take(i + 1).drop_last() =~= s@.take(i as int));
            assert(s@.take(i + 1).last() == s@[i as int]);
            assert(r@ =~= spec_form_encode(s@.take(i + 1)));
        }
        i = i + 1;
    }
    proof {
        assert(s@.take(n as int) =~= s@);
    }
    r
}

/// True when `pat` occurs in `text` starting at index `i`.
pub open spec fn spec_match_at(text: Seq<char>, pat: Seq<char>, i: int) -> bool {
    0 <= i && i + pat.len() <= text.len() && text.subrange(i, i + pat.len()) =~= pat
}

/// The first index at or after `from` where `pat` occurs in `text`.
pub open spec fn spec_find(text: Seq<char>, pat: Seq<char>, from: int) -> Option<int>
    decreases text.len() - from,
{
    if from < 0 || from + pat.len() > text.len() {
        None
    } else if spec_match_at(text, pat, from) {
        Some(from)
    } else {
        spec_find(text, pat, from + 1)
    }
}

/// True for the whitespace characters a JSON text may carry between tokens.
pub open spec fn spec_is_json_ws(c: char) -> bool {
    c == ' ' || c == '\t' || c == '\n' || c == '\r'
}

/// The first index at or after `i` that does not hold JSON whitespace.
pub open spec fn spec_skip_ws(text: Seq<char>, i: int) -> int
    decreases text.len() - i,
{
    if 0 <= i && i < text.len() && spec_is_json_ws(text[i]) {
        spec_skip_ws(text, i + 1)
    } else {
        i
    }
}

/// The index of the closing quote of a string value that starts at `i`, or
/// `None` when the value ends with no quote or carries an escape sequence,
/// which this reader does not accept.
pub open spec fn spec_scan_value(text: Seq<char>, i: int) -> Option<int>
    decreases text.len() - i,
{
    if i < 0 || i >= text.len() {
        None
    } else if text[i] == '"' {
        Some(i)
    } else if text[i] == '\\' {
        None
    } else {
        spec_scan_value(text, i + 1)
    }
}

/// The key as it appears in a JSON object: wrapped in double quotes.
pub open spec fn spec_quoted(key: Seq<char>) -> Seq<char> {
    seq!['"'] + key + seq!['"']
}

/// The string value of the first occurrence of `key` in a JSON object text:
/// the quoted key, optional whitespace, a colon, optional whitespace, and an
/// escape-free quoted string.  `None` when the text has no such shape.
pub open spec fn spec_extract_string_field(text: Seq<char>, key: Seq<char>) -> Option<Seq<char>> {
    match spec_find(text, spec_quoted(key), 0) {
        None => None,
        Some(i) => {
            let j = spec_skip_ws(text, i + spec_quoted(key).len());
            if j < text.len() && text[j] == ':' {
                let k = spec_skip_ws(text, j + 1);
                if k < text.len() && text[k] == '"' {
                    match spec_scan_value(text, k + 1) {
                        None => None,
                        Some(m) => Some(text.subrange(k + 1, m)),
                    }
                } else {
                    None
                }
            } else {
                None
            }
        },
    }
}

fn match_at(text: &str, pat: &str, i: usize, n: usize, m: usize) -> (b: bool)
    requires
        n == text@.len(),
        m == pat@.len(),
        i + m <= n,
    ensures
        b == spec_match_at(text@, pat@, i as int),
{
    let mut j: usize = 0;
    while j < m
        invariant
            j <= m,
            n == text@.len(),
            m == pat@.len(),
            i + m <= n,
            forall|k: int| 0 <= k < j ==> text@[i + k] == pat@[k],
        decreases m - j,
    {
        if text.get_char(i + j) != pat.get_char(j) {
            proof {
                assert(text@.subrange(i as int, i + m)[j as int] != pat@[j as int]);
            }
            return false;
        }
        j = j + 1;
    }
    proof {
        assert(text@.subrange(i as int, i + m) =~= pat@);
    }
    true
}

fn find_from(text: &str, pat: &str, from: usize) -> (r: Option<usize>)
    requires
        pat@.len() >= 1,
    ensures
        match r {
            Some(i) => spec_find(text@, pat@, from as int) == Some(i as int) && from <= i && i
                + pat@.len() <= text@.len(),
            None => spec_find(text@, pat@, from as int) is None,
        },
{
    let n = text.unicode_len();
    let m = pat.unicode_len();
    if m > n || from > n - m {
        return None;
    }
    let mut i: usize = from;
    while i <= n - m
        invariant
            from <= i,
            m <= n,
            n == text@.len(),
            m == pat@.len(),
            spec_find(text@, pat@, from as int) == spec_find(text@, pat@, i as int),
        decreases n - i,
    {
        if match_at(text, pat, i, n, m) {
            return Some(i);
        }
        i = i + 1;
    }
    None
}

fn is_json_ws(c: char) -> (b: bool)
    ensures
        b == spec_is_json_ws(c),
{
    c == ' ' || c == '\t' || c == '\n' || c == '\r'
}

fn skip_ws(text: &str, i: usize, n: usize) -> (r: usize)
    requires
        n == text@.len(),
        i <= n,
    ensures
        r as int == spec_skip_ws(text@, i as int),
        i <= r <= n,
{
    let mut r: usize = i;
    while r < n && is_json_ws(text.get_char(r))
        invariant
            i <= r <= n,
            n == text@.len(),
            spec_skip_ws(text@, i as int) == spec_skip_ws(text@, r as int),
        decreases n - r,
    {
        r = r + 1;
    }
    r
}

fn scan_value(text: &str, i: usize, n: usize) -> (r: Option<usize>)
    requires
        n == text@.len(),
        i <= n,
    ensures
        match r {
            Some(m) => spec_scan_value(text@, i as int) == Some(m as int) && i <= m < n,
            None => spec_scan_value(text@, i as int) is None,
        },
{
    let mut r: usize = i;
    while r < n
        invariant
            i <= r <= n,
            n == text@.len(),
            spec_scan_value(text@, i as int) == spec_scan_value(text@, r as int),
        decreases n - r,
    {
        let c = text.get_char(r);
        if c == '"' {
            return Some(r);
        }
        if c == '\\' {
            return None;
        }
        r = r + 1;
    }
    None
}

/// Extracts the string value of `key` from a JSON object text, or `None`
/// when the text does not carry one in the shape this reader accepts.
pub fn extract_string_field(text: &str, key: &str) -> (r: Option<String>)
    ensures
        match r {
            Some(v) => spec_extract_string_field(text@, key@) == Some(v@),
            None => spec_extract_string_field(text@, key@) is None,
        },
{
    let mut pat = String::from_str("\"");
    pat.append(key);
    pat.append("\"");
    proof {
        reveal_strlit("\"");
        assert(pat@ =~= spec_quoted(key@));
    }
    let n = text.unicode_len();
    let found = find_from(text, pat.as_str(), 0);
    match found {
        None => None,
        Some(i) => {
            let j = skip_ws(text, i + pat.unicode_len(), n);
            if j < n && text.get_char(j) == ':' {
                let k = skip_ws(text, j + 1, n);
                if k < n && text.get_char(k) == '"' {
                    match scan_value(text, k + 1, n) {
                        None => None,
                        Some(m) => {
                            let v = text.substring_char(k + 1, m).to_owned();
                            Some(v)
                        },
                    }
                } else {
                    None
                }
            } else {
                None
            }
        },
    }
}

} // verus!
