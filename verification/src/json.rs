//! A small JSON scanner for the provider's wire format.
//!
//! The grammar is stated as specification functions over `Seq<char>` together
//! with a cursor position; each executable function returns exactly what its
//! specification counterpart describes. Parsing works on a `Vec<char>` so that
//! positions index characters, not bytes.

use vstd::prelude::*;
use vstd::string::StrSliceExecFns;
use crate::ext::char_from_u32;
use crate::ext::char_of_scalar;
use crate::ext::is_scalar_value;
use crate::ext::push_char;

verus! {

/// The characters JSON treats as insignificant whitespace between tokens.
pub open spec fn is_json_ws(c: char) -> bool {
    c == ' ' || c == '\t' || c == '\n' || c == '\r'
}

/// The first position at or after `i` holding no whitespace.
pub open spec fn spec_skip_ws(s: Seq<char>, i: int) -> int
    decreases s.len() - i,
{
    if 0 <= i < s.len() && is_json_ws(s[i]) {
        spec_skip_ws(s, i + 1)
    } else {
        i
    }
}

/// A decimal digit.
pub open spec fn is_digit(c: char) -> bool {
    '0' as u32 <= c as u32 <= '9' as u32
}

/// The numeric value of a decimal digit.
pub open spec fn spec_digit_val(c: char) -> int {
    c as u32 - '0' as u32
}

/// The first position at or after `i` holding no decimal digit.
pub open spec fn spec_skip_digits(s: Seq<char>, i: int) -> int
    decreases s.len() - i,
{
    if 0 <= i < s.len() && is_digit(s[i]) {
        spec_skip_digits(s, i + 1)
    } else {
        i
    }
}

/// The value of the decimal digit run `s[i..j]`, read most significant first.
pub open spec fn spec_digits_val(s: Seq<char>, i: int, j: int) -> int
    decreases j - i,
{
    if j <= i {
        0
    } else {
        spec_digits_val(s, i, j - 1) * 10 + spec_digit_val(s[j - 1])
    }
}

/// The value of a hexadecimal digit, in either case.
pub open spec fn spec_hex_val(c: char) -> Option<u32> {
    let u = c as u32;
    if '0' as u32 <= u && u <= '9' as u32 {
        Some((u - ('0' as u32)) as u32)
    } else if 'a' as u32 <= u && u <= 'f' as u32 {
        Some((u - ('a' as u32) + 10) as u32)
    } else if 'A' as u32 <= u && u <= 'F' as u32 {
        Some((u - ('A' as u32) + 10) as u32)
    } else {
        None
    }
}

/// The character a short escape `\x` stands for.
pub open spec fn spec_short_escape(c: char) -> Option<char> {
    if c == '"' {
        Some('"')
    } else if c == '\\' {
        Some('\\')
    } else if c == '/' {
        Some('/')
    } else if c == 'b' {
        Some('\u{8}')
    } else if c == 'f' {
        Some('\u{c}')
    } else if c == 'n' {
        Some('\n')
    } else if c == 'r' {
        Some('\r')
    } else if c == 't' {
        Some('\t')
    } else {
        None
    }
}

/// The scalar value a surrogate pair `(hi, lo)` encodes.
pub open spec fn spec_pair_scalar(hi: int, lo: int) -> int {
    0x10000 + (hi - 0xD800) * 0x400 + (lo - 0xDC00)
}

/// The rest of a `\uXXXX` escape whose first quad was a high surrogate `hi`:
/// exactly a second `\uXXXX` escape holding a low surrogate may follow, at
/// position `i`, and the pair decodes to one character beyond the basic plane.
/// Lone and mismatched surrogates make the string invalid.
pub open spec fn spec_low_surrogate_escape(s: Seq<char>, i: int, hi: int) -> Option<int> {
    if i + 5 < s.len() && s[i] == '\\' && s[i + 1] == 'u' {
        match (spec_hex_val(s[i + 2]), spec_hex_val(s[i + 3]), spec_hex_val(s[i + 4]), spec_hex_val(s[i + 5])) {
            (Some(g1), Some(g2), Some(g3), Some(g4)) => {
                let lo = g1 * 0x1000 + g2 * 0x100 + g3 * 0x10 + g4;
                if 0xDC00 <= lo <= 0xDFFF {
                    Some(spec_pair_scalar(hi, lo as int))
                } else {
                    None
                }
            },
            _ => None,
        }
    } else {
        None
    }
}

/// The body of a JSON string, read from just after the opening quote at
/// position `i`; `acc` holds the characters decoded so far. Yields the decoded
/// content and the position just after the closing quote.
pub open spec fn spec_string_body(s: Seq<char>, i: int, acc: Seq<char>) -> Option<(Seq<char>, int)>
    decreases s.len() - i,
{
    if !(0 <= i < s.len()) {
        None
    } else if s[i] == '"' {
        Some((acc, i + 1))
    } else if s[i] == '\\' {
        if i + 1 < s.len() {
            if s[i + 1] == 'u' {
                if i + 5 < s.len() {
                    match (spec_hex_val(s[i + 2]), spec_hex_val(s[i + 3]), spec_hex_val(s[i + 4]), spec_hex_val(s[i + 5])) {
                        (Some(h1), Some(h2), Some(h3), Some(h4)) => {
                            let u = h1 * 0x1000 + h2 * 0x100 + h3 * 0x10 + h4;
                            if is_scalar_value(u as int) {
                                spec_string_body(s, i + 6, acc.push(char_of_scalar(u as int)))
                            } else if u <= 0xDBFF {
                                match spec_low_surrogate_escape(s, i + 6, u as int) {
                                    Some(cp) => if i + 12 <= s.len() {
                                        spec_string_body(s, i + 12, acc.push(char_of_scalar(cp)))
                                    } else {
                                        None
                                    },
                                    None => None,
                                }
                            } else {
                                None
                            }
                        },
                        _ => None,
                    }
                } else {
                    None
                }
            } else {
                match spec_short_escape(s[i + 1]) {
                    Some(c) => spec_string_body(s, i + 2, acc.push(c)),
                    None => None,
                }
            }
        } else {
            None
        }
    } else if (s[i] as u32) < 0x20 {
        None
    } else {
        spec_string_body(s, i + 1, acc.push(s[i]))
    }
}

/// How deeply values may nest before the scanner gives up; a fixed bound so
/// that checking cannot recurse without limit.
pub const MAX_NESTING: u32 = 128;

/// End of the fraction part of a number, if any, starting at `i`.
pub open spec fn spec_frac_end(s: Seq<char>, i: int) -> Option<int> {
    if 0 <= i < s.len() && s[i] == '.' {
        if i + 1 < s.len() && is_digit(s[i + 1]) {
            Some(spec_skip_digits(s, i + 1))
        } else {
            None
        }
    } else {
        Some(i)
    }
}

/// End of the exponent part of a number, if any, starting at `i`.
pub open spec fn spec_exp_end(s: Seq<char>, i: int) -> Option<int> {
    if 0 <= i < s.len() && (s[i] == 'e' || s[i] == 'E') {
        let j = if i + 1 < s.len() && (s[i + 1] == '+' || s[i + 1] == '-') {
            i + 2
        } else {
            i + 1
        };
        if j < s.len() && is_digit(s[j]) {
            Some(spec_skip_digits(s, j))
        } else {
            None
        }
    } else {
        Some(i)
    }
}

/// End of a JSON number starting at `i`: optional minus, an integer part with
/// no leading zero, then optional fraction and exponent.
pub open spec fn spec_number_end(s: Seq<char>, i: int) -> Option<int> {
    let m = if 0 <= i < s.len() && s[i] == '-' {
        i + 1
    } else {
        i
    };
    if !(0 <= m && m < s.len() && is_digit(s[m])) {
        None
    } else {
        let ie = if s[m] == '0' {
            m + 1
        } else {
            spec_skip_digits(s, m)
        };
        match spec_frac_end(s, ie) {
            Some(fe) => spec_exp_end(s, fe),
            None => None,
        }
    }
}

/// A JSON number that denotes an `i32`: an integer lexeme (no fraction, no
/// exponent) whose value fits. Yields the value and the end position.
pub open spec fn spec_i32_token(s: Seq<char>, i: int) -> Option<(int, int)> {
    let neg = 0 <= i < s.len() && s[i] == '-';
    let m = if neg {
        i + 1
    } else {
        i
    };
    if !(0 <= m && m < s.len() && is_digit(s[m])) {
        None
    } else {
        let e = if s[m] == '0' {
            m + 1
        } else {
            spec_skip_digits(s, m)
        };
        if e < s.len() && (s[e] == '.' || s[e] == 'e' || s[e] == 'E') {
            None
        } else {
            let mag = spec_digits_val(s, m, e);
            let v = if neg {
                -mag
            } else {
                mag
            };
            if i32::MIN <= v <= i32::MAX {
                Some((v, e))
            } else {
                None
            }
        }
    }
}

/// End of any JSON value starting at `i`, allowing `depth` further levels of
/// nesting. `None` where the text is not a value.
pub open spec fn spec_skip_value(s: Seq<char>, i: int, depth: nat) -> Option<int>
    decreases depth, s.len() - i, 0int,
{
    if !(0 <= i < s.len()) {
        None
    } else if s[i] == '"' {
        match spec_string_body(s, i + 1, Seq::<char>::empty()) {
            Some(p) => Some(p.1),
            None => None,
        }
    } else if s[i] == 't' {
        if i + 4 <= s.len() && s[i + 1] == 'r' && s[i + 2] == 'u' && s[i + 3] == 'e' {
            Some(i + 4)
        } else {
            None
        }
    } else if s[i] == 'f' {
        if i + 5 <= s.len() && s[i + 1] == 'a' && s[i + 2] == 'l' && s[i + 3] == 's' && s[i + 4]
            == 'e' {
            Some(i + 5)
        } else {
            None
        }
    } else if s[i] == 'n' {
        if i + 4 <= s.len() && s[i + 1] == 'u' && s[i + 2] == 'l' && s[i + 3] == 'l' {
            Some(i + 4)
        } else {
            None
        }
    } else if s[i] == '-' || is_digit(s[i]) {
        spec_number_end(s, i)
    } else if s[i] == '[' {
        if depth == 0 {
            None
        } else {
            let j = spec_skip_ws(s, i + 1);
            if !(i < j && j <= s.len()) {
                None
            } else if j < s.len() && s[j] == ']' {
                Some(j + 1)
            } else {
                spec_array_items(s, j, (depth - 1) as nat)
            }
        }
    } else if s[i] == '{' {
        if depth == 0 {
            None
        } else {
            let j = spec_skip_ws(s, i + 1);
            if !(i < j && j <= s.len()) {
                None
            } else if j < s.len() && s[j] == '}' {
                Some(j + 1)
            } else {
                spec_object_items(s, j, (depth - 1) as nat)
            }
        }
    } else {
        None
    }
}

/// End of a non-empty run of array elements `value (, value)* ]` starting at a
/// value position.
pub open spec fn spec_array_items(s: Seq<char>, i: int, depth: nat) -> Option<int>
    decreases depth, s.len() - i, 1int,
{
    match spec_skip_value(s, i, depth) {
        None => None,
        Some(w) => {
            let k = spec_skip_ws(s, w);
            if !(i < k && k <= s.len()) {
                None
            } else if k < s.len() && s[k] == ',' {
                let m = spec_skip_ws(s, k + 1);
                if !(k < m && m <= s.len()) {
                    None
                } else {
                    spec_array_items(s, m, depth)
                }
            } else if k < s.len() && s[k] == ']' {
                Some(k + 1)
            } else {
                None
            }
        },
    }
}

/// End of a non-empty run of object members `"key" : value (, member)* }`
/// starting at a key position.
pub open spec fn spec_object_items(s: Seq<char>, i: int, depth: nat) -> Option<int>
    decreases depth, s.len() - i, 1int,
{
    if !(0 <= i < s.len() && s[i] == '"') {
        None
    } else {
        match spec_string_body(s, i + 1, Seq::<char>::empty()) {
            None => None,
            Some(p) => {
                let k = spec_skip_ws(s, p.1);
                if !(i < k && k <= s.len()) {
                    None
                } else if k < s.len() && s[k] == ':' {
                    let v = spec_skip_ws(s, k + 1);
                    if !(k < v && v <= s.len()) {
                        None
                    } else {
                        match spec_skip_value(s, v, depth) {
                            None => None,
                            Some(w) => {
                                let x = spec_skip_ws(s, w);
                                if !(v < x && x <= s.len()) {
                                    None
                                } else if x < s.len() && s[x] == ',' {
                                    let y = spec_skip_ws(s, x + 1);
                                    if !(x < y && y <= s.len()) {
                                        None
                                    } else {
                                        spec_object_items(s, y, depth)
                                    }
                                } else if x < s.len() && s[x] == '}' {
                                    Some(x + 1)
                                } else {
                                    None
                                }
                            },
                        }
                    }
                } else {
                    None
                }
            },
        }
    }
}

/// A whole text that is one JSON value: optional whitespace, a value, optional
/// whitespace, end of input.
pub open spec fn spec_valid_json_text(s: Seq<char>) -> bool {
    let i = spec_skip_ws(s, 0);
    match spec_skip_value(s, i, MAX_NESTING as nat) {
        Some(j) => spec_skip_ws(s, j) == s.len(),
        None => false,
    }
}

/// The characters of a string, one per Unicode scalar.
pub fn chars_of(s: &str) -> (r: Vec<char>)
    ensures
        r@ == s@,
{
    let n = s.unicode_len();
    let mut r: Vec<char> = Vec::new();
    let mut i: usize = 0;
    while i < n
        invariant
            i <= n,
            n == s@.len(),
            r@ == s@.take(i as int),
        decreases n - i,
    {
        r.push(s.get_char(i));
        proof {
            assert(r@ =~= s@.take(i + 1));
        }
        i = i + 1;
    }
    proof {
        assert(r@ =~= s@);
    }
    r
}

/// Advances the cursor past JSON whitespace.
pub fn skip_ws(s: &Vec<char>, start: usize) -> (r: usize)
    requires
        start <= s@.len(),
    ensures
        r as int == spec_skip_ws(s@, start as int),
        start <= r <= s@.len(),
{
    let mut i = start;
    loop
        invariant
            start <= i <= s@.len(),
            spec_skip_ws(s@, start as int) == spec_skip_ws(s@, i as int),
        decreases s@.len() - i,
    {
        if i < s.len() {
            let c = s[i];
            if c == ' ' || c == '\t' || c == '\n' || c == '\r' {
                i = i + 1;
            } else {
                return i;
            }
        } else {
            return i;
        }
    }
}

/// Advances the cursor past decimal digits; everything skipped is a digit.
pub fn skip_digits(s: &Vec<char>, start: usize) -> (r: usize)
    requires
        start <= s@.len(),
    ensures
        r as int == spec_skip_digits(s@, start as int),
        start <= r <= s@.len(),
        forall|j: int| start <= j < r ==> is_digit(s@[j]),
{
    let mut i = start;
    loop
        invariant
            start <= i <= s@.len(),
            spec_skip_digits(s@, start as int) == spec_skip_digits(s@, i as int),
            forall|j: int| start <= j < i ==> is_digit(s@[j]),
        decreases s@.len() - i,
    {
        if i < s.len() {
            let c = s[i];
            if c as u32 >= '0' as u32 && c as u32 <= '9' as u32 {
                i = i + 1;
            } else {
                return i;
            }
        } else {
            return i;
        }
    }
}

/// Decodes a JSON string body starting just after its opening quote, returning
/// the content and the position after the closing quote.
pub fn string_body(s: &Vec<char>, start: usize) -> (r: Option<(String, usize)>)
    requires
        start <= s@.len(),
    ensures
        match r {
            Some(p) => {
                &&& spec_string_body(s@, start as int, Seq::<char>::empty()) == Some((p.0@, p.1 as int))
                &&& start < p.1 <= s@.len()
            },
            None => spec_string_body(s@, start as int, Seq::<char>::empty()) is None,
        },
{
    let n = s.len();
    let mut i = start;
    let mut acc = String::new();
    loop
        invariant
            start <= i <= n,
            n == s@.len(),
            spec_string_body(s@, start as int, Seq::<char>::empty()) == spec_string_body(s@, i as int, acc@),
        decreases n - i,
    {
        if i >= n {
            return None;
        }
        let c = s[i];
        if c == '"' {
            return Some((acc, i + 1));
        } else if c == '\\' {
            if i + 1 >= n {
                return None;
            }
            let e = s[i + 1];
            if e == 'u' {
                if n - i <= 5 {
                    return None;
                }
                let h1 = hex_val(s[i + 2]);
                let h2 = hex_val(s[i + 3]);
                let h3 = hex_val(s[i + 4]);
                let h4 = hex_val(s[i + 5]);
                match (h1, h2, h3, h4) {
                    (Some(v1), Some(v2), Some(v3), Some(v4)) => {
                        let u: u32 = v1 * 0x1000 + v2 * 0x100 + v3 * 0x10 + v4;
                        if u < 0xD800 || (0xE000 <= u && u <= 0x10FFFF) {
                            match char_from_u32(u) {
                                Some(ch) => {
                                    push_char(&mut acc, ch);
                                    i = i + 6;
                                },
                                None => {
                                    proof {
                                        assert(false);
                                    }
                                    return None;
                                },
                            }
                        } else if u <= 0xDBFF {
                            if n - i <= 11 {
                                return None;
                            }
                            if !(s[i + 6] == '\\' && s[i + 7] == 'u') {
                                return None;
                            }
                            let g1 = hex_val(s[i + 8]);
                            let g2 = hex_val(s[i + 9]);
                            let g3 = hex_val(s[i + 10]);
                            let g4 = hex_val(s[i + 11]);
                            match (g1, g2, g3, g4) {
                                (Some(w1), Some(w2), Some(w3), Some(w4)) => {
                                    let lo: u32 = w1 * 0x1000 + w2 * 0x100 + w3 * 0x10 + w4;
                                    if !(0xDC00 <= lo && lo <= 0xDFFF) {
                                        return None;
                                    }
                                    let cp: u32 = 0x10000 + (u - 0xD800) * 0x400 + (lo - 0xDC00);
                                    match char_from_u32(cp) {
                                        Some(ch) => {
                                            push_char(&mut acc, ch);
                                            i = i + 12;
                                        },
                                        None => {
                                            proof {
                                                assert(false);
                                            }
                                            return None;
                                        },
                                    }
                                },
                                _ => {
                                    return None;
                                },
                            }
                        } else {
                            return None;
                        }
                    },
                    _ => {
                        return None;
                    },
                }
            } else {
                match short_escape(e) {
                    Some(ch) => {
                        push_char(&mut acc, ch);
                        i = i + 2;
                    },
                    None => {
                        return None;
                    },
                }
            }
        } else if (c as u32) < 0x20 {
            return None;
        } else {
            push_char(&mut acc, c);
            i = i + 1;
        }
    }
}

/// Scans a JSON number and returns the position after its last character.
pub fn number_end(s: &Vec<char>, start: usize) -> (r: Option<usize>)
    requires
        start <= s@.len(),
    ensures
        match r {
            Some(j) => spec_number_end(s@, start as int) == Some(j as int) && start < j <= s@.len(),
            None => spec_number_end(s@, start as int) is None,
        },
{
    let n = s.len();
    let m = if start < n && s[start] == '-' {
        start + 1
    } else {
        start
    };
    if !(m < n) {
        return None;
    }
    let c0 = s[m];
    if !(c0 as u32 >= '0' as u32 && c0 as u32 <= '9' as u32) {
        return None;
    }
    let ie = if c0 == '0' {
        m + 1
    } else {
        let d = skip_digits(s, m + 1);
        proof {
            assert(spec_skip_digits(s@, m as int) == spec_skip_digits(s@, m + 1));
        }
        d
    };
    let fe = if ie < n && s[ie] == '.' {
        if ie + 1 < n && s[ie + 1] as u32 >= '0' as u32 && s[ie + 1] as u32 <= '9' as u32 {
            skip_digits(s, ie + 1)
        } else {
            return None;
        }
    } else {
        ie
    };
    if fe < n && (s[fe] == 'e' || s[fe] == 'E') {
        let j = if fe + 1 < n && (s[fe + 1] == '+' || s[fe + 1] == '-') {
            fe + 2
        } else {
            fe + 1
        };
        if j < n && s[j] as u32 >= '0' as u32 && s[j] as u32 <= '9' as u32 {
            Some(skip_digits(s, j))
        } else {
            None
        }
    } else {
        Some(fe)
    }
}

/// Reads a JSON number that denotes an `i32`, returning its value and the
/// position after it.
pub fn i32_token(s: &Vec<char>, start: usize) -> (r: Option<(i32, usize)>)
    requires
        start <= s@.len(),
    ensures
        match r {
            Some(p) => spec_i32_token(s@, start as int) == Some((p.0 as int, p.1 as int)) && start
                < p.1 <= s@.len(),
            None => spec_i32_token(s@, start as int) is None,
        },
{
    let n = s.len();
    let neg = start < n && s[start] == '-';
    let m = if neg {
        start + 1
    } else {
        start
    };
    if !(m < n) {
        return None;
    }
    let c0 = s[m];
    if !(c0 as u32 >= '0' as u32 && c0 as u32 <= '9' as u32) {
        return None;
    }
    let e = if c0 == '0' {
        m + 1
    } else {
        let d = skip_digits(s, m + 1);
        proof {
            assert(spec_skip_digits(s@, m as int) == spec_skip_digits(s@, m + 1));
        }
        d
    };
    if e < n {
        let ce = s[e];
        if ce == '.' || ce == 'e' || ce == 'E' {
            return None;
        }
    }
    let mut k = m;
    let mut mag: i64 = 0;
    let mut too_big = false;
    while k < e
        invariant
            m <= k <= e <= s@.len(),
            m < n == s@.len(),
            forall|j: int| m <= j < e ==> is_digit(s@[j]),
            !too_big ==> mag == spec_digits_val(s@, m as int, k as int) && 0 <= mag <= 0x8000_0000,
            too_big ==> spec_digits_val(s@, m as int, k as int) > 0x8000_0000,
        decreases e - k,
    {
        let d = (s[k] as u32 - '0' as u32) as i64;
        if too_big {
            proof {
                assert(spec_digits_val(s@, m as int, k + 1) == spec_digits_val(
                    s@,
                    m as int,
                    k as int,
                ) * 10 + spec_digit_val(s@[k as int]));
            }
        } else {
            let next: i64 = mag * 10 + d;
            if next > 0x8000_0000 {
                too_big = true;
            } else {
                mag = next;
            }
        }
        k = k + 1;
    }
    if too_big {
        return None;
    }
    if neg {
        let v: i64 = -mag;
        Some(((v as i32), e))
    } else {
        if mag > 0x7FFF_FFFF {
            return None;
        }
        Some(((mag as i32), e))
    }
}

/// The value of a hexadecimal digit, in either case.
pub fn hex_val(c: char) -> (r: Option<u32>)
    ensures
        r == spec_hex_val(c),
{
    let u = c as u32;
    if '0' as u32 <= u && u <= '9' as u32 {
        Some(u - ('0' as u32))
    } else if 'a' as u32 <= u && u <= 'f' as u32 {
        Some(u - ('a' as u32) + 10)
    } else if 'A' as u32 <= u && u <= 'F' as u32 {
        Some(u - ('A' as u32) + 10)
    } else {
        None
    }
}

/// Scans one JSON value, allowing `depth` further levels of nesting, and
/// returns the position after it.
pub fn skip_value(s: &Vec<char>, start: usize, depth: u32) -> (r: Option<usize>)
    requires
        start <= s@.len(),
    ensures
        match r {
            Some(j) => spec_skip_value(s@, start as int, depth as nat) == Some(j as int) && start
                < j <= s@.len(),
            None => spec_skip_value(s@, start as int, depth as nat) is None,
        },
    decreases depth, s@.len() - start, 0int,
{
    let n = s.len();
    if !(start < n) {
        return None;
    }
    let c = s[start];
    if c == '"' {
        match string_body(s, start + 1) {
            Some(p) => Some(p.1),
            None => None,
        }
    } else if c == 't' {
        if n - start >= 4 && s[start + 1] == 'r' && s[start + 2] == 'u' && s[start + 3] == 'e' {
            Some(start + 4)
        } else {
            None
        }
    } else if c == 'f' {
        if n - start >= 5 && s[start + 1] == 'a' && s[start + 2] == 'l' && s[start + 3] == 's'
            && s[start + 4] == 'e' {
            Some(start + 5)
        } else {
            None
        }
    } else if c == 'n' {
        if n - start >= 4 && s[start + 1] == 'u' && s[start + 2] == 'l' && s[start + 3] == 'l' {
            Some(start + 4)
        } else {
            None
        }
    } else if c == '-' || (c as u32 >= '0' as u32 && c as u32 <= '9' as u32) {
        number_end(s, start)
    } else if c == '[' {
        if depth == 0 {
            return None;
        }
        let j = skip_ws(s, start + 1);
        if j < n && s[j] == ']' {
            return Some(j + 1);
        }
        let ghost target = spec_array_items(s@, j as int, (depth - 1) as nat);
        let mut i = j;
        loop
            invariant
                start < i <= n,
                n == s@.len(),
                depth >= 1,
                target == spec_array_items(s@, i as int, (depth - 1) as nat),
                spec_skip_value(s@, start as int, depth as nat) == target,
            decreases n - i,
        {
            match skip_value(s, i, depth - 1) {
                None => {
                    return None;
                },
                Some(w) => {
                    let k = skip_ws(s, w);
                    if k < n && s[k] == ',' {
                        let m2 = skip_ws(s, k + 1);
                        i = m2;
                    } else if k < n && s[k] == ']' {
                        return Some(k + 1);
                    } else {
                        return None;
                    }
                },
            }
        }
    } else if c == '{' {
        if depth == 0 {
            return None;
        }
        let j = skip_ws(s, start + 1);
        if j < n && s[j] == '}' {
            return Some(j + 1);
        }
        let ghost target = spec_object_items(s@, j as int, (depth - 1) as nat);
        let mut i = j;
        loop
            invariant
                start < i <= n,
                n == s@.len(),
                depth >= 1,
                target == spec_object_items(s@, i as int, (depth - 1) as nat),
                spec_skip_value(s@, start as int, depth as nat) == target,
            decreases n - i,
        {
            if !(i < n && s[i] == '"') {
                return None;
            }
            match string_body(s, i + 1) {
                None => {
                    return None;
                },
                Some(p) => {
                    let k = skip_ws(s, p.1);
                    if !(k < n && s[k] == ':') {
                        return None;
                    }
                    let v = skip_ws(s, k + 1);
                    match skip_value(s, v, depth - 1) {
                        None => {
                            return None;
                        },
                        Some(w) => {
                            let x = skip_ws(s, w);
                            if x < n && s[x] == ',' {
                                let y = skip_ws(s, x + 1);
                                i = y;
                            } else if x < n && s[x] == '}' {
                                return Some(x + 1);
                            } else {
                                return None;
                            }
                        },
                    }
                },
            }
        }
    } else {
        None
    }
}

/// Whether a whole text is one JSON value, surrounded only by whitespace.
pub fn valid_json_text(s: &str) -> (b: bool)
    ensures
        b == spec_valid_json_text(s@),
{
    let cs = chars_of(s);
    let i = skip_ws(&cs, 0);
    match skip_value(&cs, i, MAX_NESTING) {
        Some(j) => {
            let e = skip_ws(&cs, j);
            e == cs.len()
        },
        None => false,
    }
}

/// The character a short escape `\x` stands for.
pub fn short_escape(c: char) -> (r: Option<char>)
    ensures
        r == spec_short_escape(c),
{
    if c == '"' {
        Some('"')
    } else if c == '\\' {
        Some('\\')
    } else if c == '/' {
        Some('/')
    } else if c == 'b' {
        Some('\u{8}')
    } else if c == 'f' {
        Some('\u{c}')
    } else if c == 'n' {
        Some('\n')
    } else if c == 'r' {
        Some('\r')
    } else if c == 't' {
        Some('\t')
    } else {
        None
    }
}

} // verus!
