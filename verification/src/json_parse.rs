//! Parsing JSON text into a `JsonValue`.
//!
//! `sp_doc` is the mathematical parser: it maps a sequence of
//! characters to the document it denotes, or to `None` when the text
//! is not well-formed. `JsonValue::parse_document` returns exactly
//! that result, after stripping one leading byte-order mark.
//!
//! The grammar is standard JSON restricted to integer numbers: a
//! number with a fraction or an exponent is rejected, as is one
//! outside the signed 64-bit range, since every numeric field of the
//! interchange format is such an integer.

use vstd::prelude::*;

use crate::error::Error;
use crate::json::{jm_of, jm_of_fields, jm_of_items, JsonModel, JsonValue};

verus! {

broadcast use vstd::seq::group_seq_axioms, vstd::std_specs::vec::group_vec_axioms;

/// JSON inter-token whitespace.
pub open spec fn is_ws(c: char) -> bool {
    c == ' ' || c == '\t' || c == '\n' || c == '\r'
}

/// A decimal digit.
pub open spec fn is_digit(c: char) -> bool {
    48 <= (c as u32) <= 57
}

/// `j`, but never below `lo`.
pub open spec fn at_least(j: int, lo: int) -> int {
    if j < lo {
        lo
    } else {
        j
    }
}

/// The first position at or after `i` holding no whitespace.
pub open spec fn sp_ws(s: Seq<char>, i: int) -> int
    decreases s.len() - i,
{
    if 0 <= i < s.len() && is_ws(s[i]) {
        sp_ws(s, i + 1)
    } else {
        i
    }
}

/// The value of a hexadecimal digit, or -1.
pub open spec fn hex_val(c: char) -> int {
    if 48 <= (c as u32) <= 57 {
        (c as u32) - 48
    } else if 97 <= (c as u32) <= 102 {
        (c as u32) - 87
    } else if 65 <= (c as u32) <= 70 {
        (c as u32) - 55
    } else {
        -1
    }
}

/// The value of the four hexadecimal digits at `i`, or -1 when any of
/// them is missing or is no such digit.
pub open spec fn hex4(s: Seq<char>, i: int) -> int {
    if 0 <= i && i + 4 <= s.len() && hex_val(s[i]) >= 0 && hex_val(s[i + 1]) >= 0 && hex_val(
        s[i + 2],
    ) >= 0 && hex_val(s[i + 3]) >= 0 {
        hex_val(s[i]) * 4096 + hex_val(s[i + 1]) * 256 + hex_val(s[i + 2]) * 16 + hex_val(s[i + 3])
    } else {
        -1
    }
}

/// The body of a string literal from `i` (just after the opening
/// quote) to its closing quote: the characters denoted, and the
/// position after the closing quote.
pub open spec fn sp_str_body(s: Seq<char>, i: int) -> Option<(Seq<char>, int)>
    decreases s.len() - i,
{
    if i < 0 || i >= s.len() {
        None
    } else {
        let c = s[i];
        if c == '"' {
            Some((Seq::empty(), i + 1))
        } else if c == '\\' {
            if i + 1 >= s.len() {
                None
            } else {
                let e = s[i + 1];
                if e == 'u' {
                    let h = hex4(s, i + 2);
                    if h < 0 {
                        None
                    } else if 0xD800 <= h < 0xDC00 {
                        if s.len() - i >= 12 && s[i + 6] == '\\' && s[i + 7] == 'u' {
                            let l = hex4(s, i + 8);
                            if 0xDC00 <= l < 0xE000 {
                                let code = 0x10000 + (h - 0xD800) * 0x400 + (l - 0xDC00);
                                match sp_str_body(s, i + 12) {
                                    Some((rest, end)) => Some(
                                        (seq![((code as u32) as char)] + rest, end),
                                    ),
                                    None => None,
                                }
                            } else {
                                None
                            }
                        } else {
                            None
                        }
                    } else if 0xDC00 <= h < 0xE000 {
                        None
                    } else {
                        match sp_str_body(s, i + 6) {
                            Some((rest, end)) => Some((seq![((h as u32) as char)] + rest, end)),
                            None => None,
                        }
                    }
                } else if e == '"' || e == '\\' || e == '/' || e == 'b' || e == 'f' || e == 'n'
                    || e == 'r' || e == 't' {
                    let m: char = if e == 'b' {
                        (8u8) as char
                    } else if e == 'f' {
                        (12u8) as char
                    } else if e == 'n' {
                        '\n'
                    } else if e == 'r' {
                        '\r'
                    } else if e == 't' {
                        '\t'
                    } else {
                        e
                    };
                    match sp_str_body(s, i + 2) {
                        Some((rest, end)) => Some((seq![m] + rest, end)),
                        None => None,
                    }
                } else {
                    None
                }
            }
        } else if (c as u32) < 32 {
            None
        } else {
            match sp_str_body(s, i + 1) {
                Some((rest, end)) => Some((seq![c] + rest, end)),
                None => None,
            }
        }
    }
}

/// A string literal at `i`: its opening quote, body and closing quote.
pub open spec fn sp_string(s: Seq<char>, i: int) -> Option<(Seq<char>, int)> {
    if 0 <= i < s.len() && s[i] == '"' {
        sp_str_body(s, i + 1)
    } else {
        None
    }
}

/// The first position at or after `i` holding no decimal digit.
pub open spec fn sp_digits(s: Seq<char>, i: int) -> int
    decreases s.len() - i,
{
    if 0 <= i < s.len() && is_digit(s[i]) {
        sp_digits(s, i + 1)
    } else {
        i
    }
}

/// The number denoted by the digits in `s[i .. j]`.
pub open spec fn digits_val(s: Seq<char>, i: int, j: int) -> int
    decreases j - i,
{
    if i >= j {
        0
    } else {
        digits_val(s, i, j - 1) * 10 + ((s[j - 1] as u32) - 48)
    }
}

/// An integer literal at `i`: an optional minus sign and decimal
/// digits without a redundant leading zero, not followed by a
/// fraction or an exponent, and within the signed 64-bit range.
pub open spec fn sp_number(s: Seq<char>, i: int) -> Option<(JsonModel, int)> {
    if !(0 <= i < s.len()) {
        None
    } else {
        let neg = s[i] == '-';
        let d0 = if neg {
            i + 1
        } else {
            i
        };
        let dend = sp_digits(s, d0);
        if dend == d0 {
            None
        } else if d0 < s.len() && s[d0] == '0' && dend > d0 + 1 {
            None
        } else if dend < s.len() && (s[dend] == '.' || s[dend] == 'e' || s[dend] == 'E') {
            None
        } else {
            let v = digits_val(s, d0, dend);
            let sv = if neg {
                -v
            } else {
                v
            };
            if sv < i64::MIN || sv > i64::MAX {
                None
            } else {
                Some((JsonModel::Int(sv), dend))
            }
        }
    }
}

/// A JSON value at `i`, after any leading whitespace: the value
/// denoted and the position after its last character.
pub open spec fn sp_value(s: Seq<char>, i: int) -> Option<(JsonModel, int)>
    decreases s.len() - i, 0int,
{
    let j = at_least(sp_ws(s, i), i);
    if j >= s.len() {
        None
    } else {
        let c = s[j];
        if c == 'n' {
            if s.len() - j >= 4 && s[j + 1] == 'u' && s[j + 2] == 'l' && s[j + 3] == 'l' {
                Some((JsonModel::Null, j + 4))
            } else {
                None
            }
        } else if c == 't' {
            if s.len() - j >= 4 && s[j + 1] == 'r' && s[j + 2] == 'u' && s[j + 3] == 'e' {
                Some((JsonModel::Bool(true), j + 4))
            } else {
                None
            }
        } else if c == 'f' {
            if j + 5 <= s.len() && s[j + 1] == 'a' && s[j + 2] == 'l' && s[j + 3] == 's' && s[j + 4]
                == 'e' {
                Some((JsonModel::Bool(false), j + 5))
            } else {
                None
            }
        } else if c == '"' {
            match sp_string(s, j) {
                Some((txt, end)) => Some((JsonModel::Str(txt), end)),
                None => None,
            }
        } else if c == '-' || is_digit(c) {
            sp_number(s, j)
        } else if c == '[' {
            let k = at_least(sp_ws(s, j + 1), j + 1);
            if k < s.len() && s[k] == ']' {
                Some((JsonModel::Arr(Seq::empty()), k + 1))
            } else {
                match sp_elems(s, j + 1) {
                    Some((items, end)) => Some((JsonModel::Arr(items), end)),
                    None => None,
                }
            }
        } else if c == '{' {
            let k = at_least(sp_ws(s, j + 1), j + 1);
            if k < s.len() && s[k] == '}' {
                Some((JsonModel::Obj(Seq::empty()), k + 1))
            } else {
                match sp_members(s, j + 1) {
                    Some((fields, end)) => Some((JsonModel::Obj(fields), end)),
                    None => None,
                }
            }
        } else {
            None
        }
    }
}

/// One or more comma-separated array elements from `i` up to and
/// including the closing bracket.
pub open spec fn sp_elems(s: Seq<char>, i: int) -> Option<(Seq<JsonModel>, int)>
    decreases s.len() - i, 1int,
{
    match sp_value(s, i) {
        None => None,
        Some((v, j0)) => {
            let jw = at_least(sp_ws(s, j0), j0);
            if jw >= s.len() {
                None
            } else if s[jw] == ',' {
                let nx = at_least(jw + 1, i + 1);
                if nx > s.len() {
                    None
                } else {
                    match sp_elems(s, nx) {
                        None => None,
                        Some((rest, end)) => Some((seq![v] + rest, end)),
                    }
                }
            } else if s[jw] == ']' {
                Some((seq![v], jw + 1))
            } else {
                None
            }
        },
    }
}

/// One or more comma-separated object members from `i` up to and
/// including the closing brace.
pub open spec fn sp_members(s: Seq<char>, i: int) -> Option<(Seq<(Seq<char>, JsonModel)>, int)>
    decreases s.len() - i, 1int,
{
    let kw = at_least(sp_ws(s, i), i);
    if kw >= s.len() || s[kw] != '"' {
        None
    } else {
        match sp_string(s, kw) {
            None => None,
            Some((key, j1)) => {
                let cw = at_least(sp_ws(s, j1), j1);
                if cw >= s.len() || s[cw] != ':' {
                    None
                } else {
                    let vp = at_least(cw + 1, i);
                    if vp > s.len() {
                        None
                    } else {
                        match sp_value(s, vp) {
                            None => None,
                            Some((v, j2)) => {
                                let jw = at_least(sp_ws(s, j2), j2);
                                if jw >= s.len() {
                                    None
                                } else if s[jw] == ',' {
                                    let nx = at_least(jw + 1, i + 1);
                                    if nx > s.len() {
                                        None
                                    } else {
                                        match sp_members(s, nx) {
                                            None => None,
                                            Some((rest, end)) => Some(
                                                (seq![(key, v)] + rest, end),
                                            ),
                                        }
                                    }
                                } else if s[jw] == '}' {
                                    Some((seq![(key, v)], jw + 1))
                                } else {
                                    None
                                }
                            },
                        }
                    }
                }
            },
        }
    }
}

/// A leading byte-order mark, if present, removed.
pub open spec fn strip_bom(s: Seq<char>) -> Seq<char> {
    if s.len() > 0 && s[0] == '\u{feff}' {
        s.drop_first()
    } else {
        s
    }
}

/// A whole document: one value with nothing but whitespace around it,
/// after at most one leading byte-order mark.
pub open spec fn sp_doc(s: Seq<char>) -> Option<JsonModel> {
    let t = strip_bom(s);
    match sp_value(t, 0) {
        Some((v, j)) => if at_least(sp_ws(t, j), j) == t.len() {
            Some(v)
        } else {
            None
        },
        None => None,
    }
}

/// Parsing a document differs from parsing the same document behind a
/// single leading byte-order mark in nothing.
pub proof fn lemma_bom_stripped(s: Seq<char>)
    requires
        !(s.len() > 0 && s[0] == '\u{feff}'),
    ensures
        sp_doc(seq!['\u{feff}'] + s) == sp_doc(s),
{
    assert((seq!['\u{feff}'] + s).drop_first() =~= s);
}

/// Two characters with the same scalar value are the same character.
proof fn lemma_char_eq(a: char, b: char)
    requires
        a as u32 == b as u32,
    ensures
        a == b,
{
}

/// Relies on char::from_u32: it answers `Some` exactly for the valid
/// Unicode scalar values, and the character returned has that value.
#[verifier::external_body]
fn char_from_u32(u: u32) -> (r: Option<char>)
    ensures
        r is Some <==> (u < 0xD800 || (0xE000 <= u && u < 0x110000)),
        r is Some ==> r->0 as u32 == u,
{
    char::from_u32(u)
}

/// The characters of a string, as a vector.
fn to_chars(s: &str) -> (v: Vec<char>)
    ensures
        v@ == s@,
{
    let n = s.unicode_len();
    let mut v: Vec<char> = Vec::new();
    let mut i: usize = 0;
    while i < n
        invariant
            n == s@.len(),
            i <= n,
            v@ == s@.subrange(0, i as int),
        decreases n - i,
    {
        v.push(s.get_char(i));
        i += 1;
        assert(v@ =~= s@.subrange(0, i as int));
    }
    proof {
        assert(v@ =~= s@);
    }
    v
}

/// Skips whitespace.
fn p_ws(s: &Vec<char>, i: usize) -> (j: usize)
    requires
        i <= s@.len(),
    ensures
        j as int == sp_ws(s@, i as int),
        i <= j <= s@.len(),
    decreases s@.len() - i,
{
    if i < s.len() {
        let c = s[i];
        if c == ' ' || c == '\t' || c == '\n' || c == '\r' {
            return p_ws(s, i + 1);
        }
    }
    i
}

/// The value of a hexadecimal digit character, or -1.
fn p_hex_digit(c: char) -> (h: i32)
    ensures
        h as int == hex_val(c),
{
    let u = c as u32;
    if 48 <= u && u <= 57 {
        (u - 48) as i32
    } else if 97 <= u && u <= 102 {
        (u - 87) as i32
    } else if 65 <= u && u <= 70 {
        (u - 55) as i32
    } else {
        -1
    }
}

/// The value of the four hexadecimal digits at `i`, or -1.
fn p_hex4(s: &Vec<char>, i: usize) -> (h: i32)
    requires
        i <= s@.len(),
    ensures
        h as int == hex4(s@, i as int),
{
    if s.len() - i < 4 {
        return -1;
    }
    let h0 = p_hex_digit(s[i]);
    let h1 = p_hex_digit(s[i + 1]);
    let h2 = p_hex_digit(s[i + 2]);
    let h3 = p_hex_digit(s[i + 3]);
    if h0 < 0 || h1 < 0 || h2 < 0 || h3 < 0 {
        return -1;
    }
    h0 * 4096 + h1 * 256 + h2 * 16 + h3
}

/// Parses the body of a string literal from `i` on, up to and
/// including the closing quote.
fn p_str_body(s: &Vec<char>, i: usize) -> (r: Result<(Vec<char>, usize), ()>)
    requires
        i <= s@.len(),
    ensures
        match r {
            Ok((body, j)) => sp_str_body(s@, i as int) == Some((body@, j as int)) && i < j
                <= s@.len(),
            Err(_) => sp_str_body(s@, i as int) is None,
        },
    decreases s@.len() - i,
{
    if i >= s.len() {
        return Err(());
    }
    let c = s[i];
    if c == '"' {
        let body: Vec<char> = Vec::new();
        assert(body@ =~= Seq::<char>::empty());
        assert(sp_str_body(s@, i as int) == Some((body@, (i + 1) as int)));
        Ok((body, i + 1))
    } else if c == '\\' {
        if i + 1 >= s.len() {
            return Err(());
        }
        let e = s[i + 1];
        if e == 'u' {
            let h = p_hex4(s, i + 2);
            if h < 0 {
                return Err(());
            }
            if 0xD800 <= h && h < 0xDC00 {
                if s.len() - i >= 12 && s[i + 6] == '\\' && s[i + 7] == 'u' {
                    let l = p_hex4(s, i + 8);
                    if 0xDC00 <= l && l < 0xE000 {
                        let code: u32 = 0x10000 + ((h as u32) - 0xD800) * 0x400 + ((l as u32)
                            - 0xDC00);
                        let c2 = match char_from_u32(code) {
                            Some(c2) => c2,
                            None => {
                                proof {
                                    assert(false);
                                }
                                return Err(());
                            },
                        };
                        match p_str_body(s, i + 12) {
                            Ok((mut rest, end)) => {
                                let ghost tail = rest@;
                                rest.insert(0, c2);
                                proof {
                                    assert(rest@ =~= seq![c2] + tail);
                                    let hs = hex4(s@, i as int + 2);
                                    let ls = hex4(s@, i as int + 8);
                                    let code_spec = 0x10000 + (hs - 0xD800) * 0x400 + (ls
                                        - 0xDC00);
                                    assert(hs == h as int && ls == l as int);
                                    assert(code_spec == code as int);
                                    assert(0x10000 <= code_spec < 0x110000);
                                    assert(((code_spec as u32) as char) as u32 == code_spec
                                        as u32);
                                    lemma_char_eq(c2, (code_spec as u32) as char);
                                    assert(c2 == (code_spec as u32) as char);
                                    assert(sp_str_body(s@, i as int) == Some((rest@, end as int)));
                                }
                                Ok((rest, end))
                            },
                            Err(_) => Err(()),
                        }
                    } else {
                        Err(())
                    }
                } else {
                    Err(())
                }
            } else if 0xDC00 <= h && h < 0xE000 {
                Err(())
            } else {
                let c2 = match char_from_u32(h as u32) {
                    Some(c2) => c2,
                    None => {
                        proof {
                            assert(false);
                        }
                        return Err(());
                    },
                };
                match p_str_body(s, i + 6) {
                    Ok((mut rest, end)) => {
                        let ghost tail = rest@;
                        rest.insert(0, c2);
                        proof {
                            assert(rest@ =~= seq![c2] + tail);
                            let hs = hex4(s@, i as int + 2);
                            assert(hs == h as int);
                            assert(0 <= hs && hs <= 0xFFFF);
                            assert(((hs as u32) as char) as u32 == hs as u32);
                            lemma_char_eq(c2, (hs as u32) as char);
                            assert(c2 == (hs as u32) as char);
                            assert(sp_str_body(s@, i as int) == Some((rest@, end as int)));
                        }
                        Ok((rest, end))
                    },
                    Err(_) => Err(()),
                }
            }
        } else if e == '"' || e == '\\' || e == '/' || e == 'b' || e == 'f' || e == 'n' || e == 'r'
            || e == 't' {
            let m: char = if e == 'b' {
                (8u8) as char
            } else if e == 'f' {
                (12u8) as char
            } else if e == 'n' {
                '\n'
            } else if e == 'r' {
                '\r'
            } else if e == 't' {
                '\t'
            } else {
                e
            };
            match p_str_body(s, i + 2) {
                Ok((mut rest, end)) => {
                    let ghost tail = rest@;
                    rest.insert(0, m);
                    proof {
                        assert(rest@ =~= seq![m] + tail);
                        assert(sp_str_body(s@, i as int) == Some((rest@, end as int)));
                    }
                    Ok((rest, end))
                },
                Err(_) => Err(()),
            }
        } else {
            Err(())
        }
    } else if (c as u32) < 32 {
        Err(())
    } else {
        match p_str_body(s, i + 1) {
            Ok((mut rest, end)) => {
                let ghost tail = rest@;
                rest.insert(0, c);
                proof {
                    assert(rest@ =~= seq![c] + tail);
                    assert(sp_str_body(s@, i as int) == Some((rest@, end as int)));
                }
                Ok((rest, end))
            },
            Err(_) => Err(()),
        }
    }
}

/// Digits in `s[i .. j]` denote a non-negative number.
proof fn lemma_digits_val_nonneg(s: Seq<char>, i: int, j: int)
    requires
        forall|k: int| i <= k < j ==> is_digit(s[k]),
    ensures
        digits_val(s, i, j) >= 0,
    decreases j - i,
{
    if i < j {
        lemma_digits_val_nonneg(s, i, j - 1);
    }
}

/// Reading more digits never shrinks the number they denote.
proof fn lemma_digits_val_mono(s: Seq<char>, i: int, j: int, k: int)
    requires
        i <= j <= k,
        forall|m: int| i <= m < k ==> is_digit(s[m]),
    ensures
        digits_val(s, i, k) >= digits_val(s, i, j),
    decreases k - j,
{
    if j < k {
        lemma_digits_val_mono(s, i, j, k - 1);
        lemma_digits_val_nonneg(s, i, k - 1);
    }
}

/// Whether the character is a decimal digit.
fn p_is_digit(c: char) -> (b: bool)
    ensures
        b == is_digit(c),
{
    let u = c as u32;
    48 <= u && u <= 57
}

/// Skips decimal digits.
fn p_digits(s: &Vec<char>, i: usize) -> (j: usize)
    requires
        i <= s@.len(),
    ensures
        j as int == sp_digits(s@, i as int),
        i <= j <= s@.len(),
        forall|k: int| i <= k < j ==> is_digit(s@[k]),
    decreases s@.len() - i,
{
    if i < s.len() {
        if p_is_digit(s[i]) {
            return p_digits(s, i + 1);
        }
    }
    i
}

/// Parses an integer literal at `i`.
#[verifier::loop_isolation(false)]
fn p_number(s: &Vec<char>, i: usize) -> (r: Result<(i64, usize), ()>)
    requires
        i <= s@.len(),
    ensures
        match r {
            Ok((v, j)) => sp_number(s@, i as int) == Some((JsonModel::Int(v as int), j as int)) && i
                < j <= s@.len(),
            Err(_) => sp_number(s@, i as int) is None,
        },
{
    if i >= s.len() {
        return Err(());
    }
    let neg = s[i] == '-';
    let d0 = if neg {
        i + 1
    } else {
        i
    };
    let dend = p_digits(s, d0);
    if dend == d0 {
        return Err(());
    }
    if s[d0] == '0' && dend > d0 + 1 {
        return Err(());
    }
    if dend < s.len() && (s[dend] == '.' || s[dend] == 'e' || s[dend] == 'E') {
        return Err(());
    }
    let mut acc: u128 = 0;
    let mut k = d0;
    while k < dend
        invariant
            d0 <= k <= dend <= s@.len(),
            forall|m: int| d0 <= m < dend ==> is_digit(s@[m]),
            acc as int == digits_val(s@, d0 as int, k as int),
            acc <= 0x8000000000000000u128,
        decreases dend - k,
    {
        let d: u128 = ((s[k] as u32) - 48) as u128;
        acc = acc * 10 + d;
        k += 1;
        if acc > 0x8000000000000000u128 {
            proof {
                lemma_digits_val_mono(s@, d0 as int, k as int, dend as int);
            }
            return Err(());
        }
    }
    if neg {
        let v: i64 = if acc == 0x8000000000000000u128 {
            i64::MIN
        } else {
            -(acc as i64)
        };
        Ok((v, dend))
    } else {
        if acc == 0x8000000000000000u128 {
            return Err(());
        }
        Ok((acc as i64, dend))
    }
}

/// Parses a JSON value at `i`, after any leading whitespace.
fn p_value(s: &Vec<char>, i: usize) -> (r: Result<(JsonValue, usize), ()>)
    requires
        i <= s@.len(),
    ensures
        match r {
            Ok((v, j)) => sp_value(s@, i as int) == Some((v@, j as int)) && i < j <= s@.len(),
            Err(_) => sp_value(s@, i as int) is None,
        },
    decreases s@.len() - i, 0int,
{
    let j = p_ws(s, i);
    if j >= s.len() {
        return Err(());
    }
    let c = s[j];
    if c == 'n' {
        if s.len() - j >= 4 && s[j + 1] == 'u' && s[j + 2] == 'l' && s[j + 3] == 'l' {
            Ok((JsonValue::Null, j + 4))
        } else {
            Err(())
        }
    } else if c == 't' {
        if s.len() - j >= 4 && s[j + 1] == 'r' && s[j + 2] == 'u' && s[j + 3] == 'e' {
            Ok((JsonValue::Bool(true), j + 4))
        } else {
            Err(())
        }
    } else if c == 'f' {
        if s.len() - j >= 5 && s[j + 1] == 'a' && s[j + 2] == 'l' && s[j + 3] == 's' && s[j + 4]
            == 'e' {
            Ok((JsonValue::Bool(false), j + 5))
        } else {
            Err(())
        }
    } else if c == '"' {
        match p_str_body(s, j + 1) {
            Ok((body, end)) => {
                let txt = crate::json_text::chars_to_string(&body);
                Ok((JsonValue::Str(txt), end))
            },
            Err(_) => Err(()),
        }
    } else if c == '-' || p_is_digit(c) {
        match p_number(s, j) {
            Ok((v, end)) => Ok((JsonValue::Int(v), end)),
            Err(_) => Err(()),
        }
    } else if c == '[' {
        let k = p_ws(s, j + 1);
        if k < s.len() && s[k] == ']' {
            let items: Vec<JsonValue> = Vec::new();
            proof {
                assert(items@ =~= Seq::<JsonValue>::empty());
                assert(jm_of_items(items@) =~= Seq::<JsonModel>::empty());
            }
            Ok((JsonValue::Arr(items), k + 1))
        } else {
            match p_elems(s, j + 1) {
                Ok((items, end)) => Ok((JsonValue::Arr(items), end)),
                Err(_) => Err(()),
            }
        }
    } else if c == '{' {
        let k = p_ws(s, j + 1);
        if k < s.len() && s[k] == '}' {
            let fields: Vec<(String, JsonValue)> = Vec::new();
            proof {
                assert(fields@ =~= Seq::<(String, JsonValue)>::empty());
                assert(jm_of_fields(fields@) =~= Seq::<(Seq<char>, JsonModel)>::empty());
            }
            Ok((JsonValue::Obj(fields), k + 1))
        } else {
            match p_members(s, j + 1) {
                Ok((fields, end)) => Ok((JsonValue::Obj(fields), end)),
                Err(_) => Err(()),
            }
        }
    } else {
        Err(())
    }
}

/// Parses one or more comma-separated array elements from `i` up to
/// and including the closing bracket.
fn p_elems(s: &Vec<char>, i: usize) -> (r: Result<(Vec<JsonValue>, usize), ()>)
    requires
        i <= s@.len(),
    ensures
        match r {
            Ok((items, j)) => sp_elems(s@, i as int) == Some((jm_of_items(items@), j as int)) && i
                < j <= s@.len(),
            Err(_) => sp_elems(s@, i as int) is None,
        },
    decreases s@.len() - i, 1int,
{
    match p_value(s, i) {
        Err(_) => Err(()),
        Ok((v, j0)) => {
            let jw = p_ws(s, j0);
            if jw >= s.len() {
                Err(())
            } else if s[jw] == ',' {
                match p_elems(s, jw + 1) {
                    Err(_) => Err(()),
                    Ok((mut rest, end)) => {
                        let ghost tail = rest@;
                        rest.insert(0, v);
                        proof {
                            assert(rest@ =~= seq![v] + tail);
                            assert(rest@.drop_first() =~= tail);
                            assert(jm_of_items(rest@) =~= seq![jm_of(v)] + jm_of_items(tail));
                        }
                        Ok((rest, end))
                    },
                }
            } else if s[jw] == ']' {
                let mut items: Vec<JsonValue> = Vec::new();
                items.push(v);
                proof {
                    assert(items@.drop_first() =~= Seq::<JsonValue>::empty());
                    assert(jm_of_items(items@.drop_first()) =~= Seq::<JsonModel>::empty());
                    assert(jm_of_items(items@) =~= seq![jm_of(v)]);
                }
                Ok((items, jw + 1))
            } else {
                Err(())
            }
        },
    }
}

/// Parses one or more comma-separated object members from `i` up to
/// and including the closing brace.
fn p_members(s: &Vec<char>, i: usize) -> (r: Result<(Vec<(String, JsonValue)>, usize), ()>)
    requires
        i <= s@.len(),
    ensures
        match r {
            Ok((fields, j)) => sp_members(s@, i as int) == Some(
                (jm_of_fields(fields@), j as int),
            ) && i < j <= s@.len(),
            Err(_) => sp_members(s@, i as int) is None,
        },
    decreases s@.len() - i, 1int,
{
    let kw = p_ws(s, i);
    if kw >= s.len() {
        return Err(());
    }
    if s[kw] != '"' {
        return Err(());
    }
    match p_str_body(s, kw + 1) {
        Err(_) => Err(()),
        Ok((kbody, j1)) => {
            let key = crate::json_text::chars_to_string(&kbody);
            let cw = p_ws(s, j1);
            if cw >= s.len() {
                return Err(());
            }
            if s[cw] != ':' {
                return Err(());
            }
            match p_value(s, cw + 1) {
                Err(_) => Err(()),
                Ok((v, j2)) => {
                    let jw = p_ws(s, j2);
                    if jw >= s.len() {
                        Err(())
                    } else if s[jw] == ',' {
                        match p_members(s, jw + 1) {
                            Err(_) => Err(()),
                            Ok((mut rest, end)) => {
                                let ghost tail = rest@;
                                rest.insert(0, (key, v));
                                proof {
                                    assert(rest@ =~= seq![(key, v)] + tail);
                                    assert(rest@.drop_first() =~= tail);
                                    assert(jm_of_fields(rest@) =~= seq![(key@, jm_of(v))]
                                        + jm_of_fields(tail));
                                }
                                Ok((rest, end))
                            },
                        }
                    } else if s[jw] == '}' {
                        let mut fields: Vec<(String, JsonValue)> = Vec::new();
                        fields.push((key, v));
                        proof {
                            assert(fields@.drop_first() =~= Seq::<(String, JsonValue)>::empty());
                            assert(jm_of_fields(fields@.drop_first()) =~= Seq::<
                                (Seq<char>, JsonModel),
                            >::empty());
                            assert(jm_of_fields(fields@) =~= seq![(key@, jm_of(v))]);
                        }
                        Ok((fields, jw + 1))
                    } else {
                        Err(())
                    }
                },
            }
        },
    }
}

impl JsonValue {
    /// Parses a whole JSON document: at most one leading byte-order
    /// mark, one value, and nothing but whitespace around it. The
    /// result is exactly `sp_doc` of the text; ill-formed text is a
    /// malformed record.
    pub fn parse_document(s: &str) -> (r: Result<JsonValue, Error>)
        ensures
            match r {
                Ok(v) => sp_doc(s@) == Some(v@),
                Err(e) => sp_doc(s@) is None && (e matches Error::MalformedRecord(k) && k@
                    == "json"@),
            },
    {
        let mut chars = to_chars(s);
        if chars.len() > 0 && chars[0] == '\u{feff}' {
            chars.remove(0);
            proof {
                assert(chars@ =~= strip_bom(s@));
            }
        }
        proof {
            assert(chars@ =~= strip_bom(s@));
        }
        match p_value(&chars, 0) {
            Err(_) => Err(Error::MalformedRecord(String::from_str("json"))),
            Ok((v, j)) => {
                let jw = p_ws(&chars, j);
                if jw == chars.len() {
                    Ok(v)
                } else {
                    Err(Error::MalformedRecord(String::from_str("json")))
                }
            },
        }
    }
}

} // verus!
