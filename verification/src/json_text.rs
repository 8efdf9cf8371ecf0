//! Serializing a JSON tree to text.
//!
//! `jtext` is the mathematical serialization of a `JsonModel`;
//! `JsonValue::to_text` produces exactly that text. Strings are
//! escaped minimally: the quote, the backslash, and the named control
//! escapes `\n`, `\r`, `\t`; any other control character becomes a
//! `\u00..` escape. No whitespace is emitted between tokens.

use vstd::prelude::*;

use crate::json::{jm_of, jm_of_fields, jm_of_items, lemma_jm_of_fields, lemma_jm_of_items,
    JsonModel, JsonValue};

verus! {

broadcast use vstd::seq::group_seq_axioms, vstd::std_specs::vec::group_vec_axioms;

/// The decimal digit character for `n` in `0 ..= 9`.
pub open spec fn digit_char(n: int) -> char {
    ((48 + n) as u8) as char
}

/// The lower-case hexadecimal digit character for `n` in `0 ..= 15`.
pub open spec fn hex_char(n: int) -> char {
    if n < 10 {
        ((48 + n) as u8) as char
    } else {
        ((87 + n) as u8) as char
    }
}

/// The decimal digits of a non-negative number, most significant first.
pub open spec fn dec_rep(n: nat) -> Seq<char>
    decreases n,
{
    if n < 10 {
        seq![digit_char(n as int)]
    } else {
        dec_rep(n / 10) + seq![digit_char((n % 10) as int)]
    }
}

/// The JSON text of an integer: an optional minus sign and the
/// decimal digits.
pub open spec fn int_text(i: int) -> Seq<char> {
    if i < 0 {
        seq!['-'] + dec_rep((-i) as nat)
    } else {
        dec_rep(i as nat)
    }
}

/// How one character appears inside a JSON string literal.
pub open spec fn esc_char(c: char) -> Seq<char> {
    if c == '"' {
        seq!['\\', '"']
    } else if c == '\\' {
        seq!['\\', '\\']
    } else if c == '\n' {
        seq!['\\', 'n']
    } else if c == '\r' {
        seq!['\\', 'r']
    } else if c == '\t' {
        seq!['\\', 't']
    } else if (c as u32) < 32 {
        seq!['\\', 'u', '0', '0', hex_char((c as u32 / 16) as int), hex_char((c as u32 % 16) as int)]
    } else {
        seq![c]
    }
}

/// The escaped body of a JSON string literal, from character `j` on.
pub open spec fn esc_text_from(s: Seq<char>, j: int) -> Seq<char>
    decreases s.len() - j,
{
    if j < 0 || j >= s.len() {
        Seq::empty()
    } else {
        esc_char(s[j]) + esc_text_from(s, j + 1)
    }
}

/// The quoted, escaped JSON string literal for `s`.
pub open spec fn string_text(s: Seq<char>) -> Seq<char> {
    seq!['"'] + esc_text_from(s, 0) + seq!['"']
}

/// The JSON text of a document.
pub open spec fn jtext(j: JsonModel) -> Seq<char>
    decreases j, 0int,
{
    match j {
        JsonModel::Null => "null"@,
        JsonModel::Bool(b) => if b {
            "true"@
        } else {
            "false"@
        },
        JsonModel::Int(i) => int_text(i),
        JsonModel::Str(s) => string_text(s),
        JsonModel::Arr(items) => seq!['['] + jtext_items_from(items, 0) + seq![']'],
        JsonModel::Obj(fields) => seq!['{'] + jtext_fields_from(fields, 0) + seq!['}'],
    }
}

/// The comma-separated texts of array elements, from element `j` on.
pub open spec fn jtext_items_from(items: Seq<JsonModel>, j: int) -> Seq<char>
    decreases items, items.len() - j,
{
    if j < 0 || j >= items.len() {
        Seq::empty()
    } else if j == items.len() - 1 {
        jtext(items[j])
    } else {
        jtext(items[j]) + seq![','] + jtext_items_from(items, j + 1)
    }
}

/// The comma-separated texts of object members, from member `j` on.
pub open spec fn jtext_fields_from(fields: Seq<(Seq<char>, JsonModel)>, j: int) -> Seq<char>
    decreases fields, fields.len() - j,
{
    if j < 0 || j >= fields.len() {
        Seq::empty()
    } else if j == fields.len() - 1 {
        string_text(fields[j].0) + seq![':'] + jtext(fields[j].1)
    } else {
        string_text(fields[j].0) + seq![':'] + jtext(fields[j].1) + seq![','] + jtext_fields_from(
            fields,
            j + 1,
        )
    }
}

/// Relies on String's FromIterator impl: collecting a vector of
/// characters yields the string of exactly those characters, in order.
#[verifier::external_body]
pub(crate) fn chars_to_string(v: &Vec<char>) -> (s: String)
    ensures
        s@ == v@,
{
    v.iter().collect()
}

/// Writes the decimal digits of `n`.
pub(crate) fn write_dec(n: u64, out: &mut Vec<char>)
    ensures
        final(out)@ == old(out)@ + dec_rep(n as nat),
    decreases n,
{
    if n < 10 {
        let d: u8 = 48 + (n as u8);
        out.push(d as char);
        assert(out@ =~= old(out)@ + dec_rep(n as nat));
    } else {
        write_dec(n / 10, out);
        let d: u8 = 48 + ((n % 10) as u8);
        out.push(d as char);
        assert(out@ =~= old(out)@ + dec_rep(n as nat));
    }
}

/// Writes the JSON text of an integer.
fn write_int(i: i64, out: &mut Vec<char>)
    ensures
        final(out)@ == old(out)@ + int_text(i as int),
{
    if i < 0 {
        out.push('-');
        let mag: u64 = ((-(i + 1)) as u64) + 1;
        write_dec(mag, out);
        assert(out@ =~= old(out)@ + int_text(i as int));
    } else {
        write_dec(i as u64, out);
    }
}

/// Writes the escaped form of the characters of `s` from index `j` on.
fn write_esc(s: &str, j: usize, out: &mut Vec<char>)
    requires
        j <= s@.len(),
    ensures
        final(out)@ == old(out)@ + esc_text_from(s@, j as int),
    decreases s@.len() - j,
{
    if j == s.unicode_len() {
        assert(out@ =~= old(out)@ + esc_text_from(s@, j as int));
    } else {
        let c = s.get_char(j);
        if c == '"' {
            out.push('\\');
            out.push('"');
        } else if c == '\\' {
            out.push('\\');
            out.push('\\');
        } else if c == '\n' {
            out.push('\\');
            out.push('n');
        } else if c == '\r' {
            out.push('\\');
            out.push('r');
        } else if c == '\t' {
            out.push('\\');
            out.push('t');
        } else if (c as u32) < 32 {
            out.push('\\');
            out.push('u');
            out.push('0');
            out.push('0');
            let hi: u32 = (c as u32) / 16;
            let lo: u32 = (c as u32) % 16;
            let hc: u8 = if hi < 10 {
                48 + (hi as u8)
            } else {
                87 + (hi as u8)
            };
            let lc: u8 = if lo < 10 {
                48 + (lo as u8)
            } else {
                87 + (lo as u8)
            };
            out.push(hc as char);
            out.push(lc as char);
        } else {
            out.push(c);
        }
        assert(out@ =~= old(out)@ + esc_char(s@[j as int]));
        write_esc(s, j + 1, out);
        assert(out@ =~= old(out)@ + esc_text_from(s@, j as int));
    }
}

/// Writes the quoted, escaped JSON string literal for `s`.
fn write_string(s: &str, out: &mut Vec<char>)
    ensures
        final(out)@ == old(out)@ + string_text(s@),
{
    out.push('"');
    write_esc(s, 0, out);
    out.push('"');
    assert(out@ =~= old(out)@ + string_text(s@));
}

/// Writes the JSON text of a document.
fn write_json(v: &JsonValue, out: &mut Vec<char>)
    ensures
        final(out)@ == old(out)@ + jtext(v@),
    decreases v, 0int,
{
    match v {
        JsonValue::Null => {
            out.push('n');
            out.push('u');
            out.push('l');
            out.push('l');
            proof {
                reveal_strlit("null");
                assert(out@ =~= old(out)@ + jtext(v@));
            }
        },
        JsonValue::Bool(b) => {
            if *b {
                out.push('t');
                out.push('r');
                out.push('u');
                out.push('e');
                proof {
                    reveal_strlit("true");
                    assert(out@ =~= old(out)@ + jtext(v@));
                }
            } else {
                out.push('f');
                out.push('a');
                out.push('l');
                out.push('s');
                out.push('e');
                proof {
                    reveal_strlit("false");
                    assert(out@ =~= old(out)@ + jtext(v@));
                }
            }
        },
        JsonValue::Int(i) => {
            write_int(*i, out);
        },
        JsonValue::Str(s) => {
            write_string(s.as_str(), out);
        },
        JsonValue::Arr(items) => {
            out.push('[');
            write_items(items, 0, out);
            out.push(']');
            assert(out@ =~= old(out)@ + jtext(v@));
        },
        JsonValue::Obj(fields) => {
            out.push('{');
            write_fields(fields, 0, out);
            out.push('}');
            assert(out@ =~= old(out)@ + jtext(v@));
        },
    }
}

/// Writes the comma-separated texts of array elements from `j` on.
fn write_items(items: &Vec<JsonValue>, j: usize, out: &mut Vec<char>)
    requires
        j <= items@.len(),
    ensures
        final(out)@ == old(out)@ + jtext_items_from(jm_of_items(items@), j as int),
    decreases items, items@.len() - j,
{
    proof {
        lemma_jm_of_items(items@);
    }
    if j < items.len() {
        write_json(&items[j], out);
        if j + 1 < items.len() {
            out.push(',');
            write_items(items, j + 1, out);
            assert(out@ =~= old(out)@ + jtext_items_from(jm_of_items(items@), j as int));
        } else {
            assert(out@ =~= old(out)@ + jtext_items_from(jm_of_items(items@), j as int));
        }
    } else {
        assert(out@ =~= old(out)@ + jtext_items_from(jm_of_items(items@), j as int));
    }
}

/// Writes the comma-separated texts of object members from `j` on.
fn write_fields(fields: &Vec<(String, JsonValue)>, j: usize, out: &mut Vec<char>)
    requires
        j <= fields@.len(),
    ensures
        final(out)@ == old(out)@ + jtext_fields_from(jm_of_fields(fields@), j as int),
    decreases fields, fields@.len() - j,
{
    proof {
        lemma_jm_of_fields(fields@);
    }
    if j < fields.len() {
        write_string(fields[j].0.as_str(), out);
        out.push(':');
        write_json(&fields[j].1, out);
        if j + 1 < fields.len() {
            out.push(',');
            write_fields(fields, j + 1, out);
            assert(out@ =~= old(out)@ + jtext_fields_from(jm_of_fields(fields@), j as int));
        } else {
            assert(out@ =~= old(out)@ + jtext_fields_from(jm_of_fields(fields@), j as int));
        }
    } else {
        assert(out@ =~= old(out)@ + jtext_fields_from(jm_of_fields(fields@), j as int));
    }
}

impl JsonValue {
    /// The JSON text of this document: `jtext` of its model, exactly.
    pub fn to_text(&self) -> (s: String)
        ensures
            s@ == jtext(self@),
    {
        let mut out: Vec<char> = Vec::new();
        write_json(self, &mut out);
        proof {
            assert(out@ =~= jtext(self@));
        }
        chars_to_string(&out)
    }
}

} // verus!
