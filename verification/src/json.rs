//! JSON text of the scalar values the service exchanges, and the decimal
//! rendering of integers.

use vstd::prelude::*;
use crate::text::push_char;

verus! {

/// A JSON scalar: the values that request parameters hold.
#[derive(Debug, Clone)]
pub enum JsonScalar {
    Null,
    Text(String),
    Int(i32),
}

/// The mathematical value of a `JsonScalar`.
pub enum ScalarView {
    Null,
    Text(Seq<char>),
    Int(int),
}

impl View for JsonScalar {
    type V = ScalarView;

    open spec fn view(&self) -> ScalarView {
        match self {
            JsonScalar::Null => ScalarView::Null,
            JsonScalar::Text(s) => ScalarView::Text(s@),
            JsonScalar::Int(n) => ScalarView::Int(*n as int),
        }
    }
}

/// The character of a decimal digit.
pub open spec fn digit_char(d: int) -> char {
    if d == 0 { '0' }
    else if d == 1 { '1' }
    else if d == 2 { '2' }
    else if d == 3 { '3' }
    else if d == 4 { '4' }
    else if d == 5 { '5' }
    else if d == 6 { '6' }
    else if d == 7 { '7' }
    else if d == 8 { '8' }
    else { '9' }
}

/// The decimal digits of a natural number, without leading zeros.
pub open spec fn decimal_text(n: nat) -> Seq<char>
    decreases n,
{
    if n < 10 {
        seq![digit_char(n as int)]
    } else {
        decimal_text(n / 10).push(digit_char((n % 10) as int))
    }
}

/// The decimal rendering of an integer, with a leading `-` when negative.
pub open spec fn int_text(n: int) -> Seq<char> {
    if n < 0 {
        seq!['-'] + decimal_text((-n) as nat)
    } else {
        decimal_text(n as nat)
    }
}

/// A lowercase hexadecimal digit.
pub open spec fn hex_char(d: int) -> char {
    if d < 10 { digit_char(d) }
    else if d == 10 { 'a' }
    else if d == 11 { 'b' }
    else if d == 12 { 'c' }
    else if d == 13 { 'd' }
    else if d == 14 { 'e' }
    else { 'f' }
}

/// How one character is written inside a JSON string: quote and backslash
/// are escaped, control characters get their short escape or `\u00XX`, and
/// everything else stands as it is.
pub open spec fn json_escape_char(c: char) -> Seq<char> {
    if c == '"' {
        seq!['\\', '"']
    } else if c == '\\' {
        seq!['\\', '\\']
    } else if c == '\u{8}' {
        seq!['\\', 'b']
    } else if c == '\t' {
        seq!['\\', 't']
    } else if c == '\n' {
        seq!['\\', 'n']
    } else if c == '\u{c}' {
        seq!['\\', 'f']
    } else if c == '\r' {
        seq!['\\', 'r']
    } else if (c as int) < 32 {
        seq!['\\', 'u', '0', '0', hex_char((c as int) / 16), hex_char((c as int) % 16)]
    } else {
        seq![c]
    }
}

/// The escaped body of a JSON string.
pub open spec fn json_escape(s: Seq<char>) -> Seq<char>
    decreases s.len(),
{
    if s.len() == 0 {
        Seq::empty()
    } else {
        json_escape(s.drop_last()) + json_escape_char(s.last())
    }
}

/// The JSON string literal of a text.
pub open spec fn json_string_text(s: Seq<char>) -> Seq<char> {
    seq!['"'] + json_escape(s) + seq!['"']
}

/// The compact JSON text of a scalar.
pub open spec fn scalar_json(v: ScalarView) -> Seq<char> {
    match v {
        ScalarView::Null => seq!['n', 'u', 'l', 'l'],
        ScalarView::Text(s) => json_string_text(s),
        ScalarView::Int(n) => int_text(n),
    }
}

/// Whether a text needs no escaping inside a JSON string.
pub open spec fn json_plain(s: Seq<char>) -> bool {
    forall|i: int| 0 <= i < s.len() ==> s[i] != '"' && s[i] != '\\' && (s[i] as int) >= 32
}

/// A text that needs no escaping is written between quotes as it is.
pub proof fn lemma_json_plain_escape(s: Seq<char>)
    requires
        json_plain(s),
    ensures
        json_escape(s) == s,
        json_string_text(s) == seq!['"'] + s + seq!['"'],
    decreases s.len(),
{
    if s.len() > 0 {
        lemma_json_plain_escape(s.drop_last());
        assert(s =~= s.drop_last() + seq![s.last()]);
    }
}

/// Renders a scalar as compact JSON text.
///
/// Trusted: converts the scalar to a `serde_json::Value` and calls its
/// `Display` impl. serde_json's serializer writes `null`, integers in
/// decimal through `itoa`, and strings between quotes with exactly the
/// escapes of its `ESCAPE` table (quote, backslash, `\b \t \n \f \r`, other
/// bytes below 0x20 as `\u00` and two lowercase hex digits).
#[verifier::external_body]
pub(crate) fn scalar_to_json(v: &JsonScalar) -> (r: String)
    ensures
        r@ == scalar_json(v@),
{
    let value = match v {
        JsonScalar::Null => serde_json::Value::Null,
        JsonScalar::Text(s) => serde_json::Value::String(s.clone()),
        JsonScalar::Int(n) => serde_json::Value::from(*n),
    };
    value.to_string()
}

/// The JSON string literal of `s`.
pub fn json_string(s: &str) -> (r: String)
    ensures
        r@ == json_string_text(s@),
{
    let owned = String::from_str(s);
    scalar_to_json(&JsonScalar::Text(owned))
}

/// The digit character of `d`.
fn digit(d: u64) -> (c: char)
    requires
        d < 10,
    ensures
        c == digit_char(d as int),
{
    if d == 0 { '0' }
    else if d == 1 { '1' }
    else if d == 2 { '2' }
    else if d == 3 { '3' }
    else if d == 4 { '4' }
    else if d == 5 { '5' }
    else if d == 6 { '6' }
    else if d == 7 { '7' }
    else if d == 8 { '8' }
    else { '9' }
}

/// Appends the decimal digits of `m` to `r`.
fn push_decimal(r: &mut String, m: u64)
    ensures
        final(r)@ == old(r)@ + decimal_text(m as nat),
    decreases m,
{
    if m >= 10 {
        push_decimal(r, m / 10);
    }
    push_char(r, digit(m % 10));
    proof {
        if m >= 10 {
            assert(decimal_text(m as nat) == decimal_text((m / 10) as nat).push(
                digit_char((m % 10) as int),
            ));
        }
        assert(r@ =~= old(r)@ + decimal_text(m as nat));
    }
}

/// The decimal rendering of an integer, as `Display` writes it.
pub fn decimal_string(n: i64) -> (r: String)
    ensures
        r@ == int_text(n as int),
{
    let mut r = String::new();
    if n < 0 {
        push_char(&mut r, '-');
        let m: u64 = (-(n as i128)) as u64;
        push_decimal(&mut r, m);
    } else {
        push_decimal(&mut r, n as u64);
    }
    assert(r@ =~= int_text(n as int));
    r
}

} // verus!
