//! The pieces that every descriptor line is made of: decimal numbers,
//! booleans, fields in braces and optional strings.

use vstd::prelude::*;
use vstd::string::StringExecFns;

verus! {

/// The character of one decimal digit.
pub open spec fn digit_char(d: nat) -> char {
    if d == 0 {
        '0'
    } else if d == 1 {
        '1'
    } else if d == 2 {
        '2'
    } else if d == 3 {
        '3'
    } else if d == 4 {
        '4'
    } else if d == 5 {
        '5'
    } else if d == 6 {
        '6'
    } else if d == 7 {
        '7'
    } else if d == 8 {
        '8'
    } else {
        '9'
    }
}

/// A number in decimal, without leading zeros.
pub open spec fn decimal(n: nat) -> Seq<char>
    decreases n,
{
    if n < 10 {
        seq![digit_char(n)]
    } else {
        decimal(n / 10).push(digit_char(n % 10))
    }
}

/// A boolean as the word `true` or `false`.
pub open spec fn bool_text(b: bool) -> Seq<char> {
    if b {
        "true"@
    } else {
        "false"@
    }
}

/// A field of a descriptor line: `{name=value}`.
pub open spec fn field(name: Seq<char>, value: Seq<char>) -> Seq<char> {
    "{"@ + name + "="@ + value + "}"@
}

/// A field that is left out when it has no value.
pub open spec fn opt_field(name: Seq<char>, value: Option<Seq<char>>) -> Seq<char> {
    match value {
        Some(v) => field(name, v),
        None => Seq::empty(),
    }
}

/// The view of an optional string.
pub open spec fn opt_view(value: Option<String>) -> Option<Seq<char>> {
    match value {
        Some(s) => Some(s@),
        None => None,
    }
}

/// The text of an optional boolean.
pub open spec fn opt_bool_text(value: Option<bool>) -> Option<Seq<char>> {
    match value {
        Some(b) => Some(bool_text(b)),
        None => None,
    }
}

/// `PartialEq::eq` of `str`: two strings are equal when they hold the same
/// characters.
pub assume_specification[ <str as PartialEq>::eq ](a: &str, b: &str) -> (equal: bool)
    ensures
        equal == (a@ == b@),
;

/// Whether two strings hold the same characters.
pub fn str_eq(a: &str, b: &str) -> (equal: bool)
    ensures
        equal == (a@ == b@),
{
    *a == *b
}

fn digit_str(d: u64) -> (s: &'static str)
    requires
        d < 10,
    ensures
        s@ == seq![digit_char(d as nat)],
{
    proof {
        reveal_strlit("0");
        reveal_strlit("1");
        reveal_strlit("2");
        reveal_strlit("3");
        reveal_strlit("4");
        reveal_strlit("5");
        reveal_strlit("6");
        reveal_strlit("7");
        reveal_strlit("8");
        reveal_strlit("9");
    }
    let s = if d == 0 {
        "0"
    } else if d == 1 {
        "1"
    } else if d == 2 {
        "2"
    } else if d == 3 {
        "3"
    } else if d == 4 {
        "4"
    } else if d == 5 {
        "5"
    } else if d == 6 {
        "6"
    } else if d == 7 {
        "7"
    } else if d == 8 {
        "8"
    } else {
        "9"
    };
    assert(s@ =~= seq![digit_char(d as nat)]);
    s
}

/// Appends a number in decimal.
pub fn push_decimal(out: &mut String, n: u64)
    ensures
        final(out)@ == old(out)@ + decimal(n as nat),
    decreases n,
{
    if n < 10 {
        out.append(digit_str(n));
    } else {
        push_decimal(out, n / 10);
        out.append(digit_str(n % 10));
        assert(out@ =~= old(out)@ + decimal(n as nat));
    }
}

/// The word for a boolean.
pub fn bool_str(b: bool) -> (s: &'static str)
    ensures
        s@ == bool_text(b),
{
    if b {
        "true"
    } else {
        "false"
    }
}

/// Appends the field `{name=value}`.
pub fn push_field(out: &mut String, name: &str, value: &str)
    ensures
        final(out)@ == old(out)@ + field(name@, value@),
{
    out.append("{");
    out.append(name);
    out.append("=");
    out.append(value);
    out.append("}");
    assert(out@ =~= old(out)@ + field(name@, value@));
}

/// Appends the field `{name=value}` where there is a value, and nothing
/// where there is none.
pub fn push_opt_field(out: &mut String, name: &str, value: &Option<String>)
    ensures
        final(out)@ == old(out)@ + opt_field(name@, opt_view(*value)),
{
    match value {
        Some(v) => push_field(out, name, v.as_str()),
        None => {
            assert(out@ =~= old(out)@ + Seq::<char>::empty());
        },
    }
}

/// Appends the field `{name=true}` or `{name=false}` where there is a value,
/// and nothing where there is none.
pub fn push_opt_bool(out: &mut String, name: &str, value: &Option<bool>)
    ensures
        final(out)@ == old(out)@ + opt_field(name@, opt_bool_text(*value)),
{
    match value {
        Some(b) => push_field(out, name, bool_str(*b)),
        None => {
            assert(out@ =~= old(out)@ + Seq::<char>::empty());
        },
    }
}

/// The view of an optional borrowed string.
pub open spec fn opt_str_view(value: Option<&str>) -> Option<Seq<char>> {
    match value {
        Some(s) => Some(s@),
        None => None,
    }
}

/// A value when there is one, else the fallback.
pub open spec fn or_fallback(value: Option<Seq<char>>, fallback: Seq<char>) -> Seq<char> {
    match value {
        Some(v) => v,
        None => fallback,
    }
}

/// Whether `text` is what `Display` writes for a value.
pub open spec fn display_text<T: std::fmt::Display + ?Sized>(value: &T, text: Seq<char>) -> bool {
    exists|s: String| s@ == text && vstd::string::to_string_from_display_ensures::<T>(value, s)
}

/// What `Display` writes for a string is the string.
pub proof fn lemma_display_text_str(value: &str, text: Seq<char>)
    requires
        display_text::<str>(value, text),
    ensures
        text == value@,
{
    broadcast use vstd::string::to_string_from_display_ensures_for_str;
}

/// A copy of an optional string.
pub fn clone_opt(value: &Option<String>) -> (copy: Option<String>)
    ensures
        opt_view(copy) == opt_view(*value),
{
    match value {
        Some(s) => Some(s.clone()),
        None => None,
    }
}

} // verus!
