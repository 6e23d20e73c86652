//! Text primitives shared by the formatter and the renderer: decimal integers,
//! quoted strings and the textual form of floating-point numbers.

use vstd::prelude::*;
use vstd::string::StringExecFns;

verus! {

/// Trusted: `String::push` appends exactly the given character to the end of
/// the string and changes nothing else.
pub assume_specification[ std::string::String::push ](s: &mut std::string::String, ch: char)
    ensures
        final(s)@ == old(s)@.push(ch),
;

/// Trusted: equality of string slices (`==` on `str`) holds exactly when both
/// slices hold the same characters in the same order.
#[verifier::external_body]
pub(crate) fn same_text(a: &str, b: &str) -> (same: bool)
    ensures
        same == (a@ == b@),
{
    a == b
}

/// The character that writes the decimal digit `d`.
pub open spec fn digit_char(d: nat) -> char {
    if d == 0 {
        '0'
    } else if d == 1 {
        '1'
    } else if d == 2 {
        '2'
    } else if d == 3 {
        '3'
    } else if d == 4 {
        '4'
    } else if d == 5 {
        '5'
    } else if d == 6 {
        '6'
    } else if d == 7 {
        '7'
    } else if d == 8 {
        '8'
    } else {
        '9'
    }
}

/// Decimal digits of a natural number, most significant first, without
/// leading zeros or separators.
pub open spec fn decimal_nat(n: nat) -> Seq<char>
    decreases n,
{
    if n < 10 {
        seq![digit_char(n)]
    } else {
        decimal_nat(n / 10).push(digit_char(n % 10))
    }
}

/// Decimal literal of an integer: a minus sign for negative numbers, then the
/// digits of the magnitude.
pub open spec fn decimal(i: int) -> Seq<char> {
    if i < 0 {
        seq!['-'] + decimal_nat((-i) as nat)
    } else {
        decimal_nat(i as nat)
    }
}

/// What one character of a text becomes inside double quotes: backslash and
/// double quote get a backslash in front, every other character stands as is.
pub open spec fn escape_char(c: char) -> Seq<char> {
    if c == '\\' || c == '"' {
        seq!['\\', c]
    } else {
        seq![c]
    }
}

/// The characters of `s`, each escaped by `escape_char`, in order.
pub open spec fn escaped(s: Seq<char>) -> Seq<char>
    decreases s.len(),
{
    if s.len() == 0 {
        Seq::empty()
    } else {
        escaped(s.drop_last()) + escape_char(s.last())
    }
}

/// A text value as it is written: double-quoted, with backslashes and double
/// quotes escaped and nothing else changed.
pub open spec fn quoted(s: Seq<char>) -> Seq<char> {
    seq!['"'] + escaped(s) + seq!['"']
}

/// A floating-point number as it is written, given its shortest round-trip
/// decimal representation: the representation itself when it holds a decimal
/// point, else the representation followed by `.0`.
pub open spec fn float_text(repr: Seq<char>) -> Seq<char> {
    if repr.contains('.') {
        repr
    } else {
        repr + ".0"@
    }
}

/// Joins a dotted path and a name: the name alone under the empty path, else
/// path, a dot, and the name.
pub open spec fn join_path(prefix: Seq<char>, name: Seq<char>) -> Seq<char> {
    if prefix.len() == 0 {
        name
    } else {
        prefix + seq!['.'] + name
    }
}

fn digit(d: u64) -> (c: char)
    requires
        d < 10,
    ensures
        c == digit_char(d as nat),
{
    if d == 0 {
        '0'
    } else if d == 1 {
        '1'
    } else if d == 2 {
        '2'
    } else if d == 3 {
        '3'
    } else if d == 4 {
        '4'
    } else if d == 5 {
        '5'
    } else if d == 6 {
        '6'
    } else if d == 7 {
        '7'
    } else if d == 8 {
        '8'
    } else {
        '9'
    }
}

/// Appends the decimal digits of `n`.
pub(crate) fn push_decimal(out: &mut String, n: u64)
    ensures
        final(out)@ == old(out)@ + decimal_nat(n as nat),
    decreases n,
{
    if n >= 10 {
        push_decimal(out, n / 10);
    }
    out.push(digit(n % 10));
}

/// Appends the decimal literal of `i`.
pub(crate) fn push_integer(out: &mut String, i: i64)
    ensures
        final(out)@ == old(out)@ + decimal(i as int),
{
    if i < 0 {
        out.push('-');
        let magnitude: u64 = if i == i64::MIN {
            9223372036854775808u64
        } else {
            (-i) as u64
        };
        push_decimal(out, magnitude);
    } else {
        push_decimal(out, i as u64);
    }
}

/// Appends the characters of `s`, escaped for use inside double quotes.
pub(crate) fn push_escaped(out: &mut String, s: &str)
    ensures
        final(out)@ == old(out)@ + escaped(s@),
{
    broadcast use vstd::string::group_string_axioms;

    let ghost start = out@;
    for c in it: s.chars()
        invariant
            it.seq() == s@,
            out@ == start + escaped(s@.take(it.index())),
    {
        proof {
            assert(s@.take(it.index() + 1).drop_last() == s@.take(it.index()));
        }
        if c == '\\' || c == '"' {
            out.push('\\');
        }
        out.push(c);
    }
    proof {
        assert(s@.take(s@.len() as int) == s@);
    }
}

/// Appends `s` as a quoted text value.
pub(crate) fn push_quoted(out: &mut String, s: &str)
    ensures
        final(out)@ == old(out)@ + quoted(s@),
{
    out.push('"');
    push_escaped(out, s);
    out.push('"');
}

/// Whether `s` holds a decimal point.
pub(crate) fn has_decimal_point(s: &str) -> (found: bool)
    ensures
        found == s@.contains('.'),
{
    broadcast use vstd::string::group_string_axioms;

    let mut found: bool = false;
    for c in it: s.chars()
        invariant
            it.seq() == s@,
            found == s@.take(it.index()).contains('.'),
    {
        proof {
            let before = s@.take(it.index());
            let after = s@.take(it.index() + 1);
            assert(after == before.push(c));
            if before.contains('.') {
                let k = choose|k: int| 0 <= k < before.len() && before[k] == '.';
                assert(after[k] == '.');
            }
            if c == '.' {
                assert(after[it.index()] == '.');
            }
        }
        if c == '.' {
            found = true;
        }
    }
    proof {
        assert(s@.take(s@.len() as int) == s@);
    }
    found
}

/// Appends a floating-point number given by its shortest round-trip decimal
/// representation.
pub(crate) fn push_float(out: &mut String, repr: &str)
    ensures
        final(out)@ == old(out)@ + float_text(repr@),
{
    out.append(repr);
    if !has_decimal_point(repr) {
        out.append(".0");
    }
}

/// The path of a section named `name` under `prefix`.
pub(crate) fn joined_path(prefix: &str, name: &str) -> (path: String)
    ensures
        path@ == join_path(prefix@, name@),
{
    if prefix.is_empty() {
        String::from_str(name)
    } else {
        let mut path = String::from_str(prefix);
        path.push('.');
        path.append(name);
        path
    }
}

} // verus!
