//! JSON text for the one-record response body: string escaping and a
//! single-field object, each proved equal to a character-sequence
//! specification of the JSON grammar's string encoding.
//!
//! Escaping follows the JSON rules: `"` and `\` get a backslash,
//! backspace, tab, newline, form feed and carriage return get their
//! short escapes, every other control character below U+0020 becomes
//! `\u00XX` with lowercase hex digits, and all other characters stand
//! as themselves.

use vstd::prelude::*;

use crate::text::spec_digit;

verus! {

/// The lowercase hexadecimal digit character for `d` (`0 <= d <= 15`).
pub open spec fn spec_hex_digit(d: int) -> char {
    if d < 10 {
        spec_digit(d)
    } else if d == 10 {
        'a'
    } else if d == 11 {
        'b'
    } else if d == 12 {
        'c'
    } else if d == 13 {
        'd'
    } else if d == 14 {
        'e'
    } else {
        'f'
    }
}

/// What one character contributes to a JSON-escaped string.
pub open spec fn spec_escape_char(c: char) -> Seq<char> {
    if c == '"' {
        seq!['\\', '"']
    } else if c == '\\' {
        seq!['\\', '\\']
    } else if c == '\u{8}' {
        seq!['\\', 'b']
    } else if c == '\t' {
        seq!['\\', 't']
    } else if c == '\n' {
        seq!['\\', 'n']
    } else if c == '\u{c}' {
        seq!['\\', 'f']
    } else if c == '\r' {
        seq!['\\', 'r']
    } else if (c as int) < 0x20 {
        seq!['\\', 'u', '0', '0', spec_hex_digit(c as int / 16), spec_hex_digit(c as int % 16)]
    } else {
        seq![c]
    }
}

/// The JSON escape of a whole string.
pub open spec fn spec_escape(s: Seq<char>) -> Seq<char>
    decreases s.len(),
{
    if s.len() == 0 {
        Seq::empty()
    } else {
        spec_escape(s.drop_last()) + spec_escape_char(s.last())
    }
}

/// A JSON string literal: the escaped contents between double quotes.
pub open spec fn spec_json_string(s: Seq<char>) -> Seq<char> {
    seq!['"'] + spec_escape(s) + seq!['"']
}

/// A JSON object with a single string-valued field.
pub open spec fn spec_json_one_field(key: Seq<char>, value: Seq<char>) -> Seq<char> {
    seq!['{'] + spec_json_string(key) + seq![':'] + spec_json_string(value) + seq!['}']
}

/// A one-character string holding the lowercase hex digit `d`.
fn hex_digit_str(d: u32) -> (s: &'static str)
    requires
        d <= 15,
    ensures
        s@ =~= seq![spec_hex_digit(d as int)],
{
    proof {
        reveal_strlit("0");
        reveal_strlit("1");
        reveal_strlit("2");
        reveal_strlit("3");
        reveal_strlit("4");
        reveal_strlit("5");
        reveal_strlit("6");
        reveal_strlit("7");
        reveal_strlit("8");
        reveal_strlit("9");
        reveal_strlit("a");
        reveal_strlit("b");
        reveal_strlit("c");
        reveal_strlit("d");
        reveal_strlit("e");
        reveal_strlit("f");
    }
    if d == 0 {
        "0"
    } else if d == 1 {
        "1"
    } else if d == 2 {
        "2"
    } else if d == 3 {
        "3"
    } else if d == 4 {
        "4"
    } else if d == 5 {
        "5"
    } else if d == 6 {
        "6"
    } else if d == 7 {
        "7"
    } else if d == 8 {
        "8"
    } else if d == 9 {
        "9"
    } else if d == 10 {
        "a"
    } else if d == 11 {
        "b"
    } else if d == 12 {
        "c"
    } else if d == 13 {
        "d"
    } else if d == 14 {
        "e"
    } else {
        "f"
    }
}

/// Relies on `String::push`: appends the given character to the end of
/// the string.
#[verifier::external_body]
fn push_char(out: &mut String, c: char)
    ensures
        final(out)@ == old(out)@ + seq![c],
{
    out.push(c);
}

/// Append the JSON escape of one character to `out`.
fn append_escaped_char(out: &mut String, c: char)
    ensures
        final(out)@ == old(out)@ + spec_escape_char(c),
{
    proof {
        reveal_strlit("\\\"");
        reveal_strlit("\\\\");
        reveal_strlit("\\b");
        reveal_strlit("\\t");
        reveal_strlit("\\n");
        reveal_strlit("\\f");
        reveal_strlit("\\r");
        reveal_strlit("\\u00");
    }
    if c == '"' {
        out.append("\\\"");
        assert(final(out)@ =~= old(out)@ + spec_escape_char(c));
    } else if c == '\\' {
        out.append("\\\\");
        assert(final(out)@ =~= old(out)@ + spec_escape_char(c));
    } else if c == '\u{8}' {
        out.append("\\b");
        assert(final(out)@ =~= old(out)@ + spec_escape_char(c));
    } else if c == '\t' {
        out.append("\\t");
        assert(final(out)@ =~= old(out)@ + spec_escape_char(c));
    } else if c == '\n' {
        out.append("\\n");
        assert(final(out)@ =~= old(out)@ + spec_escape_char(c));
    } else if c == '\u{c}' {
        out.append("\\f");
        assert(final(out)@ =~= old(out)@ + spec_escape_char(c));
    } else if c == '\r' {
        out.append("\\r");
        assert(final(out)@ =~= old(out)@ + spec_escape_char(c));
    } else if (c as u32) < 0x20 {
        let code = c as u32;
        out.append("\\u00");
        out.append(hex_digit_str(code / 16));
        out.append(hex_digit_str(code % 16));
        assert(final(out)@ =~= old(out)@ + spec_escape_char(c));
    } else {
        push_char(out, c);
        assert(final(out)@ =~= old(out)@ + spec_escape_char(c));
    }
}

/// A character that JSON escaping leaves as itself.
pub open spec fn spec_plain_char(c: char) -> bool {
    c != '"' && c != '\\' && (c as int) >= 0x20
}

/// Escaping changes nothing in a string of plain characters.
pub proof fn lemma_escape_plain(s: Seq<char>)
    requires
        forall|i: int| 0 <= i < s.len() ==> spec_plain_char(#[trigger] s[i]),
    ensures
        spec_escape(s) == s,
    decreases s.len(),
{
    if s.len() > 0 {
        assert(forall|i: int| 0 <= i < s.drop_last().len() ==> spec_plain_char(
            #[trigger] s.drop_last()[i],
        ));
        lemma_escape_plain(s.drop_last());
        assert(spec_plain_char(s.last()));
        assert(spec_escape_char(s.last()) =~= seq![s.last()]);
        assert(spec_escape(s) =~= s);
    }
}

/// Escaping one more character extends the escape of the prefix.
proof fn lemma_escape_snoc(s: Seq<char>, i: int)
    requires
        0 <= i < s.len(),
    ensures
        spec_escape(s.take(i + 1)) == spec_escape(s.take(i)) + spec_escape_char(s[i]),
{
    let t = s.take(i + 1);
    assert(t.drop_last() =~= s.take(i));
    assert(t.last() == s[i]);
}

/// JSON-escape the contents of `s`.
pub fn json_escape(s: &str) -> (r: String)
    ensures
        r@ == spec_escape(s@),
{
    let n = s.unicode_len();
    let mut out = String::new();
    let mut i: usize = 0;
    while i < n
        invariant
            i <= n,
            n == s@.len(),
            out@ == spec_escape(s@.take(i as int)),
        decreases n - i,
    {
        let c = s.get_char(i);
        append_escaped_char(&mut out, c);
        proof {
            lemma_escape_snoc(s@, i as int);
        }
        i = i + 1;
    }
    proof {
        assert(s@.take(n as int) =~= s@);
    }
    out
}

/// Render `s` as a JSON string literal, quotes and escapes included.
pub fn json_string(s: &str) -> (r: String)
    ensures
        r@ == spec_json_string(s@),
{
    proof {
        reveal_strlit("\"");
    }
    let mut out = String::from_str("\"");
    out.append(json_escape(s).as_str());
    out.append("\"");
    proof {
        assert(out@ =~= spec_json_string(s@));
    }
    out
}

/// Render the JSON object with the single field `key` holding `value`.
pub fn json_one_field_object(key: &str, value: &str) -> (r: String)
    ensures
        r@ == spec_json_one_field(key@, value@),
{
    proof {
        reveal_strlit("{");
        reveal_strlit(":");
        reveal_strlit("}");
    }
    let mut out = String::from_str("{");
    out.append(json_string(key).as_str());
    out.append(":");
    out.append(json_string(value).as_str());
    out.append("}");
    proof {
        assert(out@ =~= spec_json_one_field(key@, value@));
    }
    out
}

} // verus!
