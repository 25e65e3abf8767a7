//! JSON text for the request bodies.
use vstd::prelude::*;

verus! {

/// The lower-case hexadecimal digit for a value below sixteen.
pub open spec fn hex_digit(v: u32) -> char {
    if v < 10 {
        (('0' as u32) + v) as char
    } else {
        (('a' as u32) + v - 10) as char
    }
}

/// How one character stands inside a JSON string literal: the quote and
/// the backslash are escaped, the control characters below `0x20` get their
/// short escape where JSON has one and `\u00XX` otherwise, every other
/// character stands for itself.
pub open spec fn json_escape_char(c: char) -> Seq<char> {
    if c == '"' {
        seq!['\\', '"']
    } else if c == '\\' {
        seq!['\\', '\\']
    } else if c == '\x08' {
        seq!['\\', 'b']
    } else if c == '\t' {
        seq!['\\', 't']
    } else if c == '\n' {
        seq!['\\', 'n']
    } else if c == '\x0c' {
        seq!['\\', 'f']
    } else if c == '\r' {
        seq!['\\', 'r']
    } else if (c as u32) < 0x20 {
        seq!['\\', 'u', '0', '0', hex_digit((c as u32) / 16), hex_digit((c as u32) % 16)]
    } else {
        seq![c]
    }
}

/// The escaped contents of a JSON string literal, without the quotes.
pub open spec fn json_escaped(s: Seq<char>) -> Seq<char>
    decreases s.len(),
{
    if s.len() == 0 {
        Seq::empty()
    } else {
        json_escaped(s.drop_last()) + json_escape_char(s.last())
    }
}

/// A complete JSON string literal for `s`.
pub open spec fn json_string_literal(s: Seq<char>) -> Seq<char> {
    seq!['"'] + json_escaped(s) + seq!['"']
}

/// Calls `serde_json::to_string` on a string slice. Its source writes a
/// quote, then each character escaped by its table (quote, backslash,
/// `\b \t \n \f \r`, `\u00xx` with lower-case hex for the other characters
/// below `0x20`, every other character unchanged), then a quote; writing
/// into its in-memory buffer cannot fail, so the error arm is never taken.
#[verifier::external_body]
pub(crate) fn json_string(s: &str) -> (r: String)
    ensures
        r@ == json_string_literal(s@),
{
    match serde_json::to_string(s) {
        Ok(t) => t,
        Err(_) => String::new(),
    }
}

/// The value of a lower-case hexadecimal digit, or -1.
pub open spec fn hex_value(c: char) -> int {
    if '0' <= c && c <= '9' {
        (c as u32) - ('0' as u32)
    } else if 'a' <= c && c <= 'f' {
        (c as u32) - ('a' as u32) + 10
    } else {
        -1
    }
}

/// How many characters the escape at the start of `t` takes.
pub open spec fn escape_len(t: Seq<char>) -> int {
    if t.len() >= 2 && t[1] == 'u' {
        6
    } else {
        2
    }
}

/// The character that the escape at the start of `t` stands for.
pub open spec fn unescape(t: Seq<char>) -> Option<char> {
    if t.len() < 2 {
        None
    } else if t[1] == '"' {
        Some('"')
    } else if t[1] == '\\' {
        Some('\\')
    } else if t[1] == 'b' {
        Some('\x08')
    } else if t[1] == 't' {
        Some('\t')
    } else if t[1] == 'n' {
        Some('\n')
    } else if t[1] == 'f' {
        Some('\x0c')
    } else if t[1] == 'r' {
        Some('\r')
    } else if t[1] == 'u' && t.len() >= 6 && t[2] == '0' && t[3] == '0' && hex_value(t[4]) >= 0
        && hex_value(t[5]) >= 0 {
        Some((hex_value(t[4]) * 16 + hex_value(t[5])) as char)
    } else {
        None
    }
}

/// Reads the contents of a JSON string literal whose opening quote has
/// been read: the characters up to the closing quote, with escapes
/// undone, and the text after that quote.
pub open spec fn read_json_string(t: Seq<char>) -> Option<(Seq<char>, Seq<char>)>
    decreases t.len(),
{
    if t.len() == 0 {
        None
    } else if t[0] == '"' {
        Some((Seq::empty(), t.drop_first()))
    } else if t[0] == '\\' {
        if t.len() >= escape_len(t) && unescape(t) is Some {
            match read_json_string(t.skip(escape_len(t))) {
                Some((d, r)) => Some((seq![unescape(t)->0] + d, r)),
                None => None,
            }
        } else {
            None
        }
    } else {
        match read_json_string(t.drop_first()) {
            Some((d, r)) => Some((seq![t[0]] + d, r)),
            None => None,
        }
    }
}

/// Reads a JSON string literal at the start of `t`: its contents and the
/// text after it.
pub open spec fn read_json_literal(t: Seq<char>) -> Option<(Seq<char>, Seq<char>)> {
    if t.len() > 0 && t[0] == '"' {
        read_json_string(t.drop_first())
    } else {
        None
    }
}

/// Escaping distributes over concatenation.
pub proof fn lemma_escaped_concat(a: Seq<char>, b: Seq<char>)
    ensures
        json_escaped(a + b) == json_escaped(a) + json_escaped(b),
    decreases b.len(),
{
    if b.len() == 0 {
        assert(a + b =~= a);
        assert(json_escaped(b) =~= Seq::<char>::empty());
        assert(json_escaped(a) + json_escaped(b) =~= json_escaped(a));
    } else {
        lemma_escaped_concat(a, b.drop_last());
        assert((a + b).drop_last() =~= a + b.drop_last());
        assert((a + b).last() == b.last());
        assert(json_escaped(a + b) =~= json_escaped(a) + json_escaped(b));
    }
}

/// A digit written by `hex_digit` reads back as its value.
proof fn lemma_hex_roundtrip(v: u32)
    requires
        v < 16,
    ensures
        hex_value(hex_digit(v)) == v,
{
}

/// Reading one escaped character back gives the character.
proof fn lemma_read_escaped_char(c: char, rest: Seq<char>)
    ensures
        read_json_string(json_escape_char(c) + rest) == match read_json_string(rest) {
            Some((d, r)) => Some((seq![c] + d, r)),
            None => None::<(Seq<char>, Seq<char>)>,
        },
{
    let t = json_escape_char(c) + rest;
    let e = json_escape_char(c);
    if e.len() == 1 {
        assert(t.drop_first() =~= rest);
    } else if e.len() == 2 {
        assert(t.skip(2) =~= rest);
    } else {
        let v = c as u32;
        lemma_hex_roundtrip(v / 16);
        lemma_hex_roundtrip(v % 16);
        assert(t.skip(6) =~= rest);
        assert(hex_value(t[4]) * 16 + hex_value(t[5]) == v);
    }
}

/// Reading an escaped string back, up to the closing quote, gives the string.
pub proof fn lemma_read_escaped(s: Seq<char>, rest: Seq<char>)
    ensures
        read_json_string(json_escaped(s) + seq!['"'] + rest) == Some((s, rest)),
    decreases s.len(),
{
    if s.len() == 0 {
        assert(json_escaped(s) + seq!['"'] + rest =~= seq!['"'] + rest);
        assert((seq!['"'] + rest).drop_first() =~= rest);
    } else {
        let tail = s.drop_first();
        lemma_read_escaped(tail, rest);
        lemma_escaped_concat(seq![s[0]], tail);
        assert(seq![s[0]] + tail =~= s);
        assert(json_escaped(seq![s[0]]) =~= json_escape_char(s[0])) by {
            let one = seq![s[0]];
            assert(one.drop_last() =~= Seq::<char>::empty());
            assert(json_escaped(one.drop_last()) =~= Seq::<char>::empty());
            assert(one.last() == s[0]);
            assert(json_escaped(one) == json_escaped(one.drop_last()) + json_escape_char(one.last()));
        }
        lemma_read_escaped_char(s[0], json_escaped(tail) + seq!['"'] + rest);
        assert(json_escaped(s) + seq!['"'] + rest =~= json_escape_char(s[0]) + (json_escaped(tail)
            + seq!['"'] + rest));
        assert(seq![s[0]] + tail =~= s);
    }
}

/// A JSON string literal reads back as its string, leaving what follows it.
pub proof fn lemma_read_literal(s: Seq<char>, rest: Seq<char>)
    ensures
        read_json_literal(json_string_literal(s) + rest) == Some((s, rest)),
{
    lemma_read_escaped(s, rest);
    let t = json_string_literal(s) + rest;
    assert(t.drop_first() =~= json_escaped(s) + seq!['"'] + rest);
}

} // verus!
