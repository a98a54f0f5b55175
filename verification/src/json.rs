//! JSON text as the license server reads and writes it: string literals and
//! the string member of a reply object.

use vstd::prelude::*;

verus! {

/// The lower-case hexadecimal digit of `n` (`0 <= n < 16`).
pub open spec fn hex_digit(n: u32) -> char {
    if n < 10 {
        (('0' as u32) + n) as char
    } else {
        (('a' as u32) + (n - 10)) as char
    }
}

/// How one character stands inside a JSON string literal: the quote, the
/// backslash and the control characters are escaped, all others stand as they are.
pub open spec fn json_escape_char(c: char) -> Seq<char> {
    if c == '"' {
        seq!['\\', '"']
    } else if c == '\\' {
        seq!['\\', '\\']
    } else if c == '\u{8}' {
        seq!['\\', 'b']
    } else if c == '\u{c}' {
        seq!['\\', 'f']
    } else if c == '\n' {
        seq!['\\', 'n']
    } else if c == '\r' {
        seq!['\\', 'r']
    } else if c == '\t' {
        seq!['\\', 't']
    } else if (c as u32) < 0x20 {
        seq!['\\', 'u', '0', '0', hex_digit((c as u32) / 16), hex_digit((c as u32) % 16)]
    } else {
        seq![c]
    }
}

/// The escaped body of a JSON string literal.
pub open spec fn json_escape(s: Seq<char>) -> Seq<char>
    decreases s.len(),
{
    if s.len() == 0 {
        Seq::empty()
    } else {
        json_escape_char(s[0]) + json_escape(s.drop_first())
    }
}

/// The JSON string literal that stands for `s`.
pub open spec fn json_string(s: Seq<char>) -> Seq<char> {
    seq!['"'] + json_escape(s) + seq!['"']
}

/// The value of a hexadecimal digit, either case.
pub open spec fn hex_value(c: char) -> Option<int> {
    if '0' <= c && c <= '9' {
        Some((c as u32) - ('0' as u32))
    } else if 'a' <= c && c <= 'f' {
        Some((c as u32) - ('a' as u32) + 10)
    } else if 'A' <= c && c <= 'F' {
        Some((c as u32) - ('A' as u32) + 10)
    } else {
        None
    }
}

/// The code point written by the four hex digits at the start of `t`.
pub open spec fn hex4_value(t: Seq<char>) -> Option<int> {
    if t.len() < 4 {
        None
    } else {
        match (hex_value(t[0]), hex_value(t[1]), hex_value(t[2]), hex_value(t[3])) {
            (Some(a), Some(b), Some(c), Some(d)) => Some(a * 4096 + b * 256 + c * 16 + d),
            _ => None,
        }
    }
}

/// The character that the escape `\x` stands for, for every escape of RFC
/// 8259 but `\u`.
pub open spec fn short_escape(x: char) -> Option<char> {
    if x == '"' {
        Some('"')
    } else if x == '\\' {
        Some('\\')
    } else if x == '/' {
        Some('/')
    } else if x == 'b' {
        Some('\u{8}')
    } else if x == 'f' {
        Some('\u{c}')
    } else if x == 'n' {
        Some('\n')
    } else if x == 'r' {
        Some('\r')
    } else if x == 't' {
        Some('\t')
    } else {
        None
    }
}

/// What a JSON reader makes of the characters between the quotes of a string
/// literal (RFC 8259, section 7): the string they stand for, or `None` where
/// they break the grammar (a bare quote or control character, a broken
/// escape). A `\u` escape of a lone surrogate is not read here.
pub open spec fn json_unescape(t: Seq<char>) -> Option<Seq<char>>
    decreases t.len(),
{
    if t.len() == 0 {
        Some(Seq::empty())
    } else if t[0] == '"' || (t[0] as u32) < 0x20 {
        None
    } else if t[0] == '\\' {
        if t.len() < 2 {
            None
        } else if t[1] == 'u' {
            match hex4_value(t.subrange(2, t.len() as int)) {
                Some(v) =>
                    if v < 0xD800 || (0xE000 <= v && v < 0x110000) {
                        match json_unescape(t.subrange(6, t.len() as int)) {
                            Some(rest) => Some(seq![v as char] + rest),
                            None => None,
                        }
                    } else {
                        None
                    },
                None => None,
            }
        } else {
            match (short_escape(t[1]), json_unescape(t.subrange(2, t.len() as int))) {
                (Some(c), Some(rest)) => Some(seq![c] + rest),
                _ => None,
            }
        }
    } else {
        match json_unescape(t.subrange(1, t.len() as int)) {
            Some(rest) => Some(seq![t[0]] + rest),
            None => None,
        }
    }
}

/// What a JSON reader makes of a whole string literal: the quotes around it
/// and the string between them.
pub open spec fn read_json_string(t: Seq<char>) -> Option<Seq<char>> {
    if t.len() >= 2 && t[0] == '"' && t[t.len() - 1] == '"' {
        json_unescape(t.subrange(1, t.len() - 1))
    } else {
        None
    }
}

proof fn lemma_hex_digit_value(n: u32)
    requires
        n < 16,
    ensures
        hex_value(hex_digit(n)) == Some(n as int),
{
}

proof fn lemma_unescape_one(c: char, rest: Seq<char>)
    requires
        json_unescape(rest) is Some,
    ensures
        json_unescape(json_escape_char(c) + rest) == Some(seq![c] + json_unescape(rest).unwrap()),
{
    let t = json_escape_char(c) + rest;
    let e = json_escape_char(c);
    if c == '"' || c == '\\' || c == '\u{8}' || c == '\u{c}' || c == '\n' || c == '\r' || c == '\t' {
        assert(e.len() == 2);
        assert(t[0] == '\\');
        assert(t[1] == e[1]);
        assert(t.subrange(2, t.len() as int) =~= rest);
    } else if (c as u32) < 0x20 {
        let v = c as u32;
        lemma_hex_digit_value(v / 16);
        lemma_hex_digit_value(v % 16);
        assert(e.len() == 6);
        assert(t[0] == '\\');
        assert(t[1] == 'u');
        let h = t.subrange(2, t.len() as int);
        assert(h[0] == '0' && h[1] == '0' && h[2] == hex_digit(v / 16) && h[3] == hex_digit(v % 16));
        assert(hex_value('0') == Some(0int));
        assert(hex4_value(h) == Some(v as int));
        assert(t.subrange(6, t.len() as int) =~= rest);
        assert((v as char) == c);
    } else {
        assert(e =~= seq![c]);
        assert(t[0] == c);
        assert(t.subrange(1, t.len() as int) =~= rest);
    }
}

/// Reading back what is escaped gives the string that was escaped.
pub proof fn lemma_unescape_escape(s: Seq<char>)
    ensures
        json_unescape(json_escape(s)) == Some(s),
    decreases s.len(),
{
    if s.len() == 0 {
        assert(json_escape(s) =~= Seq::<char>::empty());
    } else {
        lemma_unescape_escape(s.drop_first());
        lemma_unescape_one(s[0], json_escape(s.drop_first()));
        assert(seq![s[0]] + s.drop_first() =~= s);
    }
}

/// A JSON string literal written for `s` reads back as exactly `s`, whatever
/// its length and whatever characters it holds.
pub proof fn lemma_json_string_round_trip(s: Seq<char>)
    ensures
        read_json_string(json_string(s)) == Some(s),
{
    let t = json_string(s);
    lemma_unescape_escape(s);
    assert(t.subrange(1, t.len() - 1) =~= json_escape(s));
}

/// Serialises a string as a JSON string literal with `serde_json::to_string`.
/// Trusted: serde_json writes a quote, then each character, escaping the quote,
/// the backslash and every character below U+0020 (the short forms `\b \f \n \r \t`
/// where they exist, else `\u00` and two lower-case hex digits), then a quote;
/// serialising a `str` does not fail.
#[verifier::external_body]
pub(crate) fn json_quote(s: &str) -> (r: String)
    ensures
        r@ == json_string(s@),
{
    match serde_json::to_string(s) {
        Ok(text) => text,
        Err(_) => String::new(),
    }
}

/// What `serde_json` makes of `text` read as one JSON value, then of the member
/// `key` of that value: `Err` with the parser's message where `text` is not JSON,
/// else `Ok(Some(..))` where the value is an object whose member `key` is a
/// string, and `Ok(None)` otherwise.
pub uninterp spec fn json_string_member(text: Seq<char>, key: Seq<char>) -> Result<Option<Seq<char>>, Seq<char>>;

/// Reads `text` with `serde_json::from_str::<serde_json::Value>`, then takes
/// `value[key].as_str()`. Trusted: the result is what `json_string_member`
/// names for these arguments, the strings taken by their views. What the parser
/// accepts and the wording of its error message are not stated here.
#[verifier::external_body]
pub(crate) fn string_member(text: &str, key: &str) -> (r: Result<Option<String>, String>)
    ensures
        match (r, json_string_member(text@, key@)) {
            (Ok(Some(m)), Ok(Some(n))) => m@ == n,
            (Ok(None), Ok(None)) => true,
            (Err(e), Err(n)) => e@ == n,
            _ => false,
        },
{
    match serde_json::from_str::<serde_json::Value>(text) {
        Ok(value) => Ok(value[key].as_str().map(str::to_string)),
        Err(e) => Err(e.to_string()),
    }
}

} // verus!
