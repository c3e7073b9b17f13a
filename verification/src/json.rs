//! Verified JSON rendering of strings: the escaping rules of RFC 8259 for
//! quotation mark, reverse solidus and control characters.

use vstd::prelude::*;
use crate::text::hex_char;

verus! {

/// The escape sequence that one character contributes inside a JSON string.
pub open spec fn esc_char_of(c: char) -> Seq<char> {
    if c == '"' {
        seq!['\\', '"']
    } else if c == '\\' {
        seq!['\\', '\\']
    } else if c == '\u{8}' {
        seq!['\\', 'b']
    } else if c == '\u{c}' {
        seq!['\\', 'f']
    } else if c == '\n' {
        seq!['\\', 'n']
    } else if c == '\r' {
        seq!['\\', 'r']
    } else if c == '\t' {
        seq!['\\', 't']
    } else if (c as u32) < 0x20 {
        seq!['\\', 'u', '0', '0', hex_char(c as u32 as int / 16), hex_char(c as u32 as int % 16)]
    } else {
        seq![c]
    }
}

/// A character sequence with every character escaped for JSON.
pub open spec fn escape_of(s: Seq<char>) -> Seq<char>
    decreases s.len(),
{
    if s.len() == 0 {
        Seq::<char>::empty()
    } else {
        esc_char_of(s.first()) + escape_of(s.drop_first())
    }
}

/// A JSON string literal: the escaped characters between quotation marks.
pub open spec fn json_string_of(s: Seq<char>) -> Seq<char> {
    seq!['"'] + escape_of(s) + seq!['"']
}

/// Appends the escape sequence of one character.
fn push_escaped_char(out: &mut String, c: char)
    ensures
        final(out)@ == old(out)@ + esc_char_of(c),
{
    proof {
        reveal_strlit("\\\"");
        reveal_strlit("\\\\");
        reveal_strlit("\\b");
        reveal_strlit("\\f");
        reveal_strlit("\\n");
        reveal_strlit("\\r");
        reveal_strlit("\\t");
        reveal_strlit("\\u00");
    }
    if c == '"' {
        out.append("\\\"");
    } else if c == '\\' {
        out.append("\\\\");
    } else if c == '\u{8}' {
        out.append("\\b");
    } else if c == '\u{c}' {
        out.append("\\f");
    } else if c == '\n' {
        out.append("\\n");
    } else if c == '\r' {
        out.append("\\r");
    } else if c == '\t' {
        out.append("\\t");
    } else if (c as u32) < 0x20 {
        out.append("\\u00");
        let v = c as u32;
        out.append(crate::text::hex_digit_str((v / 16) as u8));
        out.append(crate::text::hex_digit_str((v % 16) as u8));
    } else {
        crate::foreign::string_push(out, c);
    }
}

/// Renders a string as a JSON string literal, escapes included.
pub fn json_string(s: &str) -> (r: String)
    ensures
        r@ == json_string_of(s@),
{
    proof {
        reveal_strlit("\"");
    }
    let mut out = String::from_str("\"");
    let n = s.unicode_len();
    for i in 0..n
        invariant
            out@ == seq!['"'] + escape_of(s@.take(i as int)),
    {
        let c = s.get_char(i);
        push_escaped_char(&mut out, c);
        proof {
            lemma_escape_of_snoc(s@.take(i as int), c);
            assert(s@.take(i as int).push(c) =~= s@.take(i + 1));
        }
    }
    proof {
        assert(s@.take(n as int) =~= s@);
    }
    out.append("\"");
    out
}

/// Escaping distributes over appending one character.
proof fn lemma_escape_of_snoc(s: Seq<char>, c: char)
    ensures
        escape_of(s.push(c)) == escape_of(s) + esc_char_of(c),
    decreases s.len(),
{
    if s.len() == 0 {
        assert(s.push(c).first() == c);
        assert(s.push(c).drop_first() =~= s);
        assert(escape_of(s.push(c)) == esc_char_of(c) + escape_of(s));
        assert(escape_of(s) =~= Seq::<char>::empty());
        assert(escape_of(s.push(c)) =~= escape_of(s) + esc_char_of(c));
    } else {
        assert(s.push(c).first() == s.first());
        assert(s.push(c).drop_first() =~= s.drop_first().push(c));
        lemma_escape_of_snoc(s.drop_first(), c);
        assert(escape_of(s.push(c)) == esc_char_of(s.first()) + escape_of(s.push(c).drop_first()));
        assert(escape_of(s.push(c).drop_first()) == escape_of(s.drop_first()) + esc_char_of(c));
        assert(escape_of(s) == esc_char_of(s.first()) + escape_of(s.drop_first()));
        assert(escape_of(s.push(c)) =~= escape_of(s) + esc_char_of(c));
    }
}

} // verus!
