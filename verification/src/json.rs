use vstd::prelude::*;

verus! {

/// The hexadecimal digit `d` as a lower-case character, for `d < 16`.
pub open spec fn hex_digit(d: nat) -> char {
    if d == 0 {
        '0'
    } else if d == 1 {
        '1'
    } else if d == 2 {
        '2'
    } else if d == 3 {
        '3'
    } else if d == 4 {
        '4'
    } else if d == 5 {
        '5'
    } else if d == 6 {
        '6'
    } else if d == 7 {
        '7'
    } else if d == 8 {
        '8'
    } else if d == 9 {
        '9'
    } else if d == 10 {
        'a'
    } else if d == 11 {
        'b'
    } else if d == 12 {
        'c'
    } else if d == 13 {
        'd'
    } else if d == 14 {
        'e'
    } else {
        'f'
    }
}

/// How one character appears inside a JSON string literal: quotes and
/// backslashes are escaped, the control characters with short escapes use
/// them, the remaining control characters use a `\u00..` escape, and every
/// other character stands for itself.
pub open spec fn escaped_char(c: char) -> Seq<char> {
    if c == '"' {
        seq!['\\', '"']
    } else if c == '\\' {
        seq!['\\', '\\']
    } else if c == '\u{0008}' {
        seq!['\\', 'b']
    } else if c == '\t' {
        seq!['\\', 't']
    } else if c == '\n' {
        seq!['\\', 'n']
    } else if c == '\u{000c}' {
        seq!['\\', 'f']
    } else if c == '\r' {
        seq!['\\', 'r']
    } else if (c as u32) < 0x20 {
        seq!['\\', 'u', '0', '0', hex_digit((c as u32 / 16) as nat), hex_digit((c as u32 % 16) as nat)]
    } else {
        seq![c]
    }
}

/// A whole string body, escaped character by character.
pub open spec fn escaped(s: Seq<char>) -> Seq<char>
    decreases s.len(),
{
    if s.len() == 0 {
        Seq::<char>::empty()
    } else {
        escaped(s.drop_last()) + escaped_char(s.last())
    }
}

/// `s` as a JSON string: escaped and surrounded by quotes.
pub open spec fn quoted(s: Seq<char>) -> Seq<char> {
    seq!['"'] + escaped(s) + seq!['"']
}

/// A JSON boolean.
pub open spec fn json_bool(b: bool) -> Seq<char> {
    if b {
        "true"@
    } else {
        "false"@
    }
}

fn hex_char(d: u32) -> (c: char)
    requires
        d < 16,
    ensures
        c == hex_digit(d as nat),
{
    if d == 0 {
        '0'
    } else if d == 1 {
        '1'
    } else if d == 2 {
        '2'
    } else if d == 3 {
        '3'
    } else if d == 4 {
        '4'
    } else if d == 5 {
        '5'
    } else if d == 6 {
        '6'
    } else if d == 7 {
        '7'
    } else if d == 8 {
        '8'
    } else if d == 9 {
        '9'
    } else if d == 10 {
        'a'
    } else if d == 11 {
        'b'
    } else if d == 12 {
        'c'
    } else if d == 13 {
        'd'
    } else if d == 14 {
        'e'
    } else {
        'f'
    }
}

/// Appends the escaped form of one character to `out`.
fn push_escaped_char(out: &mut String, c: char)
    ensures
        final(out)@ == old(out)@ + escaped_char(c),
{
    if c == '"' {
        out.append("\\\"");
        proof {
            reveal_strlit("\\\"");
            assert("\\\""@ =~= seq!['\\', '"']);
        }
    } else if c == '\\' {
        out.append("\\\\");
        proof {
            reveal_strlit("\\\\");
            assert("\\\\"@ =~= seq!['\\', '\\']);
        }
    } else if c == '\u{0008}' {
        out.append("\\b");
        proof {
            reveal_strlit("\\b");
            assert("\\b"@ =~= seq!['\\', 'b']);
        }
    } else if c == '\t' {
        out.append("\\t");
        proof {
            reveal_strlit("\\t");
            assert("\\t"@ =~= seq!['\\', 't']);
        }
    } else if c == '\n' {
        out.append("\\n");
        proof {
            reveal_strlit("\\n");
            assert("\\n"@ =~= seq!['\\', 'n']);
        }
    } else if c == '\u{000c}' {
        out.append("\\f");
        proof {
            reveal_strlit("\\f");
            assert("\\f"@ =~= seq!['\\', 'f']);
        }
    } else if c == '\r' {
        out.append("\\r");
        proof {
            reveal_strlit("\\r");
            assert("\\r"@ =~= seq!['\\', 'r']);
        }
    } else {
        let code = c as u32;
        if code < 0x20 {
            out.append("\\u00");
            out.push(hex_char(code / 16));
            out.push(hex_char(code % 16));
            proof {
                reveal_strlit("\\u00");
                assert("\\u00"@ =~= seq!['\\', 'u', '0', '0']);
                assert(final(out)@ =~= old(out)@ + escaped_char(c));
            }
        } else {
            out.push(c);
        }
    }
}

/// Renders `s` as a JSON string literal.
pub fn quoted_string(s: &str) -> (r: String)
    ensures
        r@ == quoted(s@),
{
    let mut out = String::new();
    out.append("\"");
    proof {
        reveal_strlit("\"");
        assert(out@ =~= seq!['"'] + escaped(s@.take(0)));
    }
    let n = s.unicode_len();
    let mut i: usize = 0;
    while i < n
        invariant
            i <= n,
            n == s@.len(),
            out@ == seq!['"'] + escaped(s@.take(i as int)),
        decreases n - i,
    {
        let c = s.get_char(i);
        push_escaped_char(&mut out, c);
        proof {
            assert(s@.take(i + 1).drop_last() =~= s@.take(i as int));
            assert(s@.take(i + 1).last() == s@[i as int]);
        }
        i = i + 1;
    }
    out.append("\"");
    proof {
        reveal_strlit("\"");
        assert(s@.take(n as int) =~= s@);
        assert(out@ =~= quoted(s@));
    }
    out
}

/// Renders a boolean as JSON text.
pub fn bool_text(b: bool) -> (r: &'static str)
    ensures
        r@ == json_bool(b),
{
    if b {
        "true"
    } else {
        "false"
    }
}

} // verus!
