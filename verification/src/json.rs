//! Building JSON string literals for the request bodies the session sends.

use crate::utils::hex_digit_str;
use crate::utils::low_hex_digit;
use vstd::prelude::*;
use vstd::string::*;

verus! {

/// How one character is written inside a JSON string literal: quotes and
/// backslashes escaped, control characters as a four-digit escape.
pub open spec fn esc_char(c: char) -> Seq<char> {
    if c == '"' {
        seq!['\\', '"']
    } else if c == '\\' {
        seq!['\\', '\\']
    } else if (c as u32) < 32 {
        seq![
            '\\',
            'u',
            '0',
            '0',
            low_hex_digit((c as u32 / 16) as int),
            low_hex_digit((c as u32 % 16) as int),
        ]
    } else {
        seq![c]
    }
}

/// The body of a JSON string literal: each character escaped as needed.
pub open spec fn json_escaped(s: Seq<char>) -> Seq<char>
    decreases s.len(),
{
    if s.len() == 0 {
        Seq::empty()
    } else {
        json_escaped(s.drop_last()) + esc_char(s.last())
    }
}

/// A complete JSON string literal for the given text, quotes included.
pub open spec fn json_string(s: Seq<char>) -> Seq<char> {
    seq!['"'] + json_escaped(s) + seq!['"']
}

/// Appends the JSON string literal for `s`, quotes included.
pub fn append_json_string(out: &mut String, s: &str)
    ensures
        final(out)@ == old(out)@ + json_string(s@),
{
    proof {
        reveal_strlit("\"");
        reveal_strlit("\\\"");
        reveal_strlit("\\\\");
        reveal_strlit("\\u00");
    }
    out.append("\"");
    let n = s.unicode_len();
    let mut i: usize = 0;
    while i < n
        invariant
            n == s@.len(),
            i <= n,
            out@ == old(out)@ + seq!['"'] + json_escaped(s@.subrange(0, i as int)),
        decreases n - i,
    {
        proof {
            reveal_strlit("\"");
            reveal_strlit("\\\"");
            reveal_strlit("\\\\");
            reveal_strlit("\\u00");
        }
        let c = s.get_char(i);
        if c == '"' {
            out.append("\\\"");
        } else if c == '\\' {
            out.append("\\\\");
        } else if (c as u32) < 32 {
            out.append("\\u00");
            let v = c as u32;
            let hi = hex_digit_str((v / 16) as usize);
            let lo = hex_digit_str((v % 16) as usize);
            out.append(hi);
            out.append(lo);
        } else {
            let piece = s.substring_char(i, i + 1);
            out.append(piece);
            proof {
                assert(piece@ =~= seq![s@[i as int]]);
            }
        }
        proof {
            assert(s@.subrange(0, i + 1).drop_last() =~= s@.subrange(0, i as int));
            assert(s@.subrange(0, i + 1).last() == s@[i as int]);
            assert(out@ =~= old(out)@ + seq!['"'] + json_escaped(s@.subrange(0, i + 1)));
        }
        i = i + 1;
    }
    out.append("\"");
    proof {
        assert(s@.subrange(0, n as int) =~= s@);
        assert(out@ =~= old(out)@ + json_string(s@));
    }
}

} // verus!
