//! The reading of the line typed at the confirmation prompt.
use vstd::prelude::*;

verus! {

/// Whether `c` has the Unicode `White_Space` property.
pub open spec fn is_white_space(c: char) -> bool {
    ||| ('\u{9}' <= c && c <= '\u{d}')
    ||| c == ' '
    ||| c == '\u{85}'
    ||| c == '\u{a0}'
    ||| c == '\u{1680}'
    ||| ('\u{2000}' <= c && c <= '\u{200a}')
    ||| c == '\u{2028}'
    ||| c == '\u{2029}'
    ||| c == '\u{202f}'
    ||| c == '\u{205f}'
    ||| c == '\u{3000}'
}

/// `s` without its leading white space.
pub open spec fn trim_start(s: Seq<char>) -> Seq<char>
    decreases s.len(),
{
    if s.len() > 0 && is_white_space(s[0]) {
        trim_start(s.drop_first())
    } else {
        s
    }
}

/// `s` without its trailing white space.
pub open spec fn trim_end(s: Seq<char>) -> Seq<char>
    decreases s.len(),
{
    if s.len() > 0 && is_white_space(s.last()) {
        trim_end(s.drop_last())
    } else {
        s
    }
}

/// `s` without the white space that surrounds it.
pub open spec fn trimmed(s: Seq<char>) -> Seq<char> {
    trim_end(trim_start(s))
}

/// `c` with an ASCII capital letter turned into its small letter.
pub open spec fn ascii_lower(c: char) -> char {
    if 'A' <= c && c <= 'Z' {
        ((c as u32) + 32) as char
    } else {
        c
    }
}

/// `s` with every ASCII capital letter turned into its small letter.
pub open spec fn ascii_lowered(s: Seq<char>) -> Seq<char> {
    s.map_values(|c: char| ascii_lower(c))
}

/// The answer that accepts: one `y` or `Y`, with any white space around it.
pub open spec fn accepts(line: Seq<char>) -> bool {
    trimmed(line) == seq!['y'] || trimmed(line) == seq!['Y']
}

/// Relies on `str::trim`: the slice of `s` without leading and trailing
/// characters that have the `White_Space` property.
#[verifier::external_body]
fn trim(s: &str) -> (r: &str)
    ensures
        r@ == trimmed(s@),
{
    s.trim()
}

/// Relies on `str::eq_ignore_ascii_case`: the two strings are equal once
/// their ASCII capital letters are made small.
#[verifier::external_body]
fn eq_ignore_ascii_case(a: &str, b: &str) -> (r: bool)
    ensures
        r == (ascii_lowered(a@) == ascii_lowered(b@)),
{
    a.eq_ignore_ascii_case(b)
}

/// Whether the line typed at the confirmation prompt is a yes: `y` or `Y`
/// once the surrounding white space is removed. Anything else, the empty
/// line included, is a no.
pub fn is_affirmative(line: &str) -> (r: bool)
    ensures
        r == accepts(line@),
{
    let t = trim(line);
    let r = eq_ignore_ascii_case(t, "y");
    proof {
        reveal_strlit("y");
        let l = ascii_lowered(t@);
        if r {
            assert(l.len() == 1);
            assert(l[0] == ascii_lower(t@[0]));
            assert(seq!['y'][0] == 'y');
            assert(t@ =~= seq!['y'] || t@ =~= seq!['Y']);
        }
        if t@ == seq!['y'] || t@ == seq!['Y'] {
            assert(ascii_lowered(t@) =~= ascii_lowered("y"@));
        }
    }
    r
}

} // verus!
