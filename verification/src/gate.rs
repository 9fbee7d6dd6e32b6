//! The confirmation gate's decision: a DELETE proceeds only when the line
//! read from the operator, once trimmed of surrounding whitespace, begins
//! with `y` in either case. Reading the line itself is interactive input
//! and stays outside the library; a read failure is fatal there, never an
//! implicit decline.

use vstd::prelude::*;

verus! {

/// `c` counts as whitespace when the answer is trimmed: the Unicode
/// white-space characters, the set the standard library's trim removes.
pub open spec fn spec_is_space(c: char) -> bool {
    ||| c == '\u{0009}'
    ||| c == '\u{000A}'
    ||| c == '\u{000B}'
    ||| c == '\u{000C}'
    ||| c == '\u{000D}'
    ||| c == '\u{0020}'
    ||| c == '\u{0085}'
    ||| c == '\u{00A0}'
    ||| c == '\u{1680}'
    ||| ('\u{2000}' <= c && c <= '\u{200A}')
    ||| c == '\u{2028}'
    ||| c == '\u{2029}'
    ||| c == '\u{202F}'
    ||| c == '\u{205F}'
    ||| c == '\u{3000}'
}

/// Whether `c` counts as whitespace when the answer is trimmed.
fn is_space_char(c: char) -> (r: bool)
    ensures
        r == spec_is_space(c),
{
    c == '\u{0009}' || c == '\u{000A}' || c == '\u{000B}' || c == '\u{000C}' || c == '\u{000D}'
        || c == '\u{0020}' || c == '\u{0085}' || c == '\u{00A0}' || c == '\u{1680}' || ('\u{2000}'
        <= c && c <= '\u{200A}') || c == '\u{2028}' || c == '\u{2029}' || c == '\u{202F}' || c
        == '\u{205F}' || c == '\u{3000}'
}

/// `s` with its leading whitespace removed.
pub open spec fn spec_trim_start(s: Seq<char>) -> Seq<char>
    decreases s.len(),
{
    if s.len() > 0 && spec_is_space(s[0]) {
        spec_trim_start(s.drop_first())
    } else {
        s
    }
}

/// The answer counts as affirmative: trimmed of surrounding whitespace, it
/// begins with `y` or `Y`. Anything else — including an empty or
/// whitespace-only line — declines. Only leading whitespace can stand
/// before the first character, so trimming the start decides.
pub open spec fn spec_affirmative(s: Seq<char>) -> bool {
    spec_trim_start(s).len() > 0 && (spec_trim_start(s)[0] == 'y' || spec_trim_start(s)[0] == 'Y')
}

/// Decide the confirmation prompt's answer: proceed exactly when the
/// trimmed input begins with `y` or `Y`.
pub fn confirm_delete_response(input: &str) -> (r: bool)
    ensures
        r == spec_affirmative(input@),
{
    let n = input.unicode_len();
    let mut i: usize = 0;
    proof {
        assert(input@.skip(0) =~= input@);
    }
    while i < n
        invariant
            i <= n,
            n == input@.len(),
            spec_trim_start(input@) == spec_trim_start(input@.skip(i as int)),
        decreases n - i,
    {
        let c = input.get_char(i);
        if is_space_char(c) {
            proof {
                assert(input@.skip(i as int).drop_first() =~= input@.skip(i as int + 1));
            }
            i = i + 1;
        } else {
            proof {
                assert(spec_trim_start(input@.skip(i as int)) == input@.skip(i as int));
                assert(input@.skip(i as int)[0] == input@[i as int]);
            }
            return c == 'y' || c == 'Y';
        }
    }
    proof {
        assert(input@.skip(n as int) =~= Seq::<char>::empty());
    }
    false
}

/// The fixed line printed before the confirmation answer is read.
pub fn confirmation_prompt() -> (r: &'static str)
    ensures
        r@ == "Confirm deletion of the above listed records (y/n):"@,
{
    "Confirm deletion of the above listed records (y/n):"
}

} // verus!
