//! Small text-building helpers shared by the diagnostic messages and the
//! streaming decoder: appending single characters to a `String` and
//! rendering unsigned numbers in decimal.

use vstd::prelude::*;
use vstd::utf8::is_scalar;

verus! {

/// Relies on `String::push`: appends exactly the given character.
#[verifier::external_body]
pub fn string_push(s: &mut String, c: char)
    ensures
        final(s)@ == old(s)@.push(c),
{
    s.push(c);
}

/// Relies on `char::from_u32`: `Some` exactly on Unicode scalar values (not
/// a surrogate, at most 0x10FFFF), yielding the character with that value.
#[verifier::external_body]
pub fn char_from_u32(u: u32) -> (r: Option<char>)
    ensures
        is_scalar(u) ==> r == Some(u as char),
        !is_scalar(u) ==> r is None,
{
    char::from_u32(u)
}

/// The decimal digit character for a value below ten.
pub open spec fn decimal_digit(d: int) -> char
    recommends
        0 <= d < 10,
{
    ((0x30 + d) as u32) as char
}

/// The usual decimal rendering of a number: no sign, no leading zeros
/// (except for the number zero itself).
pub open spec fn decimal_rep(n: nat) -> Seq<char>
    decreases n,
{
    if n < 10 {
        seq![decimal_digit(n as int)]
    } else {
        decimal_rep(n / 10) + seq![decimal_digit((n % 10) as int)]
    }
}

fn digit_char(d: u64) -> (c: char)
    requires
        d < 10,
    ensures
        c == decimal_digit(d as int),
{
    let r = char_from_u32((0x30 + d) as u32);
    proof {
        assert(is_scalar((0x30 + d) as u32));
    }
    match r {
        Some(c) => c,
        None => {
            proof {
                assert(false);
            }
            ' '
        },
    }
}

/// Renders a number in decimal.
pub fn u64_to_string(n: u64) -> (s: String)
    ensures
        s@ == decimal_rep(n as nat),
    decreases n,
{
    let c = digit_char(n % 10);
    if n < 10 {
        let mut s = String::new();
        string_push(&mut s, c);
        proof {
            assert(s@ =~= decimal_rep(n as nat));
        }
        s
    } else {
        let mut s = u64_to_string(n / 10);
        string_push(&mut s, c);
        proof {
            assert(s@ =~= decimal_rep(n as nat));
        }
        s
    }
}

} // verus!
