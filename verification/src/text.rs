//! Comparisons on string slices, stated over their character sequences.

use vstd::prelude::*;
use vstd::std_specs::iter::IteratorSpec;
use vstd::string::StringExecFns;

verus! {

/// Whether `prefix` is an initial segment of `text`.
pub open spec fn has_prefix(text: Seq<char>, prefix: Seq<char>) -> bool {
    prefix.len() <= text.len() && text.subrange(0, prefix.len() as int) == prefix
}

/// Tells whether `text` begins with `prefix`, character by character.
pub fn starts_with(text: &str, prefix: &str) -> (found: bool)
    ensures
        found == has_prefix(text@, prefix@),
{
    let mut rest = text.chars();
    let mut wanted = prefix.chars();
    let ghost mut seen: int = 0;
    loop
        invariant
            0 <= seen <= prefix@.len(),
            seen <= text@.len(),
            rest.remaining() == text@.subrange(seen, text@.len() as int),
            wanted.remaining() == prefix@.subrange(seen, prefix@.len() as int),
            text@.subrange(0, seen) == prefix@.subrange(0, seen),
        decreases prefix@.len() - seen,
    {
        match wanted.next() {
            None => {
                assert(prefix@.subrange(0, seen) == prefix@);
                return true;
            },
            Some(expected) => {
                match rest.next() {
                    None => {
                        return false;
                    },
                    Some(actual) => {
                        if actual != expected {
                            assert(has_prefix(text@, prefix@) ==> text@.subrange(
                                0,
                                prefix@.len() as int,
                            )[seen] == text@[seen]);
                            return false;
                        }
                        proof {
                            assert(text@.subrange(0, seen + 1) =~= text@.subrange(0, seen).push(actual));
                            assert(prefix@.subrange(0, seen + 1) =~= prefix@.subrange(0, seen).push(expected));
                            seen = seen + 1;
                        }
                    },
                }
            },
        }
    }
}

/// Tells whether two string slices hold the same characters.
pub fn same_text(left: &str, right: &str) -> (same: bool)
    ensures
        same == (left@ == right@),
{
    let mut a = left.chars();
    let mut b = right.chars();
    let ghost mut seen: int = 0;
    loop
        invariant
            0 <= seen <= left@.len(),
            seen <= right@.len(),
            a.remaining() == left@.subrange(seen, left@.len() as int),
            b.remaining() == right@.subrange(seen, right@.len() as int),
            left@.subrange(0, seen) == right@.subrange(0, seen),
        decreases left@.len() - seen,
    {
        match (a.next(), b.next()) {
            (None, None) => {
                assert(left@ == left@.subrange(0, seen));
                assert(right@ == right@.subrange(0, seen));
                return true;
            },
            (Some(x), Some(y)) => {
                if x != y {
                    assert(left@[seen] != right@[seen]);
                    return false;
                }
                proof {
                    assert(left@.subrange(0, seen + 1) =~= left@.subrange(0, seen).push(x));
                    assert(right@.subrange(0, seen + 1) =~= right@.subrange(0, seen).push(y));
                    seen = seen + 1;
                }
            },
            _ => {
                assert(left@.len() != right@.len());
                return false;
            },
        }
    }
}

/// The character that stands for a number below ten.
pub open spec fn digit(value: nat) -> Seq<char> {
    if value == 0 {
        "0"@
    } else if value == 1 {
        "1"@
    } else if value == 2 {
        "2"@
    } else if value == 3 {
        "3"@
    } else if value == 4 {
        "4"@
    } else if value == 5 {
        "5"@
    } else if value == 6 {
        "6"@
    } else if value == 7 {
        "7"@
    } else if value == 8 {
        "8"@
    } else {
        "9"@
    }
}

/// A number in decimal notation, without a sign and without leading zeros.
pub open spec fn decimal_text(value: nat) -> Seq<char>
    decreases value,
{
    if value < 10 {
        digit(value)
    } else {
        decimal_text(value / 10) + digit(value % 10)
    }
}

/// The character that stands for a number below ten.
fn digit_text(value: u32) -> (text: &'static str)
    requires
        value < 10,
    ensures
        text@ == digit(value as nat),
{
    if value == 0 {
        "0"
    } else if value == 1 {
        "1"
    } else if value == 2 {
        "2"
    } else if value == 3 {
        "3"
    } else if value == 4 {
        "4"
    } else if value == 5 {
        "5"
    } else if value == 6 {
        "6"
    } else if value == 7 {
        "7"
    } else if value == 8 {
        "8"
    } else {
        "9"
    }
}

/// Writes a number in decimal notation.
pub fn decimal(value: u32) -> (text: String)
    ensures
        text@ == decimal_text(value as nat),
    decreases value,
{
    if value < 10 {
        String::from_str(digit_text(value))
    } else {
        decimal(value / 10).concat(digit_text(value % 10))
    }
}

} // verus!
