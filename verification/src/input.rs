//! Interpretation of the answers collected at the input boundary.
//!
//! The boundary reads raw lines; these functions decide what a line means: a
//! yes/no answer, or a decimal integer exactly as the standard integer parser
//! accepts it (an optional sign, then one or more digits, within `i32`
//! range).

use vstd::prelude::*;

use vstd::string::StrSliceExecFns;

verus! {

/// The meaning of a yes/no answer: `y` is yes, `n` is no, anything else is
/// not an answer.
pub open spec fn bool_of_text(s: Seq<char>) -> Option<bool> {
    if s == "y"@ {
        Some(true)
    } else if s == "n"@ {
        Some(false)
    } else {
        None
    }
}

/// Whether `c` is a decimal digit.
pub open spec fn is_digit_char(c: char) -> bool {
    c == '0' || c == '1' || c == '2' || c == '3' || c == '4' || c == '5' || c == '6' || c == '7'
        || c == '8' || c == '9'
}

/// The numeric value of a digit character (meaningful when `is_digit_char`).
pub open spec fn digit_value(c: char) -> int {
    if c == '1' {
        1
    } else if c == '2' {
        2
    } else if c == '3' {
        3
    } else if c == '4' {
        4
    } else if c == '5' {
        5
    } else if c == '6' {
        6
    } else if c == '7' {
        7
    } else if c == '8' {
        8
    } else if c == '9' {
        9
    } else {
        0
    }
}

/// Whether every character of `s` is a decimal digit.
pub open spec fn all_digit_chars(s: Seq<char>) -> bool {
    forall|i: int| 0 <= i < s.len() ==> is_digit_char(#[trigger] s[i])
}

/// The value of a digit string read as a base-ten numeral.
pub open spec fn digits_value(s: Seq<char>) -> int
    decreases s.len(),
{
    if s.len() == 0 {
        0
    } else {
        digits_value(s.drop_last()) * 10 + digit_value(s.last())
    }
}

/// The meaning of a line as an `i32`: an optional `+` or `-`, then one or
/// more decimal digits, and a value within `i32` range; anything else does
/// not parse.
pub open spec fn i32_of_text(s: Seq<char>) -> Option<i32> {
    let signed = s.len() > 0 && (s[0] == '+' || s[0] == '-');
    let neg = s.len() > 0 && s[0] == '-';
    let ds = if signed {
        s.drop_first()
    } else {
        s
    };
    if ds.len() > 0 && all_digit_chars(ds) {
        let v = if neg {
            -digits_value(ds)
        } else {
            digits_value(ds)
        };
        if i32::MIN <= v <= i32::MAX {
            Some(v as i32)
        } else {
            None
        }
    } else {
        None
    }
}

proof fn lemma_digits_value_nonneg(s: Seq<char>)
    requires
        all_digit_chars(s),
    ensures
        digits_value(s) >= 0,
    decreases s.len(),
{
    if s.len() > 0 {
        assert(all_digit_chars(s.drop_last()));
        lemma_digits_value_nonneg(s.drop_last());
    }
}

proof fn lemma_digits_value_prefix_le(s: Seq<char>, i: int)
    requires
        0 <= i <= s.len(),
        all_digit_chars(s),
    ensures
        digits_value(s.subrange(0, i)) <= digits_value(s),
    decreases s.len() - i,
{
    if i < s.len() {
        lemma_digits_value_prefix_le(s, i + 1);
        assert(s.subrange(0, i + 1).drop_last() =~= s.subrange(0, i));
        assert(all_digit_chars(s.subrange(0, i)));
        lemma_digits_value_nonneg(s.subrange(0, i));
    } else {
        assert(s.subrange(0, i) =~= s);
    }
}

/// Decides a yes/no answer: `y` is yes, `n` is no, anything else is no
/// answer and must be asked again.
pub fn get_bool(input: &str) -> (r: Option<bool>)
    ensures
        r == bool_of_text(input@),
{
    proof {
        reveal_strlit("y");
        reveal_strlit("n");
    }
    if input.unicode_len() == 1 {
        let c = input.get_char(0);
        if c == 'y' {
            proof {
                assert(input@ =~= "y"@);
            }
            Some(true)
        } else if c == 'n' {
            proof {
                assert(input@ =~= "n"@);
            }
            Some(false)
        } else {
            None
        }
    } else {
        None
    }
}

/// Parses a line as an `i32`: an optional sign, then one or more decimal
/// digits, rejecting anything else and any value outside `i32` range.
pub fn get_i32(input: &str) -> (r: Option<i32>)
    ensures
        r == i32_of_text(input@),
{
    let n = input.unicode_len();
    if n == 0 {
        return None;
    }
    let first = input.get_char(0);
    let signed = first == '+' || first == '-';
    let neg = first == '-';
    let start: usize = if signed {
        1
    } else {
        0
    };
    if n == start {
        return None;
    }
    let ghost ds = if signed {
        input@.drop_first()
    } else {
        input@
    };
    proof {
        assert(ds =~= input@.subrange(start as int, n as int));
    }
    let mut acc: i64 = 0;
    let mut i: usize = start;
    while i < n
        invariant
            start <= i <= n,
            start < n,
            n == input@.len(),
            signed == (input@[0] == '+' || input@[0] == '-'),
            neg == (input@[0] == '-'),
            start == (if signed {
                1int
            } else {
                0int
            }),
            ds == (if signed {
                input@.drop_first()
            } else {
                input@
            }),
            ds == input@.subrange(start as int, n as int),
            forall|j: int| start <= j < i ==> is_digit_char(#[trigger] input@[j]),
            acc == digits_value(input@.subrange(start as int, i as int)),
            0 <= acc <= 2_147_483_648,
        decreases n - i,
    {
        let c = input.get_char(i);
        let d: i64 = if c == '0' {
            0
        } else if c == '1' {
            1
        } else if c == '2' {
            2
        } else if c == '3' {
            3
        } else if c == '4' {
            4
        } else if c == '5' {
            5
        } else if c == '6' {
            6
        } else if c == '7' {
            7
        } else if c == '8' {
            8
        } else if c == '9' {
            9
        } else {
            proof {
                assert(!is_digit_char(input@[i as int]));
                assert(ds[i - start] == input@[i as int]);
                assert(!all_digit_chars(ds));
            }
            return None;
        };
        proof {
            assert(input@.subrange(start as int, i + 1).drop_last() =~= input@.subrange(
                start as int,
                i as int,
            ));
        }
        acc = acc * 10 + d;
        if acc > 2_147_483_648 {
            proof {
                if all_digit_chars(ds) {
                    assert(input@.subrange(start as int, i + 1) =~= ds.subrange(
                        0,
                        i + 1 - start,
                    ));
                    lemma_digits_value_prefix_le(ds, i + 1 - start);
                }
            }
            return None;
        }
        i = i + 1;
    }
    proof {
        assert(input@.subrange(start as int, n as int) =~= ds);
        assert forall|j: int| 0 <= j < ds.len() implies is_digit_char(#[trigger] ds[j]) by {
            assert(ds[j] == input@[start + j]);
        }
    }
    if neg {
        let v = -acc;
        proof {
            assert(i32::MIN <= -digits_value(ds) <= i32::MAX) by {
                lemma_digits_value_nonneg(ds);
            }
        }
        Some(v as i32)
    } else {
        if acc > 2_147_483_647 {
            return None;
        }
        proof {
            lemma_digits_value_nonneg(ds);
        }
        Some(acc as i32)
    }
}

} // verus!
