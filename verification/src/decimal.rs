//! Decimal digit strings: fixed-width rendering of unsigned values and
//! overflow-checked parsing, with the round-trip lemmas that the token
//! service and the one-time code generator rely on.

use vstd::prelude::*;

verus! {

/// `c` is one of the ASCII digits `'0'` through `'9'`.
pub open spec fn is_dec_digit(c: char) -> bool {
    48 <= c as u32 <= 57
}

/// Numeric value of an ASCII digit.
pub open spec fn digit_val(c: char) -> nat {
    (c as u32 - 48) as nat
}

/// The ASCII digit for a value below ten.
pub open spec fn digit_char(d: int) -> char {
    if d == 0 {
        '0'
    } else if d == 1 {
        '1'
    } else if d == 2 {
        '2'
    } else if d == 3 {
        '3'
    } else if d == 4 {
        '4'
    } else if d == 5 {
        '5'
    } else if d == 6 {
        '6'
    } else if d == 7 {
        '7'
    } else if d == 8 {
        '8'
    } else {
        '9'
    }
}

/// Every character of `s` is an ASCII digit.
pub open spec fn all_dec_digits(s: Seq<char>) -> bool {
    forall|i: int| 0 <= i < s.len() ==> is_dec_digit(#[trigger] s[i])
}

/// The value of a digit string read in base ten.
pub open spec fn dec_val(s: Seq<char>) -> nat
    decreases s.len(),
{
    if s.len() == 0 {
        0
    } else {
        dec_val(s.drop_last()) * 10 + digit_val(s.last())
    }
}

/// `n` rendered in base ten, zero-padded to exactly `width` digits
/// (truncated to the low `width` digits if it does not fit).
pub open spec fn dec_pad(n: nat, width: nat) -> Seq<char>
    decreases width,
{
    if width == 0 {
        Seq::empty()
    } else {
        dec_pad(n / 10, (width - 1) as nat).push(digit_char((n % 10) as int))
    }
}

/// Ten to the power `w`.
pub open spec fn pow10(w: nat) -> nat
    decreases w,
{
    if w == 0 {
        1
    } else {
        10 * pow10((w - 1) as nat)
    }
}

pub proof fn lemma_digit_char_val(d: int)
    requires
        0 <= d < 10,
    ensures
        is_dec_digit(digit_char(d)),
        digit_val(digit_char(d)) == d,
{
}

/// A fixed-width rendering has exactly `width` characters, all digits.
pub proof fn lemma_dec_pad_shape(n: nat, width: nat)
    ensures
        dec_pad(n, width).len() == width,
        all_dec_digits(dec_pad(n, width)),
    decreases width,
{
    if width > 0 {
        lemma_dec_pad_shape(n / 10, (width - 1) as nat);
        lemma_digit_char_val((n % 10) as int);
    }
}

/// Round trip: rendering a value that fits in `width` digits and reading
/// the digits back yields the value.
pub proof fn lemma_dec_pad_val(n: nat, width: nat)
    requires
        n < pow10(width),
    ensures
        dec_val(dec_pad(n, width)) == n,
    decreases width,
{
    if width == 0 {
    } else {
        assert(n / 10 < pow10((width - 1) as nat)) by {
            assert(pow10(width) == 10 * pow10((width - 1) as nat));
        }
        lemma_dec_pad_val(n / 10, (width - 1) as nat);
        lemma_dec_pad_shape(n / 10, (width - 1) as nat);
        lemma_digit_char_val((n % 10) as int);
        let s = dec_pad(n, width);
        assert(s.drop_last() =~= dec_pad(n / 10, (width - 1) as nat));
        assert(dec_val(s) == (n / 10) * 10 + n % 10);
    }
}

/// Reading more digits never shrinks the value.
pub proof fn lemma_dec_val_prefix(s: Seq<char>, i: int)
    requires
        0 <= i <= s.len(),
    ensures
        dec_val(s.subrange(0, i)) <= dec_val(s),
    decreases s.len(),
{
    if i == s.len() {
        assert(s.subrange(0, i) =~= s);
    } else {
        assert(s.drop_last().subrange(0, i) =~= s.subrange(0, i));
        lemma_dec_val_prefix(s.drop_last(), i);
        assert(dec_val(s.drop_last()) * 10 + digit_val(s.last()) >= dec_val(s.drop_last()));
    }
}

/// `pow10(20)` exceeds every `u64`, so 20 digits always suffice.
pub proof fn lemma_pow10_20_exceeds_u64()
    ensures
        pow10(20) > u64::MAX,
{
    reveal_with_fuel(pow10, 21);
}

/// Appends the low `d < 10` as one ASCII digit.
fn push_digit(out: &mut String, d: u8)
    requires
        d < 10,
    ensures
        final(out)@ == old(out)@ + seq![digit_char(d as int)],
{
    match d {
        0 => {
            out.append("0");
            proof {
                reveal_strlit("0");
                assert("0"@ =~= seq![digit_char(0)]);
            }
        },
        1 => {
            out.append("1");
            proof {
                reveal_strlit("1");
                assert("1"@ =~= seq![digit_char(1)]);
            }
        },
        2 => {
            out.append("2");
            proof {
                reveal_strlit("2");
                assert("2"@ =~= seq![digit_char(2)]);
            }
        },
        3 => {
            out.append("3");
            proof {
                reveal_strlit("3");
                assert("3"@ =~= seq![digit_char(3)]);
            }
        },
        4 => {
            out.append("4");
            proof {
                reveal_strlit("4");
                assert("4"@ =~= seq![digit_char(4)]);
            }
        },
        5 => {
            out.append("5");
            proof {
                reveal_strlit("5");
                assert("5"@ =~= seq![digit_char(5)]);
            }
        },
        6 => {
            out.append("6");
            proof {
                reveal_strlit("6");
                assert("6"@ =~= seq![digit_char(6)]);
            }
        },
        7 => {
            out.append("7");
            proof {
                reveal_strlit("7");
                assert("7"@ =~= seq![digit_char(7)]);
            }
        },
        8 => {
            out.append("8");
            proof {
                reveal_strlit("8");
                assert("8"@ =~= seq![digit_char(8)]);
            }
        },
        _ => {
            out.append("9");
            proof {
                reveal_strlit("9");
                assert("9"@ =~= seq![digit_char(9)]);
            }
        },
    }
}

/// Appends `n` rendered as exactly `width` decimal digits, zero-padded.
pub fn push_dec_pad(out: &mut String, n: u64, width: usize)
    ensures
        final(out)@ == old(out)@ + dec_pad(n as nat, width as nat),
    decreases width,
{
    if width == 0 {
        proof {
            assert(old(out)@ + dec_pad(n as nat, 0) =~= old(out)@);
        }
    } else {
        push_dec_pad(out, n / 10, width - 1);
        push_digit(out, (n % 10) as u8);
        proof {
            assert(old(out)@ + dec_pad((n / 10) as nat, (width - 1) as nat) + seq![
                digit_char((n % 10) as int),
            ] =~= old(out)@ + dec_pad(n as nat, width as nat));
        }
    }
}

/// Reads the characters of `s` between `from` and `to` as a base-ten
/// number. Returns the value exactly when every character there is an
/// ASCII digit and the value fits in a `u64`.
pub fn parse_dec_u64(s: &str, from: usize, to: usize) -> (r: Option<u64>)
    requires
        from <= to <= s@.len(),
    ensures
        match r {
            Some(n) => all_dec_digits(s@.subrange(from as int, to as int)) && n == dec_val(
                s@.subrange(from as int, to as int),
            ),
            None => !all_dec_digits(s@.subrange(from as int, to as int)) || dec_val(
                s@.subrange(from as int, to as int),
            ) > u64::MAX,
        },
{
    let ghost whole = s@.subrange(from as int, to as int);
    let mut acc: u64 = 0;
    let mut i: usize = from;
    while i < to
        invariant
            from <= i <= to <= s@.len(),
            whole == s@.subrange(from as int, to as int),
            all_dec_digits(s@.subrange(from as int, i as int)),
            acc == dec_val(s@.subrange(from as int, i as int)),
        decreases to - i,
    {
        let ghost prefix = s@.subrange(from as int, i as int);
        let c = s.get_char(i);
        let v = c as u32;
        proof {
            assert(whole[i - from] == c);
        }
        if v < 48 || v > 57 {
            return None;
        }
        let d = (v - 48) as u64;
        if acc > (u64::MAX - d) / 10 {
            proof {
                let step = s@.subrange(from as int, i as int + 1);
                assert(step.drop_last() =~= prefix);
                assert(dec_val(step) == acc * 10 + d);
                assert(acc * 10 + d > u64::MAX) by (nonlinear_arith)
                    requires
                        acc > (u64::MAX - d) / 10,
                        d < 10,
                        0 <= acc,
                ;
                assert(whole.subrange(0, i - from + 1) =~= step);
                lemma_dec_val_prefix(whole, i - from + 1);
            }
            return None;
        }
        proof {
            let step = s@.subrange(from as int, i as int + 1);
            assert(step.drop_last() =~= prefix);
            assert(acc * 10 + d <= u64::MAX) by (nonlinear_arith)
                requires
                    acc <= (u64::MAX - d) / 10,
                    d < 10,
                    0 <= acc,
            ;
        }
        acc = acc * 10 + d;
        i = i + 1;
    }
    proof {
        assert(s@.subrange(from as int, i as int) =~= whole);
    }
    Some(acc)
}

} // verus!
