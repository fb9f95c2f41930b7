use vstd::prelude::*;

verus! {

/// Relies on String::push: appends the given character to the end of the
/// string.
pub assume_specification[ String::push ](s: &mut String, ch: char)
    ensures
        final(s)@ == old(s)@ + seq![ch],
;

/// The character for one decimal digit.
pub open spec fn digit_char(d: int) -> char {
    ((48 + d) as u8) as char
}

/// The decimal notation of a non-negative number, most significant digit
/// first, without leading zeros (a lone zero for 0).
pub open spec fn dec_chars(n: int) -> Seq<char>
    decreases n,
{
    if n < 10 {
        seq![digit_char(n)]
    } else {
        dec_chars(n / 10) + seq![digit_char(n % 10)]
    }
}

/// Appends the decimal notation of `n`.
pub fn push_u32_decimal(out: &mut String, n: u32)
    ensures
        final(out)@ == old(out)@ + dec_chars(n as int),
    decreases n,
{
    if n >= 10 {
        push_u32_decimal(out, n / 10);
    }
    let d: u8 = 48 + (n % 10) as u8;
    out.push(d as char);
    proof {
        if n >= 10 {
            assert(old(out)@ + dec_chars((n / 10) as int) + seq![digit_char((n % 10) as int)]
                =~= old(out)@ + dec_chars(n as int));
        }
    }
}

} // verus!
