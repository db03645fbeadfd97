//! Text fragments of the emitted assembly: decimal numerals, label
//! names and register operands.
//!
//! Each fragment has a specification-level form over character
//! sequences, and an executable builder proved to append exactly that
//! form.

use vstd::prelude::*;
use vstd::string::StringExecFns;

verus! {

broadcast use vstd::string::group_string_axioms;

/// Relies on String::push: appends the given character to the end of
/// the string.
pub assume_specification[ String::push ](s: &mut String, c: char)
    ensures
        final(s)@ == old(s)@ + seq![c],
;

/// The decimal digit character for `d`.
pub open spec fn digit_char(d: nat) -> char
    recommends
        d < 10,
{
    if d == 0 {
        '0'
    } else if d == 1 {
        '1'
    } else if d == 2 {
        '2'
    } else if d == 3 {
        '3'
    } else if d == 4 {
        '4'
    } else if d == 5 {
        '5'
    } else if d == 6 {
        '6'
    } else if d == 7 {
        '7'
    } else if d == 8 {
        '8'
    } else {
        '9'
    }
}

/// The decimal numeral of `n`, most significant digit first, without
/// leading zeros (the numeral of zero is "0").
pub open spec fn dec_digits(n: nat) -> Seq<char>
    decreases n,
{
    if n < 10 {
        seq![digit_char(n)]
    } else {
        dec_digits(n / 10).push(digit_char(n % 10))
    }
}

/// The decimal numeral of a signed value: a minus sign before the
/// numeral of the magnitude when negative.
pub open spec fn dec_signed(v: int) -> Seq<char> {
    if v < 0 {
        seq!['-'] + dec_digits((-v) as nat)
    } else {
        dec_digits(v as nat)
    }
}

/// The symbolic name of the label numbered `i`.
pub open spec fn label_chars(i: nat) -> Seq<char> {
    "label_"@ + dec_digits(i)
}

/// The operand text of a register: register 0 lives in the dedicated
/// host register `al`; every other register is a byte of the register
/// file, addressed through `reg`.
pub open spec fn operand_chars(r: u8) -> Seq<char> {
    if r == 0 {
        "al"@
    } else {
        "[reg + "@ + dec_digits(r as nat) + "]"@
    }
}

/// The operand text of a register as the sole destination of an
/// instruction with no register operand: a memory operand then carries
/// an explicit byte size, which the assembler requires to fix the
/// operation size.
pub open spec fn sized_operand_chars(r: u8) -> Seq<char> {
    if r == 0 {
        "al"@
    } else {
        "byte [reg + "@ + dec_digits(r as nat) + "]"@
    }
}

/// Appends the decimal numeral of `n`.
pub fn push_dec(out: &mut String, n: u64)
    ensures
        final(out)@ == old(out)@ + dec_digits(n as nat),
    decreases n,
{
    if n >= 10 {
        push_dec(out, n / 10);
    }
    let rem = n % 10;
    let digit: &str = if rem == 0 {
        "0"
    } else if rem == 1 {
        "1"
    } else if rem == 2 {
        "2"
    } else if rem == 3 {
        "3"
    } else if rem == 4 {
        "4"
    } else if rem == 5 {
        "5"
    } else if rem == 6 {
        "6"
    } else if rem == 7 {
        "7"
    } else if rem == 8 {
        "8"
    } else {
        "9"
    };
    proof {
        reveal_strlit("0");
        reveal_strlit("1");
        reveal_strlit("2");
        reveal_strlit("3");
        reveal_strlit("4");
        reveal_strlit("5");
        reveal_strlit("6");
        reveal_strlit("7");
        reveal_strlit("8");
        reveal_strlit("9");
        assert(digit@ =~= seq![digit_char((n % 10) as nat)]);
    }
    out.append(digit);
    proof {
        assert(out@ =~= old(out)@ + dec_digits(n as nat));
    }
}

/// Appends the decimal numeral of a signed 8-bit value.
pub fn push_dec_i8(out: &mut String, v: i8)
    ensures
        final(out)@ == old(out)@ + dec_signed(v as int),
{
    if v < 0 {
        out.append("-");
        let magnitude = -(v as i32);
        push_dec(out, magnitude as u64);
        proof {
            reveal_strlit("-");
            assert("-"@ =~= seq!['-']);
            assert(out@ =~= old(out)@ + dec_signed(v as int));
        }
    } else {
        push_dec(out, v as u64);
    }
}

/// Appends the symbolic name of the label numbered `i`.
pub fn push_label(out: &mut String, i: usize)
    ensures
        final(out)@ == old(out)@ + label_chars(i as nat),
{
    out.append("label_");
    push_dec(out, i as u64);
    proof {
        assert(out@ =~= old(out)@ + label_chars(i as nat));
    }
}

/// Appends the operand text of a register.
pub fn push_operand(out: &mut String, r: u8)
    ensures
        final(out)@ == old(out)@ + operand_chars(r),
{
    if r == 0 {
        out.append("al");
    } else {
        out.append("[reg + ");
        push_dec(out, r as u64);
        out.append("]");
        proof {
            assert(out@ =~= old(out)@ + operand_chars(r));
        }
    }
}

/// Appends the byte-sized operand text of a register.
pub fn push_sized_operand(out: &mut String, r: u8)
    ensures
        final(out)@ == old(out)@ + sized_operand_chars(r),
{
    if r == 0 {
        out.append("al");
    } else {
        out.append("byte [reg + ");
        push_dec(out, r as u64);
        out.append("]");
        proof {
            assert(out@ =~= old(out)@ + sized_operand_chars(r));
        }
    }
}

} // verus!
