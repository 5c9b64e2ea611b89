//! What holds of the text of numbers and of columns.

use crate::text::{decimal, digits, hex, left_aligned, repeated, right_aligned};
use vstd::prelude::*;

verus! {

/// A number reads back from its digits: each one stands for its value, the next
/// one to its left for `base` times as much, and there is no leading zero. So two
/// numbers never have the same digits.
pub proof fn law_digits_read_back(n: nat, base: nat)
    requires
        2 <= base <= 16,
    ensures
        digits(n, base).len() >= 1,
        digits(n, base).fold_left(
            0int,
            |value: int, c: char|
                value * base + if c as int <= 57 {
                    c as int - 48
                } else {
                    c as int - 87
                },
        ) == n,
        forall|i: int|
            0 <= i < digits(n, base).len() ==> {
                let c = #[trigger] digits(n, base)[i] as int;
                ||| 48 <= c <= 57 && c - 48 < base
                ||| 97 <= c <= 102 && c - 87 < base
            },
        digits(n, base).len() > 1 ==> digits(n, base)[0] != '0',
    decreases n,
{
    reveal_with_fuel(Seq::fold_left, 2);
    let value_of = |value: int, c: char|
        value * base + if c as int <= 57 {
            c as int - 48
        } else {
            c as int - 87
        };
    if n < base {
        assert(digits(n, base).drop_last() =~= Seq::<char>::empty());
        assert(0 * base == 0) by (nonlinear_arith);
    } else {
        assert(n / base < n && n % base < base && n == (n / base) * base + n % base && n / base
            > 0) by (nonlinear_arith)
            requires
                n >= base,
                base >= 2,
        ;
        law_digits_read_back(n / base, base);
        let before = digits(n / base, base);
        assert(digits(n, base).drop_last() =~= before);
        assert(before.fold_left(0int, value_of) == n / base);
        if before.len() == 1 {
            assert(before.drop_last() =~= Seq::<char>::empty());
            assert(0 * base == 0) by (nonlinear_arith);
            assert(before.fold_left(0int, value_of) == value_of(0, before[0]));
        }
    }
}

/// Copies are all the same character.
pub proof fn law_copies(c: char, count: nat, i: int)
    ensures
        repeated(c, count).len() == count,
        0 <= i < count ==> repeated(c, count)[i] == c,
{
}

/// A text in a column is at its right or left end, whole, and the rest of the
/// column is blank. A text that is too long makes the column wider.
pub proof fn law_text_keeps_its_end_of_the_column(s: Seq<char>, width: nat, i: int)
    ensures
        ({
            let right = right_aligned(s, width);
            let left = left_aligned(s, width);
            let blank = right.len() - s.len();
            &&& right.len() == left.len()
            &&& right.len() >= width && right.len() >= s.len()
            &&& right.len() == width || right.len() == s.len()
            &&& right.subrange(blank, right.len() as int) == s
            &&& left.subrange(0, s.len() as int) == s
            &&& 0 <= i < blank ==> right[i] == ' ' && left[s.len() + i] == ' '
        }),
{
    let right = right_aligned(s, width);
    let left = left_aligned(s, width);
    assert(right.subrange(right.len() - s.len(), right.len() as int) =~= s);
    assert(left.subrange(0, s.len() as int) =~= s);
}

/// A hexadecimal number is filled up with zeros to the width and not cut: behind
/// the zeros stand its digits. A decimal number is its digits.
pub proof fn law_numbers_are_filled_with_zeros(n: nat, width: nat, i: int)
    ensures
        ({
            let text = hex(n, width);
            let number = digits(n, 16);
            let zeros = text.len() - number.len();
            &&& text.len() >= width && zeros >= 0
            &&& text.len() == width || zeros == 0
            &&& text.subrange(zeros, text.len() as int) == number
            &&& 0 <= i < zeros ==> text[i] == '0'
        }),
        decimal(n) == digits(n, 10),
{
    let text = hex(n, width);
    assert(text.subrange(text.len() - digits(n, 16).len(), text.len() as int) =~= digits(n, 16));
}

} // verus!
