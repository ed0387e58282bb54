//! What holds of the order of texts, of prefixes and of numerals.

use vstd::prelude::*;

use crate::text::{begins_with, decimal_text, digit_text, hex_text, precedes, signed_text};

verus! {

/// Whether two texts are the same up to a place, where the first ends or has the smaller
/// character.
pub open spec fn differs_at(a: Seq<char>, b: Seq<char>, k: int) -> bool {
    &&& 0 <= k <= a.len()
    &&& k < b.len()
    &&& forall|i: int| 0 <= i < k ==> (#[trigger] a[i]) == b[i]
    &&& k == a.len() || a[k] < b[k]
}

/// A text comes before another if and only if, where they first differ, it ends or has the
/// smaller character.
pub proof fn order_is_by_the_first_difference(a: Seq<char>, b: Seq<char>)
    ensures
        precedes(a, b) <==> exists|k: int| #[trigger] differs_at(a, b, k),
    decreases a.len(),
{
    if b.len() == 0 {
    } else if a.len() == 0 || a[0] != b[0] {
        if precedes(a, b) {
            assert(differs_at(a, b, 0));
        }
        if exists|k: int| #[trigger] differs_at(a, b, k) {
            let k = choose|k: int| #[trigger] differs_at(a, b, k);
            if k > 0 {
                assert(a[0] == b[0]);
            }
        }
    } else {
        let x = a.drop_first();
        let y = b.drop_first();
        order_is_by_the_first_difference(x, y);
        if precedes(x, y) {
            let k = choose|k: int| #[trigger] differs_at(x, y, k);
            assert forall|i: int| 0 <= i < k + 1 implies (#[trigger] a[i]) == b[i] by {
                if i > 0 {
                    assert(x[i - 1] == a[i] && y[i - 1] == b[i]);
                }
            }
            assert(differs_at(a, b, k + 1));
        }
        if exists|k: int| #[trigger] differs_at(a, b, k) {
            let k = choose|k: int| #[trigger] differs_at(a, b, k);
            assert(k > 0);
            assert forall|i: int| 0 <= i < k - 1 implies (#[trigger] x[i]) == y[i] by {
                assert(x[i] == a[i + 1] && y[i] == b[i + 1]);
            }
            assert(differs_at(x, y, k - 1));
        }
    }
}

/// A text begins with a prefix if and only if it is the prefix and something more, or
/// nothing.
pub proof fn prefixes_are_completed(s: Seq<char>, prefix: Seq<char>)
    ensures
        begins_with(s, prefix) <==> exists|rest: Seq<char>| s == #[trigger] (prefix + rest),
{
    if begins_with(s, prefix) {
        assert(s =~= prefix + s.skip(prefix.len() as int));
    }
    if exists|rest: Seq<char>| s == #[trigger] (prefix + rest) {
        let rest = choose|rest: Seq<char>| s == #[trigger] (prefix + rest);
        assert(s.take(prefix.len() as int) =~= prefix);
    }
}

/// The number that a character stands for as a digit, or -1.
pub open spec fn digit_value(c: char) -> int {
    if '0' <= c && c <= '9' {
        c as u32 - 48
    } else if 'a' <= c && c <= 'f' {
        c as u32 - 87
    } else {
        -1
    }
}

/// Whether a text is made of digits below a base.
pub open spec fn is_numeral(s: Seq<char>, base: int) -> bool {
    forall|i: int| 0 <= i < s.len() ==> 0 <= digit_value(#[trigger] s[i]) < base
}

/// The number that a text stands for as a numeral.
pub open spec fn numeral_value(s: Seq<char>, base: int) -> int
    decreases s.len(),
{
    if s.len() == 0 {
        0
    } else {
        numeral_value(s.drop_last(), base) * base + digit_value(s.last())
    }
}

/// Each digit stands for its number.
proof fn digits_stand_for_numbers(d: int)
    requires
        0 <= d < 16,
    ensures
        digit_text(d).len() == 1,
        digit_value(digit_text(d)[0]) == d,
{
    reveal_strlit("0");
    reveal_strlit("1");
    reveal_strlit("2");
    reveal_strlit("3");
    reveal_strlit("4");
    reveal_strlit("5");
    reveal_strlit("6");
    reveal_strlit("7");
    reveal_strlit("8");
    reveal_strlit("9");
    reveal_strlit("a");
    reveal_strlit("b");
    reveal_strlit("c");
    reveal_strlit("d");
    reveal_strlit("e");
    reveal_strlit("f");
}

/// One digit more at the end of a numeral.
proof fn one_digit_more(s: Seq<char>, d: int, base: int)
    requires
        0 <= d < base <= 16,
        is_numeral(s, base),
    ensures
        is_numeral(s + digit_text(d), base),
        numeral_value(s + digit_text(d), base) == numeral_value(s, base) * base + d,
{
    digits_stand_for_numbers(d);
    let t = s + digit_text(d);
    assert(t.drop_last() =~= s);
    assert(t.last() == digit_text(d)[0]);
    assert forall|i: int| 0 <= i < t.len() implies 0 <= digit_value(#[trigger] t[i]) < base by {
        if i < s.len() {
            assert(t[i] == s[i]);
        }
    }
}

/// A number in decimal notation is made of decimal digits, stands for that number, and does
/// not begin with a zero unless it is zero.
pub proof fn decimals_stand_for_numbers(n: nat)
    ensures
        decimal_text(n).len() > 0,
        is_numeral(decimal_text(n), 10),
        numeral_value(decimal_text(n), 10) == n,
        decimal_text(n)[0] == '0' ==> n == 0,
    decreases n,
{
    if n < 10 {
        let none = Seq::<char>::empty();
        one_digit_more(none, n as int, 10);
        digits_stand_for_numbers(n as int);
        assert(none + digit_text(n as int) =~= digit_text(n as int));
        assert(numeral_value(none, 10) == 0);
    } else {
        decimals_stand_for_numbers(n / 10);
        one_digit_more(decimal_text(n / 10), (n % 10) as int, 10);
        assert(decimal_text(n)[0] == decimal_text(n / 10)[0]);
    }
}

/// An integer in decimal notation is that of its amount, after a minus where it is negative.
pub proof fn signed_decimals_stand_for_numbers(n: int)
    ensures
        n >= 0 ==> is_numeral(signed_text(n), 10) && numeral_value(signed_text(n), 10) == n,
        n < 0 ==> signed_text(n).len() > 0 && signed_text(n)[0] == '-' && is_numeral(signed_text(n).drop_first(), 10)
            && numeral_value(signed_text(n).drop_first(), 10) == -n,
{
    if n < 0 {
        reveal_strlit("-");
        decimals_stand_for_numbers((-n) as nat);
        assert(signed_text(n).drop_first() =~= decimal_text((-n) as nat));
    } else {
        decimals_stand_for_numbers(n as nat);
    }
}

/// How many numbers so many hexadecimal digits can stand for.
pub open spec fn hex_range(digits: nat) -> int
    decreases digits,
{
    if digits == 0 {
        1
    } else {
        16 * hex_range((digits - 1) as nat)
    }
}

/// So many hexadecimal digits of a number that they can stand for are digits, as many as were
/// asked for, and stand for that number.
pub proof fn hex_digits_stand_for_numbers(n: nat, digits: nat)
    requires
        n < hex_range(digits),
    ensures
        hex_text(n, digits).len() == digits,
        is_numeral(hex_text(n, digits), 16),
        numeral_value(hex_text(n, digits), 16) == n,
    decreases digits,
{
    if digits > 0 {
        hex_digits_stand_for_numbers(n / 16, (digits - 1) as nat);
        digits_stand_for_numbers((n % 16) as int);
        one_digit_more(hex_text(n / 16, (digits - 1) as nat), (n % 16) as int, 16);
    }
}

} // verus!
