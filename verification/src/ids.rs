//! The written form of UUIDs.

use vstd::prelude::*;

use crate::outside::hex_digit;
use crate::text::join3;

verus! {

/// The last `digits` hexadecimal digits of a number.
pub open spec fn hex_digits(value: u128, digits: nat) -> Seq<char>
    decreases digits,
{
    if digits == 0 {
        Seq::empty()
    } else {
        hex_digits(value / 16, (digits - 1) as nat).push(hex_digit((value % 16) as int))
    }
}

/// A UUID as it is written: its 32 hexadecimal digits, in groups with dashes between them.
pub open spec fn uuid_shown(value: u128) -> Seq<char> {
    let h = hex_digits(value, 32);
    h.subrange(0, 8) + "-"@ + h.subrange(8, 12) + "-"@ + h.subrange(12, 16) + "-"@ + h.subrange(
        16,
        20,
    ) + "-"@ + h.subrange(20, 32)
}

fn hex_digits_text(value: u128, digits: u32) -> (r: String)
    ensures
        r@ == hex_digits(value, digits as nat),
        r@.len() == digits,
    decreases digits,
{
    if digits == 0 {
        let r = String::new();
        assert(r@ =~= Seq::empty());
        r
    } else {
        let mut out = hex_digits_text(value / 16, digits - 1);
        proof {
            reveal_strlit("0123456789abcdef");
        }
        let n: usize = (value % 16) as usize;
        let ghost before = out@;
        let last = "0123456789abcdef".substring_char(n, n + 1);
        out.append(last);
        assert(last@ =~= seq![hex_digit((value % 16) as int)]);
        assert(out@ =~= before.push(hex_digit((value % 16) as int)));
        out
    }
}

/// A UUID as it is written.
pub fn uuid_text(value: u128) -> (r: String)
    ensures
        r@ == uuid_shown(value),
{
    let digits = hex_digits_text(value, 32);
    let h = digits.as_str();
    let mut out = join3(h.substring_char(0, 8), "-", h.substring_char(8, 12));
    out.append("-");
    out.append(h.substring_char(12, 16));
    out.append("-");
    out.append(h.substring_char(16, 20));
    out.append("-");
    out.append(h.substring_char(20, 32));
    out
}

/// A UUID is written with 36 characters: 32 hexadecimal digits, and dashes behind the first 8, and
/// behind each 4 of the next 12.
pub proof fn uuids_are_written_in_groups(value: u128)
    ensures
        uuid_shown(value).len() == 36,
        uuid_shown(value)[8] == '-',
        uuid_shown(value)[13] == '-',
        uuid_shown(value)[18] == '-',
        uuid_shown(value)[23] == '-',
{
    reveal_strlit("-");
    lemma_hex_digits_len(value, 32);
}

/// Different UUIDs are written differently.
pub proof fn written_uuids_tell_them_apart(a: u128, b: u128)
    requires
        uuid_shown(a) == uuid_shown(b),
    ensures
        a == b,
{
    reveal_strlit("-");
    lemma_hex_digits_len(a, 32);
    lemma_hex_digits_len(b, 32);
    let x = hex_digits(a, 32);
    let y = hex_digits(b, 32);
    let s = uuid_shown(a);
    assert forall|i: int| 0 <= i < 32 implies x[i] == y[i] by {
        let at = if i < 8 {
            i
        } else if i < 12 {
            i + 1
        } else if i < 16 {
            i + 2
        } else if i < 20 {
            i + 3
        } else {
            i + 4
        };
        assert(uuid_shown(a)[at] == x[i]);
        assert(uuid_shown(b)[at] == y[i]);
    }
    assert(x =~= y);
    reveal_with_fuel(sixteen_to, 33);
    lemma_digits_tell_apart(a, b, 32);
}

spec fn sixteen_to(n: nat) -> nat
    decreases n,
{
    if n == 0 {
        1
    } else {
        16 * sixteen_to((n - 1) as nat)
    }
}

proof fn lemma_hex_digits_len(value: u128, digits: nat)
    ensures
        hex_digits(value, digits).len() == digits,
    decreases digits,
{
    if digits > 0 {
        lemma_hex_digits_len(value / 16, (digits - 1) as nat);
    }
}

proof fn lemma_digits_tell_apart(a: u128, b: u128, digits: nat)
    requires
        hex_digits(a, digits) == hex_digits(b, digits),
        a < sixteen_to(digits),
        b < sixteen_to(digits),
    ensures
        a == b,
    decreases digits,
{
    if digits > 0 {
        let n = (digits - 1) as nat;
        lemma_hex_digits_len(a / 16, n);
        lemma_hex_digits_len(b / 16, n);
        let x = hex_digits(a, digits);
        let y = hex_digits(b, digits);
        assert(x.drop_last() =~= hex_digits(a / 16, n));
        assert(y.drop_last() =~= hex_digits(b / 16, n));
        lemma_digits_tell_apart(a / 16, b / 16, n);
        assert(x.last() == hex_digit((a % 16) as int));
        assert(y.last() == hex_digit((b % 16) as int));
        lemma_one_digit_each((a % 16) as int, (b % 16) as int);
    }
}

proof fn lemma_one_digit_each(n: int, m: int)
    requires
        0 <= n < 16,
        0 <= m < 16,
        hex_digit(n) == hex_digit(m),
    ensures
        n == m,
{
    reveal_strlit("0123456789abcdef");
    assert(n == 0 || n == 1 || n == 2 || n == 3 || n == 4 || n == 5 || n == 6 || n == 7 || n == 8
        || n == 9 || n == 10 || n == 11 || n == 12 || n == 13 || n == 14 || n == 15);
    assert(m == 0 || m == 1 || m == 2 || m == 3 || m == 4 || m == 5 || m == 6 || m == 7 || m == 8
        || m == 9 || m == 10 || m == 11 || m == 12 || m == 13 || m == 14 || m == 15);
}

} // verus!
