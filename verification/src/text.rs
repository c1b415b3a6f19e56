//! Hexadecimal text of identifiers.
use vstd::arithmetic::div_mod::lemma_div_denominator;
use vstd::arithmetic::power::{lemma_pow_positive, pow};
use vstd::prelude::*;

verus! {

/// The lower-case hexadecimal digit of a number below sixteen.
pub open spec fn hex_digit(n: int) -> char
    recommends
        0 <= n < 16,
{
    if n < 10 {
        (n + 48) as char
    } else {
        (n + 87) as char
    }
}

/// The last `width` hexadecimal digits of a number, most significant first.
pub open spec fn hex_text(n: int, width: nat) -> Seq<char>
    decreases width,
{
    if width == 0 {
        Seq::empty()
    } else {
        hex_text(n / 16, (width - 1) as nat).push(hex_digit(n % 16))
    }
}

/// Sixteen to the power of `width`: how many numbers have that many digits.
pub open spec fn hex_count(width: nat) -> int
    decreases width,
{
    if width == 0 {
        1
    } else {
        16 * hex_count((width - 1) as nat)
    }
}

/// Two numbers that fit into `width` digits have different text, unless they are equal.
pub proof fn hex_text_is_injective(m: int, n: int, width: nat)
    requires
        0 <= m < hex_count(width),
        0 <= n < hex_count(width),
        hex_text(m, width) == hex_text(n, width),
    ensures
        m == n,
    decreases width,
{
    if width > 0 {
        let rest = (width - 1) as nat;
        let a = hex_text(m, width);
        let b = hex_text(n, width);
        assert(a.drop_last() =~= hex_text(m / 16, rest));
        assert(b.drop_last() =~= hex_text(n / 16, rest));
        hex_text_is_injective(m / 16, n / 16, rest);
        assert(a.last() == hex_digit(m % 16));
        assert(b.last() == hex_digit(n % 16));
        assert(m % 16 == n % 16);
    }
}

/// The text has as many digits as asked for.
pub proof fn hex_text_length(n: int, width: nat)
    ensures
        hex_text(n, width).len() == width,
    decreases width,
{
    if width > 0 {
        hex_text_length(n / 16, (width - 1) as nat);
    }
}

/// The digit at each place is the one of the sixteen that stands for the number
/// of times that the place's power of sixteen is left in the number.
pub proof fn hex_digits_stand_in_their_place(n: int, width: nat, place: nat)
    requires
        n >= 0,
        place < width,
    ensures
        hex_text(n, width).len() == width,
        "0123456789abcdef"@.len() == 16,
        hex_text(n, width)[width - 1 - place] == "0123456789abcdef"@[(n / pow(16, place)) % 16],
    decreases width,
{
    hex_text_length(n, width);
    hex_text_length(n / 16, (width - 1) as nat);
    reveal_strlit("0123456789abcdef");
    reveal(pow);
    assert forall|d: int| 0 <= d < 16 implies #[trigger] hex_digit(d) == "0123456789abcdef"@[d] by {
    }
    if place == 0 {
        assert(pow(16, 0) == 1);
        assert(n / 1 == n);
        assert(hex_text(n, width).last() == hex_digit(n % 16));
    } else {
        let rest = (place - 1) as nat;
        hex_digits_stand_in_their_place(n / 16, (width - 1) as nat, rest);
        lemma_pow_positive(16, rest);
        assert(pow(16, place) == 16 * pow(16, rest));
        lemma_div_denominator(n, 16, pow(16, rest));
        assert(hex_text(n, width)[width - 1 - place] == hex_text(n / 16, (width - 1) as nat)[width
            - 1 - 1 - rest]);
    }
}

} // verus!
