//! What built text says.

use vstd::prelude::*;
use vstd::utf8::*;

use crate::text;

verus! {

/// The number that a sequence of decimal digits stands for.
pub open spec fn value_of(digits: Seq<char>) -> int
    decreases digits.len(),
{
    if digits.len() == 0 {
        0
    } else {
        value_of(digits.drop_last()) * 10 + (digits.last() as int - '0' as int)
    }
}

/// The number that a decimal with an optional minus sign stands for.
pub open spec fn number_of(decimal: Seq<char>) -> int {
    if decimal.len() > 0 && decimal[0] == '-' {
        -value_of(decimal.skip(1))
    } else {
        value_of(decimal)
    }
}

/// Whether all characters are decimal digits and there is no leading zero to spare.
pub open spec fn is_plain(digits: Seq<char>) -> bool {
    &&& digits.len() > 0
    &&& forall|i: int| 0 <= i < digits.len() ==> '0' as int <= #[trigger] digits[i] as int <= '9' as int
    &&& digits.len() > 1 ==> digits[0] != '0'
}

proof fn lemma_digits(n: nat)
    ensures
        is_plain(text::digits(n)),
        value_of(text::digits(n)) == n,
        n > 0 ==> text::digits(n)[0] != '0',
    decreases n,
{
    let digits = text::digits(n);
    if n < 10 {
        assert(digits.drop_last() =~= Seq::empty());
        reveal_with_fuel(value_of, 2);
    } else {
        lemma_digits(n / 10);
        assert(digits.drop_last() =~= text::digits(n / 10));
    }
}

/// A decimal gives its number back. It has digits only, but for the minus sign of a
/// negative number, and no leading zeros.
pub proof fn decimals_give_the_number_back(i: int)
    ensures
        number_of(text::decimal(i)) == i,
        text::decimal(i).len() > 0,
        text::decimal(i)[0] == '-' <==> i < 0,
        is_plain(
            if i < 0 {
                text::decimal(i).skip(1)
            } else {
                text::decimal(i)
            },
        ),
{
    let decimal = text::decimal(i);
    if i < 0 {
        lemma_digits((-i) as nat);
        assert(decimal.skip(1) =~= text::digits((-i) as nat));
    } else {
        lemma_digits(i as nat);
        assert('0' as int <= decimal[0] as int);
    }
}

proof fn lemma_prefixes_take_less(chars: Seq<char>, n: int, m: int)
    requires
        0 <= n <= m <= chars.len(),
    ensures
        encode_utf8(chars.take(n)).len() <= encode_utf8(chars.take(m)).len(),
    decreases m,
{
    if n < m {
        lemma_prefixes_take_less(chars, n, m - 1);
        text::lemma_prefix_ends_at_boundary(chars, m);
    }
}

/// A clipped text is a prefix that fits, and no longer prefix does. A text that fits is
/// not clipped at all.
pub proof fn clipped_texts_are_as_long_as_fits(
    full: Seq<char>,
    limit: nat,
    part: Seq<char>,
    n: int,
)
    requires
        text::is_clipped(full, limit, part),
        0 <= n <= full.len(),
    ensures
        part.len() <= full.len(),
        part == full.take(part.len() as int),
        encode_utf8(part).len() <= limit,
        n > part.len() ==> encode_utf8(full.take(n)).len() > limit,
        encode_utf8(full).len() <= limit ==> part == full,
{
    assert(part =~= full.take(part.len() as int));
    assert(full.take(full.len() as int) =~= full);
    if n > part.len() {
        lemma_prefixes_take_less(full, part.len() as int + 1, n);
    }
    if part.len() < full.len() {
        lemma_prefixes_take_less(full, part.len() as int + 1, full.len() as int);
    }
}

} // verus!
