//! Turning the decoder's output into frames of colours, and the audio
//! slicer's files into clips in playback order.

use crate::resource_pack::decimal_digits;
use crate::util::Colour;
use vstd::prelude::*;

verus! {

/// The pixels held in `bytes`, three bytes each in the order red, green,
/// blue.
pub open spec fn rgb24_pixels(bytes: Seq<u8>) -> Seq<Colour> {
    Seq::new(
        bytes.len() / 3,
        |i: int| Colour { r: bytes[3 * i], g: bytes[3 * i + 1], b: bytes[3 * i + 2] },
    )
}

/// Reads a packed RGB24 buffer as a row of pixels.
pub fn pixels_from_rgb24(bytes: &[u8]) -> (pixels: Vec<Colour>)
    requires
        bytes@.len() % 3 == 0,
    ensures
        pixels@ == rgb24_pixels(bytes@),
{
    let count: usize = bytes.len() / 3;
    let mut pixels: Vec<Colour> = Vec::with_capacity(count);
    let mut i: usize = 0;
    while i < count
        invariant
            i <= count,
            3 * count == bytes@.len(),
            bytes@.len() <= usize::MAX,
            pixels@.len() == i,
            forall|k: int| 0 <= k < i ==> #[trigger] pixels@[k] == rgb24_pixels(bytes@)[k],
        decreases count - i,
    {
        let chunk = &bytes[3 * i..3 * i + 3];
        pixels.push(Colour::from_slice(chunk));
        i += 1;
    }
    pixels
}

/// The number that a row of decimal digits spells.
pub open spec fn digits_value(digits: Seq<u8>) -> nat
    decreases digits.len(),
{
    if digits.len() == 0 {
        0
    } else {
        digits_value(digits.drop_last()) * 10 + (digits.last() - 48) as nat
    }
}

/// Every byte is a decimal digit.
pub open spec fn all_digits(digits: Seq<u8>) -> bool {
    forall|i: int| 0 <= i < digits.len() ==> 48 <= #[trigger] digits[i] <= 57
}

/// A clip file stem without its optional leading plus sign.
pub open spec fn stem_digits(stem: Seq<u8>) -> Seq<u8> {
    if stem.len() > 0 && stem[0] == 43 {
        stem.skip(1)
    } else {
        stem
    }
}

/// The clip number that a file stem spells: one or more decimal digits,
/// with or without a plus sign in front, that fit a `usize`.
pub open spec fn stem_number(stem: Seq<u8>) -> Option<usize> {
    let digits = stem_digits(stem);
    if digits.len() > 0 && all_digits(digits) && digits_value(digits) <= usize::MAX {
        Some(digits_value(digits) as usize)
    } else {
        None
    }
}

/// More digits never spell a smaller number.
proof fn lemma_prefix_value(digits: Seq<u8>, k: int)
    requires
        all_digits(digits),
        0 <= k <= digits.len(),
    ensures
        digits_value(digits.take(k)) <= digits_value(digits),
    decreases digits.len() - k,
{
    if k < digits.len() {
        lemma_prefix_value(digits, k + 1);
        assert(digits.take(k + 1).drop_last() == digits.take(k));
    } else {
        assert(digits.take(k) == digits);
    }
}

/// The decimal digits of a number spell that number, and start with no
/// plus sign.
pub proof fn lemma_digits_spell(n: nat)
    ensures
        decimal_digits(n).len() > 0,
        all_digits(decimal_digits(n)),
        digits_value(decimal_digits(n)) == n,
        stem_digits(decimal_digits(n)) == decimal_digits(n),
    decreases n,
{
    let digits = decimal_digits(n);
    if n < 10 {
        assert(digits_value(digits.drop_last()) == 0);
    } else {
        lemma_digits_spell(n / 10);
        assert(digits.drop_last() == decimal_digits(n / 10));
    }
}

/// A clip's number is read back from the name it was written under.
pub proof fn lemma_number_round_trip(n: usize)
    ensures
        stem_number(decimal_digits(n as nat)) == Some(n),
{
    lemma_digits_spell(n as nat);
}

/// Reads the clip number from a file stem. `None` unless the stem is a
/// decimal number that fits a `usize`.
pub fn clip_number(stem: &[u8]) -> (number: Option<usize>)
    ensures
        number == stem_number(stem@),
{
    let start: usize = if stem.len() > 0 && stem[0] == 43 {
        1
    } else {
        0
    };
    let ghost digits = stem_digits(stem@);
    if start == stem.len() {
        return None;
    }
    let mut value: usize = 0;
    let mut i: usize = start;
    while i < stem.len()
        invariant
            start <= i <= stem@.len(),
            digits == stem_digits(stem@),
            digits == stem@.skip(start as int),
            all_digits(digits.take(i - start)),
            value == digits_value(digits.take(i - start)),
        decreases stem@.len() - i,
    {
        let byte = stem[i];
        let ghost upto = digits.take(i - start + 1);
        proof {
            assert(upto.drop_last() == digits.take(i - start));
            assert(upto.last() == byte);
            assert(digits[i - start] == byte);
        }
        if byte < 48 || byte > 57 {
            return None;
        }
        let grown: Option<usize> = match value.checked_mul(10) {
            Some(scaled) => scaled.checked_add((byte - 48) as usize),
            None => None,
        };
        value = match grown {
            Some(sum) => sum,
            None => {
                proof {
                    // The digits read so far already spell too large a
                    // number, and the digits that follow only add to it.
                    if all_digits(digits) {
                        lemma_prefix_value(digits, i - start + 1);
                    }
                }
                return None;
            },
        };
        assert(all_digits(upto)) by {
            assert forall|k: int| 0 <= k < upto.len() implies 48 <= #[trigger] upto[k] <= 57 by {
                if k < upto.len() - 1 {
                    assert(upto[k] == digits.take(i - start)[k]);
                }
            }
        }
        i += 1;
    }
    assert(digits.take(i - start) == digits);
    Some(value)
}

/// The clip found at position `p` plays before the one found at position
/// `q`: lower numbers first, equal numbers in the order found.
pub open spec fn plays_before(numbers: Seq<usize>, p: int, q: int) -> bool {
    numbers[p] < numbers[q] || (numbers[p] == numbers[q] && p < q)
}

/// `order` lists every position of `numbers` once, each before all those
/// that play after it.
pub open spec fn is_playback_order(numbers: Seq<usize>, order: Seq<usize>) -> bool {
    &&& order.len() == numbers.len()
    &&& forall|i: int| 0 <= i < order.len() ==> #[trigger] order[i] < numbers.len()
    &&& forall|i: int, j: int|
        0 <= i < j < order.len() ==> plays_before(
            numbers,
            #[trigger] order[i] as int,
            #[trigger] order[j] as int,
        )
}

/// The order in which to play clips found with the given numbers: the
/// positions in `numbers`, sorted by number.
pub fn playback_order(numbers: &Vec<usize>) -> (order: Vec<usize>)
    ensures
        is_playback_order(numbers@, order@),
{
    let mut order: Vec<usize> = Vec::new();
    let mut p: usize = 0;
    while p < numbers.len()
        invariant
            p <= numbers@.len(),
            order@.len() == p,
            forall|i: int| 0 <= i < order@.len() ==> #[trigger] order@[i] < p,
            forall|i: int, j: int|
                0 <= i < j < order@.len() ==> plays_before(
                    numbers@,
                    #[trigger] order@[i] as int,
                    #[trigger] order@[j] as int,
                ),
        decreases numbers@.len() - p,
    {
        let mut at: usize = 0;
        while at < order.len() && numbers[order[at]] <= numbers[p]
            invariant
                at <= order@.len(),
                p < numbers@.len(),
                forall|i: int| 0 <= i < order@.len() ==> #[trigger] order@[i] < p,
                forall|i: int|
                    0 <= i < at ==> numbers@[#[trigger] order@[i] as int] <= numbers@[p as int],
            decreases order@.len() - at,
        {
            at += 1;
        }
        // Every position before `at` plays no later than `p`, and every
        // position from `at` on plays after it.
        order.insert(at, p);
        p += 1;
    }
    order
}

} // verus!
