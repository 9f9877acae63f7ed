//! Instants written as decimal numbers of seconds: the form in which an
//! expiration stands in a JSON document.

use crate::timestamp::{Timestamp, NANOS_PER_SEC};
use vstd::arithmetic::div_mod::{lemma_fundamental_div_mod_converse, lemma_mod_breakdown};
use vstd::arithmetic::overflow::CheckedU128;
use vstd::prelude::*;

verus! {

/// Whether `b` is an ASCII decimal digit.
pub open spec fn is_digit(b: u8) -> bool {
    0x30 <= b <= 0x39
}

/// Whether every byte of `s` is a decimal digit.
pub open spec fn all_digits(s: Seq<u8>) -> bool {
    forall|i: int| 0 <= i < s.len() ==> is_digit(#[trigger] s[i])
}

/// Ten to the power `n`.
pub open spec fn pow10(n: nat) -> nat
    decreases n,
{
    if n == 0 {
        1
    } else {
        10 * pow10((n - 1) as nat)
    }
}

/// The number that a string of decimal digits writes.
pub open spec fn digits_value(s: Seq<u8>) -> nat
    decreases s.len(),
{
    if s.len() == 0 {
        0
    } else {
        digits_value(s.drop_last()) * 10 + (s.last() - 0x30) as nat
    }
}

/// How many decimal digits stand in `s` from index `from` on without a break.
pub open spec fn digit_run(s: Seq<u8>, from: int) -> nat
    decreases s.len() - from,
{
    if 0 <= from < s.len() && is_digit(s[from]) {
        1 + digit_run(s, from + 1)
    } else {
        0
    }
}

/// A decimal number in scientific notation: the digits before the point,
/// those after it, and the power of ten that scales them.
pub struct Decimal {
    pub whole: Seq<u8>,
    pub fraction: Seq<u8>,
    pub exponent: int,
}

impl Decimal {
    /// The number times ten to the power `places`, without what then still
    /// stands after the point.
    pub open spec fn scaled(self, places: int) -> nat {
        let digits = digits_value(self.whole + self.fraction);
        let shift = self.exponent + places - self.fraction.len();
        if shift >= 0 {
            digits * pow10(shift as nat)
        } else {
            digits / pow10((-shift) as nat)
        }
    }
}

/// Whether `b` opens an exponent.
pub open spec fn is_exponent_mark(b: u8) -> bool {
    b == 0x65 || b == 0x45
}

/// Whether `b` is a sign.
pub open spec fn is_sign(b: u8) -> bool {
    b == 0x2b || b == 0x2d
}

/// The exponent that `text` ends with from index `from` on, where an
/// exponent mark stands: the mark, optionally a sign, and digits up to the
/// end of the text.
pub open spec fn exponent_at(text: Seq<u8>, from: int) -> Option<int> {
    let signed = from + 1 < text.len() && is_sign(text[from + 1]);
    let start = if signed {
        from + 2
    } else {
        from + 1
    };
    let run = digit_run(text, start) as int;
    if run == 0 || start + run != text.len() {
        None
    } else {
        let magnitude = digits_value(text.subrange(start, text.len() as int)) as int;
        if signed && text[from + 1] == 0x2d {
            Some(-magnitude)
        } else {
            Some(magnitude)
        }
    }
}

/// The decimal number that `text` writes: digits, then optionally a point
/// and more digits, then optionally an exponent. Any other text, such as one
/// with a sign in front, writes none.
pub open spec fn decimal_of_text(text: Seq<u8>) -> Option<Decimal> {
    let whole = digit_run(text, 0) as int;
    let pointed = whole < text.len() && text[whole] == 0x2e;
    let fraction = if pointed {
        digit_run(text, whole + 1) as int
    } else {
        0
    };
    let mantissa_end = if pointed {
        whole + 1 + fraction
    } else {
        whole
    };
    if whole == 0 || (pointed && fraction == 0) {
        None
    } else {
        let digits_before = text.subrange(0, whole);
        let digits_after = text.subrange(mantissa_end - fraction, mantissa_end);
        if mantissa_end == text.len() {
            Some(Decimal { whole: digits_before, fraction: digits_after, exponent: 0 })
        } else if is_exponent_mark(text[mantissa_end]) {
            match exponent_at(text, mantissa_end) {
                Some(exponent) => Some(
                    Decimal { whole: digits_before, fraction: digits_after, exponent },
                ),
                None => None,
            }
        } else {
            None
        }
    }
}

/// Whether `text` starts with a minus sign.
pub open spec fn is_negative(text: Seq<u8>) -> bool {
    text.len() > 0 && text[0] == 0x2d
}

/// What follows the minus sign of `text`, or all of it where it has none.
pub open spec fn unsigned_part(text: Seq<u8>) -> Seq<u8> {
    if is_negative(text) {
        text.skip(1)
    } else {
        text
    }
}

/// The nanoseconds since the epoch that `text` stands for, read as a decimal
/// number of seconds with or without a minus sign. Parts of a nanosecond are
/// dropped.
pub open spec fn nanos_of_text(text: Seq<u8>) -> Option<int> {
    match decimal_of_text(unsigned_part(text)) {
        Some(decimal) => Some(
            if is_negative(text) {
                -(decimal.scaled(9) as int)
            } else {
                decimal.scaled(9) as int
            },
        ),
        None => None,
    }
}

/// The decimal digits of `n`, without leading zeros.
pub open spec fn digits_of(n: nat) -> Seq<u8>
    decreases n,
{
    if n < 10 {
        seq![(0x30 + n) as u8]
    } else {
        digits_of(n / 10).push((0x30 + n % 10) as u8)
    }
}

/// The last `width` decimal digits of `n`, with leading zeros.
pub open spec fn fixed_digits(n: nat, width: nat) -> Seq<u8>
    decreases width,
{
    if width == 0 {
        Seq::empty()
    } else {
        fixed_digits(n / 10, (width - 1) as nat).push((0x30 + n % 10) as u8)
    }
}

/// The text that a count of nanoseconds is written as: its whole seconds, a
/// point, and nine digits of nanoseconds.
pub open spec fn text_of_count(count: nat) -> Seq<u8> {
    digits_of(count / NANOS_PER_SEC as nat) + seq![0x2eu8] + fixed_digits(
        count % NANOS_PER_SEC as nat,
        9,
    )
}

/// The text that an instant is written as: a minus sign where it lies before
/// the epoch, then its distance from the epoch.
pub open spec fn text_of_nanos(nanos: int) -> Seq<u8> {
    if nanos < 0 {
        seq![0x2du8] + text_of_count((-nanos) as nat)
    } else {
        text_of_count(nanos as nat)
    }
}

/// Whether `text` is a number written as an optional minus sign, a whole
/// part without a needless leading zero, a point, and at least one more
/// digit.
pub open spec fn plain_decimal(text: Seq<u8>) -> bool {
    plain_unsigned(unsigned_part(text))
}

/// Whether `text` is a number written as a whole part without a needless
/// leading zero, a point, and at least one more digit.
pub open spec fn plain_unsigned(text: Seq<u8>) -> bool {
    exists|point: int|
        {
            &&& 0 < point < text.len() - 1
            &&& #[trigger] text[point] == 0x2e
            &&& all_digits(text.subrange(0, point))
            &&& all_digits(text.subrange(point + 1, text.len() as int))
            &&& (text[0] == 0x30 ==> point == 1)
        }
}

/// Every byte within a run of digits is a digit, and the run ends at the end
/// of the text or before a byte that is none.
pub proof fn digit_run_holds_digits(s: Seq<u8>, from: int)
    requires
        0 <= from <= s.len(),
    ensures
        from + digit_run(s, from) <= s.len(),
        all_digits(s.subrange(from, from + digit_run(s, from))),
        from + digit_run(s, from) < s.len() ==> !is_digit(s[from + digit_run(s, from)]),
    decreases s.len() - from,
{
    if from < s.len() && is_digit(s[from]) {
        digit_run_holds_digits(s, from + 1);
        let run = digit_run(s, from) as int;
        assert forall|i: int| 0 <= i < run implies is_digit(
            #[trigger] s.subrange(from, from + run)[i],
        ) by {
            if i > 0 {
                assert(s.subrange(from, from + run)[i] == s.subrange(from + 1, from + run)[i - 1]);
            }
        }
    }
}

/// Digits that are followed by the end of the text, or by a byte that is no
/// digit, are one run.
pub proof fn digit_run_of_digits(s: Seq<u8>, from: int, to: int)
    requires
        0 <= from <= to <= s.len(),
        all_digits(s.subrange(from, to)),
        to < s.len() ==> !is_digit(s[to]),
    ensures
        digit_run(s, from) == to - from,
    decreases to - from,
{
    if from < to {
        assert(s[from] == s.subrange(from, to)[0]);
        assert forall|i: int| 0 <= i < to - from - 1 implies is_digit(
            #[trigger] s.subrange(from + 1, to)[i],
        ) by {
            assert(s.subrange(from + 1, to)[i] == s.subrange(from, to)[i + 1]);
        }
        digit_run_of_digits(s, from + 1, to);
    }
}

/// A power of ten is not zero, and a higher power is not less.
pub proof fn pow10_grows(low: nat, high: nat)
    requires
        low <= high,
    ensures
        0 < pow10(low) <= pow10(high),
    decreases high,
{
    if low < high {
        pow10_grows(low, (high - 1) as nat);
    } else if low > 0 {
        pow10_grows((low - 1) as nat, (high - 1) as nat);
    }
}

/// Digits written one string after the other write the first number, moved
/// left by the length of the second, plus the second.
pub proof fn digits_value_of_concat(a: Seq<u8>, b: Seq<u8>)
    ensures
        digits_value(a + b) == digits_value(a) * pow10(b.len()) + digits_value(b),
    decreases b.len(),
{
    if b.len() == 0 {
        assert(a + b =~= a);
        assert(digits_value(a) * 1 == digits_value(a));
    } else {
        let shorter = b.drop_last();
        digits_value_of_concat(a, shorter);
        assert((a + b).drop_last() =~= a + shorter);
        assert((a + b).last() == b.last());
        let high = digits_value(a);
        let scale = pow10(shorter.len());
        assert((high * scale + digits_value(shorter)) * 10 == high * (10 * scale) + digits_value(
            shorter,
        ) * 10) by (nonlinear_arith);
    }
}

/// A string of digits writes a number below ten to the power of its length.
pub proof fn digits_value_is_bounded(s: Seq<u8>)
    requires
        all_digits(s),
    ensures
        digits_value(s) < pow10(s.len()),
    decreases s.len(),
{
    if s.len() > 0 {
        let shorter = s.drop_last();
        assert forall|i: int| 0 <= i < shorter.len() implies is_digit(#[trigger] shorter[i]) by {
            assert(shorter[i] == s[i]);
        }
        digits_value_is_bounded(shorter);
        assert(is_digit(s[s.len() - 1]));
    }
}

/// Leaving out the last digits divides by a power of ten.
pub proof fn digits_value_of_prefix(s: Seq<u8>, keep: int)
    requires
        all_digits(s),
        0 <= keep <= s.len(),
    ensures
        digits_value(s.take(keep)) == digits_value(s) / pow10((s.len() - keep) as nat),
{
    let head = s.take(keep);
    let tail = s.skip(keep);
    assert(s =~= head + tail);
    digits_value_of_concat(head, tail);
    assert forall|i: int| 0 <= i < tail.len() implies is_digit(#[trigger] tail[i]) by {
        assert(tail[i] == s[keep + i]);
    }
    digits_value_is_bounded(tail);
    let scale = pow10(tail.len());
    lemma_fundamental_div_mod_converse(
        digits_value(s) as int,
        scale as int,
        digits_value(head) as int,
        digits_value(tail) as int,
    );
}

/// Where the digits stop, counted from `from`.
fn scan_digits(text: &[u8], from: usize) -> (end: usize)
    requires
        from <= text.len(),
    ensures
        end == from + digit_run(text@, from as int),
        end <= text.len(),
        all_digits(text@.subrange(from as int, end as int)),
        end < text.len() ==> !is_digit(text@[end as int]),
{
    let mut end: usize = from;
    while end < text.len() && 0x30 <= text[end] && text[end] <= 0x39
        invariant
            from <= end <= text.len(),
            digit_run(text@, from as int) == (end - from) + digit_run(text@, end as int),
        decreases text.len() - end,
    {
        end = end + 1;
    }
    proof {
        digit_run_holds_digits(text@, from as int);
    }
    end
}

/// The number that `value` becomes when the digits of `text` from `from` up
/// to `to` are written after it.
fn read_digits_onto(value: CheckedU128, text: &[u8], from: usize, to: usize) -> (read: CheckedU128)
    requires
        from <= to <= text.len(),
        all_digits(text@.subrange(from as int, to as int)),
    ensures
        read@ == value@ * pow10((to - from) as nat) + digits_value(
            text@.subrange(from as int, to as int),
        ),
{
    let ghost start = value@;
    let mut read = value;
    let mut at: usize = from;
    assert(start * pow10(0) == start) by (nonlinear_arith)
        requires
            pow10(0) == 1,
    ;
    assert(text@.subrange(from as int, from as int) =~= Seq::<u8>::empty());
    while at < to
        invariant
            from <= at <= to <= text.len(),
            all_digits(text@.subrange(from as int, to as int)),
            read@ == start * pow10((at - from) as nat) + digits_value(
                text@.subrange(from as int, at as int),
            ),
        decreases to - at,
    {
        proof {
            let next = text@.subrange(from as int, at + 1);
            let seen = digits_value(text@.subrange(from as int, at as int));
            let scale = pow10((at - from) as nat);
            assert(next.drop_last() =~= text@.subrange(from as int, at as int));
            assert(next.last() == text@[at as int]);
            assert(text@[at as int] == text@.subrange(from as int, to as int)[at - from]);
            assert((start * scale + seen) * 10 == start * (10 * scale) + seen * 10)
                by (nonlinear_arith);
        }
        let digit: u8 = text[at] - 0x30;
        read = read.mul_value(10).add_value(digit as u128);
        at = at + 1;
    }
    read
}

/// The number written by the first `keep` digits of a number's digits, which
/// stand in `text` before `whole_end` and from `fraction_start` up to
/// `fraction_end`.
fn read_leading_digits(
    text: &[u8],
    whole_end: usize,
    fraction_start: usize,
    fraction_end: usize,
    keep: usize,
) -> (read: CheckedU128)
    requires
        whole_end <= fraction_start <= fraction_end <= text.len(),
        all_digits(text@.subrange(0, whole_end as int)),
        all_digits(text@.subrange(fraction_start as int, fraction_end as int)),
        keep <= whole_end + (fraction_end - fraction_start),
    ensures
        read@ == digits_value(
            (text@.subrange(0, whole_end as int) + text@.subrange(
                fraction_start as int,
                fraction_end as int,
            )).take(keep as int),
        ),
{
    let ghost whole = text@.subrange(0, whole_end as int);
    let ghost fraction = text@.subrange(fraction_start as int, fraction_end as int);
    if keep <= whole_end {
        proof {
            assert((whole + fraction).take(keep as int) =~= text@.subrange(0, keep as int));
            assert forall|i: int| 0 <= i < keep implies is_digit(
                #[trigger] text@.subrange(0, keep as int)[i],
            ) by {
                assert(text@.subrange(0, keep as int)[i] == whole[i]);
            }
            assert(0 * pow10(keep as nat) == 0);
        }
        read_digits_onto(CheckedU128::new(0), text, 0, keep)
    } else {
        let more: usize = keep - whole_end;
        proof {
            let part = text@.subrange(fraction_start as int, fraction_start + more);
            assert((whole + fraction).take(keep as int) =~= whole + part);
            assert forall|i: int| 0 <= i < more implies is_digit(#[trigger] part[i]) by {
                assert(part[i] == fraction[i]);
            }
            digits_value_of_concat(whole, part);
            assert(0 * pow10(whole_end as nat) == 0);
        }
        let before = read_digits_onto(CheckedU128::new(0), text, 0, whole_end);
        read_digits_onto(before, text, fraction_start, fraction_start + more)
    }
}

/// The largest number of places by which a number that is not zero can be
/// moved left and still be held.
const MAX_PLACES: u128 = 38;

/// `value` times ten to the power `places`, or `None` where that is too
/// large to be held.
fn move_left(value: CheckedU128, places: u128) -> (moved: Option<u128>)
    ensures
        match moved {
            Some(n) => n == value@ * pow10(places as nat),
            None => value@ * pow10(places as nat) > u128::MAX,
        },
{
    proof {
        pow10_grows(0, places as nat);
    }
    let digits = match value.to_option() {
        Some(digits) => digits,
        None => {
            assert(value@ * pow10(places as nat) >= value@) by (nonlinear_arith)
                requires
                    pow10(places as nat) >= 1,
            ;
            return None;
        },
    };
    if digits == 0 {
        assert(0 * pow10(places as nat) == 0);
        return Some(0);
    }
    if places > MAX_PLACES {
        proof {
            pow10_grows(39, places as nat);
            assert(pow10(39) > u128::MAX) by {
                reveal_with_fuel(pow10, 40);
            }
            assert(digits * pow10(places as nat) >= pow10(places as nat)) by (nonlinear_arith)
                requires
                    digits >= 1,
            ;
        }
        return None;
    }
    let mut moved = CheckedU128::new(digits);
    let mut done: u128 = 0;
    assert(digits * pow10(0) == digits) by (nonlinear_arith)
        requires
            pow10(0) == 1,
    ;
    while done < places
        invariant
            done <= places <= MAX_PLACES,
            moved@ == digits * pow10(done as nat),
        decreases places - done,
    {
        proof {
            assert(digits * pow10(done as nat) * 10 == digits * pow10((done + 1) as nat))
                by (nonlinear_arith)
                requires
                    pow10((done + 1) as nat) == 10 * pow10(done as nat),
            ;
        }
        moved = moved.mul_value(10);
        done = done + 1;
    }
    moved.to_option()
}

/// The exponent that `text` ends with from the exponent mark at `from` on:
/// whether it is negative, and its size, which may be too large to be held.
fn read_exponent(text: &[u8], from: usize) -> (r: Option<(bool, CheckedU128)>)
    requires
        from < text.len(),
    ensures
        match r {
            Some((negative, size)) => exponent_at(text@, from as int) == Some(
                if negative {
                    -(size@ as int)
                } else {
                    size@ as int
                },
            ),
            None => exponent_at(text@, from as int) is None,
        },
{
    let signed = from + 1 < text.len() && (text[from + 1] == 0x2b || text[from + 1] == 0x2d);
    let start: usize = if signed {
        from + 2
    } else {
        from + 1
    };
    let end = scan_digits(text, start);
    if end == start || end != text.len() {
        return None;
    }
    proof {
        assert(0 * pow10((end - start) as nat) == 0);
    }
    let size = read_digits_onto(CheckedU128::new(0), text, start, end);
    Some((signed && text[from + 1] == 0x2d, size))
}

/// Where the parts of a number stand in its text.
struct Layout {
    /// The digits before the point stand before this index.
    whole_end: usize,
    /// The digits after the point start here.
    fraction_start: usize,
    /// The digits after the point end before this index.
    fraction_end: usize,
    /// Whether the exponent is negative.
    negative: bool,
    /// The size of the exponent.
    size: CheckedU128,
}

impl Layout {
    /// The number that is laid out so in `text`.
    spec fn decimal(self, text: Seq<u8>) -> Decimal {
        Decimal {
            whole: text.subrange(0, self.whole_end as int),
            fraction: text.subrange(self.fraction_start as int, self.fraction_end as int),
            exponent: if self.negative {
                -(self.size@ as int)
            } else {
                self.size@ as int
            },
        }
    }

    /// Whether the layout fits `text`.
    spec fn fits(self, text: Seq<u8>) -> bool {
        &&& self.whole_end <= self.fraction_start <= self.fraction_end <= text.len()
        &&& all_digits(text.subrange(0, self.whole_end as int))
        &&& all_digits(text.subrange(self.fraction_start as int, self.fraction_end as int))
    }
}

/// Finds the parts of the number that `text` writes.
fn lay_out(text: &[u8]) -> (r: Option<Layout>)
    ensures
        match r {
            Some(layout) => layout.fits(text@) && decimal_of_text(text@) == Some(
                layout.decimal(text@),
            ),
            None => decimal_of_text(text@) is None,
        },
{
    let whole_end = scan_digits(text, 0);
    if whole_end == 0 {
        return None;
    }
    let pointed = whole_end < text.len() && text[whole_end] == 0x2e;
    let fraction_start: usize = if pointed {
        whole_end + 1
    } else {
        whole_end
    };
    let fraction_end = if pointed {
        scan_digits(text, fraction_start)
    } else {
        whole_end
    };
    if pointed && fraction_end == fraction_start {
        return None;
    }
    proof {
        if !pointed {
            assert(text@.subrange(fraction_start as int, fraction_end as int) =~= Seq::<
                u8,
            >::empty());
        }
    }
    if fraction_end == text.len() {
        Some(
            Layout {
                whole_end,
                fraction_start,
                fraction_end,
                negative: false,
                size: CheckedU128::new(0),
            },
        )
    } else if text[fraction_end] == 0x65 || text[fraction_end] == 0x45 {
        match read_exponent(text, fraction_end) {
            Some((negative, size)) => Some(
                Layout { whole_end, fraction_start, fraction_end, negative, size },
            ),
            None => None,
        }
    } else {
        None
    }
}

/// By how many places the digits of a number move when it is scaled.
enum Shift {
    /// To the left, by so many places.
    Left(u128),
    /// To the left, by more places than anything but zero can bear.
    FarLeft,
    /// To the right, by so many places, which fall away.
    Right(u128),
    /// To the right, by more places than can be counted.
    FarRight,
}

impl Shift {
    /// Whether this is a move by `places`, to the left where that is
    /// positive.
    spec fn is_move_by(self, places: int) -> bool {
        match self {
            Shift::Left(by) => places == by,
            Shift::FarLeft => places >= 39,
            Shift::Right(by) => -places == by && by > 0,
            Shift::FarRight => -places > u128::MAX - 9,
        }
    }
}

/// The move that scales a number with `after` digits after the point and the
/// given exponent by nine places.
fn shift_of(negative: bool, size: &CheckedU128, after: usize) -> (shift: Shift)
    ensures
        shift.is_move_by(
            (if negative {
                -(size@ as int)
            } else {
                size@ as int
            }) + 9 - after,
        ),
{
    if negative {
        match size.add_value(after as u128).to_option() {
            None => Shift::FarRight,
            Some(right) => if right <= 9 {
                Shift::Left(9 - right)
            } else {
                Shift::Right(right - 9)
            },
        }
    } else {
        match size.add_value(9).to_option() {
            None => Shift::FarLeft,
            Some(left) => if left >= after as u128 {
                Shift::Left(left - after as u128)
            } else {
                Shift::Right(after as u128 - left)
            },
        }
    }
}

/// The digits of a laid out number are digits.
proof fn layout_holds_digits(layout: Layout, text: Seq<u8>)
    requires
        layout.fits(text),
    ensures
        all_digits(layout.decimal(text).whole + layout.decimal(text).fraction),
{
    let decimal = layout.decimal(text);
    let digits = decimal.whole + decimal.fraction;
    assert forall|i: int| 0 <= i < digits.len() implies is_digit(#[trigger] digits[i]) by {
        if i < decimal.whole.len() {
            assert(digits[i] == decimal.whole[i]);
        } else {
            assert(digits[i] == decimal.fraction[i - decimal.whole.len()]);
        }
    }
}

/// What is not zero is too large to be held once it is moved left by 39
/// places or more, and zero stays zero.
proof fn far_left_is_too_large(value: nat, places: nat)
    requires
        places >= 39,
    ensures
        value == 0 ==> value * pow10(places) == 0,
        value > 0 ==> value * pow10(places) > u128::MAX,
{
    pow10_grows(39, places);
    assert(pow10(39) > u128::MAX) by {
        reveal_with_fuel(pow10, 40);
    }
    if value == 0 {
        assert(0 * pow10(places) == 0);
    } else {
        assert(value * pow10(places) >= pow10(places)) by (nonlinear_arith)
            requires
                value >= 1,
        ;
    }
}

/// Digits that are all moved to the right of the point leave nothing.
proof fn far_right_is_zero(digits: Seq<u8>, places: nat)
    requires
        all_digits(digits),
        places >= digits.len(),
    ensures
        digits_value(digits) / pow10(places) == 0,
{
    digits_value_is_bounded(digits);
    pow10_grows(digits.len(), places);
    vstd::arithmetic::div_mod::lemma_basic_div(
        digits_value(digits) as int,
        pow10(places) as int,
    );
}

/// The nanoseconds of a laid out number of seconds, or `None` where they are
/// too many to be held.
fn scale_to_nanos(text: &[u8], layout: Layout) -> (nanos: Option<u128>)
    requires
        layout.fits(text@),
    ensures
        match nanos {
            Some(n) => n == layout.decimal(text@).scaled(9),
            None => layout.decimal(text@).scaled(9) > u128::MAX,
        },
{
    let ghost decimal = layout.decimal(text@);
    let ghost digits = decimal.whole + decimal.fraction;
    let ghost places = decimal.exponent + 9 - decimal.fraction.len();
    let after: usize = layout.fraction_end - layout.fraction_start;
    let count: usize = layout.whole_end + after;
    proof {
        layout_holds_digits(layout, text@);
        assert(digits.take(count as int) =~= digits);
    }
    match shift_of(layout.negative, &layout.size, after) {
        Shift::Left(by) => {
            let all = read_leading_digits(
                text,
                layout.whole_end,
                layout.fraction_start,
                layout.fraction_end,
                count,
            );
            move_left(all, by)
        },
        Shift::FarLeft => {
            let all = read_leading_digits(
                text,
                layout.whole_end,
                layout.fraction_start,
                layout.fraction_end,
                count,
            );
            proof {
                far_left_is_too_large(digits_value(digits), places as nat);
                far_left_is_too_large(digits_value(digits), 39);
            }
            move_left(all, 39)
        },
        Shift::Right(by) => if by >= count as u128 {
            proof {
                far_right_is_zero(digits, by as nat);
            }
            Some(0)
        } else {
            let keep: usize = count - by as usize;
            proof {
                digits_value_of_prefix(digits, keep as int);
            }
            read_leading_digits(
                text,
                layout.whole_end,
                layout.fraction_start,
                layout.fraction_end,
                keep,
            ).to_option()
        },
        Shift::FarRight => {
            proof {
                far_right_is_zero(digits, (-places) as nat);
            }
            Some(0)
        },
    }
}

/// The instant that lies `count` nanoseconds from the epoch, before it where
/// `negative` is set: `None` where that is too far to be held.
fn instant_at(negative: bool, count: u128) -> (r: Option<Timestamp>)
    ensures
        match r {
            Some(t) => t@ == (if negative {
                -(count as int)
            } else {
                count as int
            }) && i128::MIN <= t@ <= i128::MAX,
            None => if negative {
                -(count as int) < i128::MIN
            } else {
                count > i128::MAX
            },
        },
{
    if count <= i128::MAX as u128 {
        let nanos: i128 = count as i128;
        if negative {
            Some(Timestamp::from_nanos(-nanos))
        } else {
            Some(Timestamp::from_nanos(nanos))
        }
    } else if negative && count - 1 == i128::MAX as u128 {
        Some(Timestamp::from_nanos(i128::MIN))
    } else {
        None
    }
}

/// Reads an instant from its decimal text: `None` where the text stands for
/// no instant, or for one too far from the epoch to be held.
pub fn parse_timestamp(text: &[u8]) -> (r: Option<Timestamp>)
    ensures
        match nanos_of_text(text@) {
            Some(nanos) => if i128::MIN <= nanos <= i128::MAX {
                r matches Some(t) && t@ == nanos
            } else {
                r is None
            },
            None => r is None,
        },
{
    let negative = text.len() > 0 && text[0] == 0x2d;
    let unsigned: &[u8] = if negative {
        vstd::slice::slice_subrange(text, 1, text.len())
    } else {
        text
    };
    assert(unsigned@ =~= unsigned_part(text@));
    match lay_out(unsigned) {
        None => None,
        Some(layout) => {
            match scale_to_nanos(unsigned, layout) {
                Some(count) => {
                    instant_at(negative, count)
                },
                None => None,
            }
        },
    }
}

/// Appends the decimal digits of `n`.
fn push_digits(n: u128, out: &mut Vec<u8>)
    ensures
        final(out)@ == old(out)@ + digits_of(n as nat),
    decreases n,
{
    if n >= 10 {
        push_digits(n / 10, out);
    }
    let digit: u128 = n % 10;
    out.push(0x30 + digit as u8);
    proof {
        assert(out@ =~= old(out)@ + digits_of(n as nat));
    }
}

/// Appends the last `width` decimal digits of `n`.
fn push_fixed_digits(n: u128, width: usize, out: &mut Vec<u8>)
    ensures
        final(out)@ == old(out)@ + fixed_digits(n as nat, width as nat),
    decreases width,
{
    if width > 0 {
        push_fixed_digits(n / 10, width - 1, out);
        let digit: u128 = n % 10;
        out.push(0x30 + digit as u8);
    }
    proof {
        assert(out@ =~= old(out)@ + fixed_digits(n as nat, width as nat));
    }
}

/// How far `nanos` lies from zero.
fn distance(nanos: i128) -> (count: u128)
    ensures
        count == (if nanos < 0 {
            -(nanos as int)
        } else {
            nanos as int
        }),
{
    if nanos >= 0 {
        nanos as u128
    } else {
        // One more than a negative number has its opposite among the numbers held.
        let short: i128 = nanos + 1;
        let back: i128 = -short;
        back as u128 + 1
    }
}

/// Writes an instant as decimal text.
pub fn print_timestamp(t: &Timestamp) -> (text: Vec<u8>)
    ensures
        text@ == text_of_nanos(t@),
{
    let nanos = t.as_nanos();
    let count = distance(nanos);
    let per_second: u128 = 1_000_000_000;
    let mut text: Vec<u8> = Vec::new();
    if nanos < 0 {
        text.push(0x2d);
    }
    push_digits(count / per_second, &mut text);
    text.push(0x2e);
    push_fixed_digits(count % per_second, 9, &mut text);
    proof {
        assert(text@ =~= text_of_nanos(t@));
    }
    text
}

/// The digits written for a number are digits, start with a zero only for
/// zero itself, and write that number.
pub proof fn digits_of_reads_back(n: nat)
    ensures
        digits_of(n).len() >= 1,
        all_digits(digits_of(n)),
        digits_value(digits_of(n)) == n,
        digits_of(n)[0] == 0x30 ==> digits_of(n).len() == 1,
    decreases n,
{
    let s = digits_of(n);
    if n < 10 {
        assert(s.drop_last() =~= Seq::<u8>::empty());
        assert(digits_value(s.drop_last()) == 0);
    } else {
        digits_of_reads_back(n / 10);
        let prefix = digits_of(n / 10);
        assert(s.drop_last() =~= prefix);
        assert(s[0] == prefix[0]);
        if prefix[0] == 0x30 {
            assert(prefix.drop_last() =~= Seq::<u8>::empty());
            assert(digits_value(prefix.drop_last()) == 0);
            assert(digits_value(prefix) == 0);
        }
    }
}

/// The digits written at a fixed width are that many digits, and write the
/// number up to that width.
pub proof fn fixed_digits_read_back(n: nat, width: nat)
    ensures
        fixed_digits(n, width).len() == width,
        all_digits(fixed_digits(n, width)),
        digits_value(fixed_digits(n, width)) == n % pow10(width),
    decreases width,
{
    let s = fixed_digits(n, width);
    if width > 0 {
        fixed_digits_read_back(n / 10, (width - 1) as nat);
        let prefix = fixed_digits(n / 10, (width - 1) as nat);
        let lower = pow10((width - 1) as nat);
        assert(s.drop_last() =~= prefix);
        pow10_grows(0, (width - 1) as nat);
        lemma_mod_breakdown(n as int, 10, lower as int);
        assert(n % pow10(width) == 10 * ((n / 10) % lower) + n % 10);
    }
}

/// What is written for a count of nanoseconds starts with a digit, is a plain
/// decimal, and is read back as that count.
pub proof fn text_of_count_reads_back(count: nat)
    ensures
        is_digit(text_of_count(count)[0]),
        plain_unsigned(text_of_count(count)),
        decimal_of_text(text_of_count(count)) matches Some(decimal) && decimal.scaled(9) == count,
{
    assert(NANOS_PER_SEC as nat == 1_000_000_000);
    let seconds = count / NANOS_PER_SEC as nat;
    let rest = count % NANOS_PER_SEC as nat;
    let whole = digits_of(seconds);
    let fraction = fixed_digits(rest, 9);
    let text = text_of_count(count);
    let point = whole.len() as int;
    digits_of_reads_back(seconds);
    fixed_digits_read_back(rest, 9);
    assert(pow10(9) == 1_000_000_000) by {
        reveal_with_fuel(pow10, 10);
    }
    assert(text.len() == point + 10);
    assert(text[point] == 0x2e);
    assert(text.subrange(0, point) =~= whole);
    assert(text.subrange(point + 1, text.len() as int) =~= fraction);
    assert(text[0] == whole[0]);
    digit_run_of_digits(text, 0, point);
    digit_run_of_digits(text, point + 1, text.len() as int);
    digits_value_of_concat(whole, fraction);
    let decimal = Decimal { whole, fraction, exponent: 0 };
    assert(decimal_of_text(text) == Some(decimal));
    assert(digits_value(whole + fraction) * pow10(0) == seconds * 1_000_000_000 + rest)
        by (nonlinear_arith)
        requires
            pow10(0) == 1,
            digits_value(whole + fraction) == seconds * 1_000_000_000 + rest,
    ;
}

/// What is written for an instant is a plain decimal, and it is read back as
/// that instant.
pub proof fn text_of_nanos_reads_back(nanos: int)
    ensures
        plain_decimal(text_of_nanos(nanos)),
        nanos_of_text(text_of_nanos(nanos)) == Some(nanos),
{
    let text = text_of_nanos(nanos);
    if nanos < 0 {
        let count = (-nanos) as nat;
        text_of_count_reads_back(count);
        assert(unsigned_part(text) =~= text_of_count(count));
    } else {
        text_of_count_reads_back(nanos as nat);
    }
}

} // verus!
