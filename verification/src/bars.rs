//! Fill-bar rendering: a bordered horizontal bar whose filled share is the
//! position of a value inside a range, and a bidirectional bar that grows
//! outward from the middle of its range.
//!
//! A value below `min` clamps to an empty bar; a value above `max` is not
//! clamped, so the body may grow past the nominal bar width (the caller is
//! expected to feed values near the calibrated range). A range with
//! `min >= max` falls back to a divisor of one instead of dividing by zero.

use vstd::arithmetic::div_mod::lemma_div_basics;
use vstd::arithmetic::div_mod::lemma_div_nonincreasing;
use vstd::arithmetic::div_mod::lemma_div_of0;
use vstd::prelude::*;
use vstd::string::StringExecFns;
use vstd::utf8::encode_utf8;
use vstd::utf8::is_ascii_chars;
use vstd::utf8::is_ascii_chars_encode_utf8;

verus! {

/// `x`, but never below zero.
pub open spec fn clamp0(x: int) -> int {
    if x < 0 {
        0
    } else {
        x
    }
}

/// Halving that rounds toward zero, as the machine division of the
/// signed midpoint does.
pub open spec fn div2_toward_zero(s: int) -> int {
    if s >= 0 {
        s / 2
    } else {
        -((-s) / 2)
    }
}

/// `n` copies of `c`; none when `n` is negative.
pub open spec fn char_repeat(c: char, n: int) -> Seq<char> {
    Seq::new(clamp0(n) as nat, |_i: int| c)
}

/// Number of filled cells of a bar body of `bar_size` cells showing where
/// `value` sits inside `[min, max]`. Values below `min` count as `min`;
/// an empty or reversed range divides by one instead.
pub open spec fn bar_filling(bar_size: int, min: int, max: int, value: int) -> int {
    let shifted = clamp0(value - min);
    let range = if max - min <= 0 {
        1
    } else {
        max - min
    };
    bar_size * shifted / range
}

/// The bar body between the two border characters: filled cells on the
/// side the bar grows from, blank cells on the other.
pub open spec fn bar_body(left_to_right: bool, filling: int, empty: int) -> Seq<char> {
    if left_to_right {
        char_repeat('█', filling) + char_repeat(' ', empty)
    } else {
        char_repeat(' ', empty) + char_repeat('█', filling)
    }
}

/// The characters of one bar: the label, then the body between `|`
/// borders. `label_len` is the label's width in bytes; when the label
/// leaves no room for a body, the label alone comes back.
pub open spec fn bar_text(
    label: Seq<char>,
    label_len: int,
    left_to_right: bool,
    inverted: bool,
    length: int,
    min: int,
    max: int,
    value: int,
) -> Seq<char> {
    if label_len + 3 > length {
        label
    } else {
        let bar_size = length - label_len - 2;
        let f0 = bar_filling(bar_size, min, max, value);
        let filling = if inverted {
            bar_size - f0
        } else {
            f0
        };
        let empty = bar_size - filling;
        label + seq!['|'] + bar_body(left_to_right, filling, empty) + seq!['|']
    }
}

/// The characters of a bidirectional bar: two half-bars over the lower
/// half of the range, the left one showing how far `value` sits below the
/// range's midpoint and the right one how far above, with a single pad
/// space between them when the width after the label is odd.
pub open spec fn lr_bar_text(
    label: Seq<char>,
    label_len: int,
    inverted: bool,
    length: int,
    min: int,
    max: int,
    value: int,
) -> Seq<char> {
    if label_len + 6 > length {
        label
    } else {
        let sub = (length - label_len) / 2;
        let center = div2_toward_zero(min + max);
        let left_value = clamp0(
            if inverted {
                value - center
            } else {
                center - value
            },
        );
        let right_value = clamp0(
            if inverted {
                center - value
            } else {
                value - center
            },
        );
        label + bar_text(Seq::empty(), 0, false, false, sub, min, center, left_value) + (
        if (length - label_len) % 2 != 0 {
            seq![' ']
        } else {
            Seq::<char>::empty()
        }) + bar_text(Seq::empty(), 0, true, false, sub, min, center, right_value)
    }
}

/// Byte length of an all-ASCII label equals its character count.
pub proof fn lemma_ascii_label_len(label: Seq<char>)
    requires
        is_ascii_chars(label),
    ensures
        encode_utf8(label).len() == label.len(),
{
    is_ascii_chars_encode_utf8(label);
}

/// Appends `count` copies of the single character of `glyph`.
fn append_repeat(s: &mut String, glyph: &str, count: i128)
    requires
        glyph@.len() == 1,
    ensures
        final(s)@ == old(s)@ + char_repeat(glyph@[0], count as int),
{
    let mut i: i128 = 0;
    proof {
        assert(s@ =~= old(s)@ + char_repeat(glyph@[0], 0));
    }
    while i < count
        invariant
            glyph@.len() == 1,
            0 <= i,
            i <= clamp0(count as int),
            s@ == old(s)@ + char_repeat(glyph@[0], i as int),
        decreases count - i,
    {
        s.append(glyph);
        proof {
            assert(char_repeat(glyph@[0], i + 1) =~= char_repeat(glyph@[0], i as int) + glyph@);
        }
        i = i + 1;
    }
    proof {
        if count < 0 {
            assert(char_repeat(glyph@[0], count as int) =~= char_repeat(glyph@[0], 0));
        }
    }
}

/// Shared renderer for both public bars, wide enough for the midpoint
/// arithmetic of the bidirectional bar.
fn draw_bar_wide(
    label: &str,
    left_to_right: bool,
    inverted: bool,
    length: i64,
    min: i64,
    max: i64,
    value: i64,
) -> (r: String)
    requires
        label.len() <= 0x7fff_ffff,
        -0x1_0000_0000_0000 <= length <= 0x1_0000_0000_0000,
        -0x1_0000_0000_0000 <= min <= 0x1_0000_0000_0000,
        -0x1_0000_0000_0000 <= max <= 0x1_0000_0000_0000,
        -0x1_0000_0000_0000 <= value <= 0x1_0000_0000_0000,
    ensures
        r@ == bar_text(
            label@,
            label.len() as int,
            left_to_right,
            inverted,
            length as int,
            min as int,
            max as int,
            value as int,
        ),
{
    let label_len: i64 = label.len() as i64;
    if label_len + 3 > length {
        return label.to_owned();
    }
    let mut ret = label.to_owned();

    let mut shifted: i64 = value - min;
    if shifted < 0 {
        shifted = 0;
    }
    let mut range: i64 = max - min;
    if range <= 0 {
        range = 1;
    }
    let bar_size: i64 = length - label_len - 2;

    proof {
        let bs = bar_size as int;
        let sh = shifted as int;
        assert(bs * sh <= 0x1_0000_0000_0000_0000_0000_0000_0000) by (nonlinear_arith)
            requires
                0 <= bs <= 0x1_0000_0000_0002,
                0 <= sh <= 0x2_0000_0000_0000,
        ;
    }
    let prod: u128 = (bar_size as u128) * (shifted as u128);
    let filling_cells: u128 = prod / (range as u128);
    proof {
        lemma_div_nonincreasing(prod as int, range as int);
    }
    let mut filling: i128 = filling_cells as i128;
    if inverted {
        filling = (bar_size as i128) - filling;
    }
    let empty: i128 = (bar_size as i128) - filling;

    proof {
        reveal_strlit("|");
        reveal_strlit("█");
        reveal_strlit(" ");
        assert("|"@ =~= seq!['|']);
        assert("█"@ =~= seq!['█']);
        assert(" "@ =~= seq![' ']);
    }
    ret.append("|");
    if left_to_right {
        append_repeat(&mut ret, "█", filling);
        append_repeat(&mut ret, " ", empty);
    } else {
        append_repeat(&mut ret, " ", empty);
        append_repeat(&mut ret, "█", filling);
    }
    ret.append("|");

    proof {
        let f0 = bar_filling(length - label_len - 2, min as int, max as int, value as int);
        assert(filling_cells as int == f0);
        assert(ret@ =~= bar_text(
            label@,
            label.len() as int,
            left_to_right,
            inverted,
            length as int,
            min as int,
            max as int,
            value as int,
        ));
    }
    ret
}

/// Renders one bar of `length` cells: the label, a `|` border, the body,
/// and a closing `|`. The filled share of the body is the position of
/// `value` inside `[min, max]`, growing from the left when
/// `left_to_right` is set and from the right otherwise; `inverted` swaps
/// the filled and blank cell counts.
pub fn draw_bar(
    label: &str,
    left_to_right: bool,
    inverted: bool,
    length: i32,
    min: i32,
    max: i32,
    value: i32,
) -> (r: String)
    requires
        label.len() <= 0x7fff_ffff,
    ensures
        r@ == bar_text(
            label@,
            label.len() as int,
            left_to_right,
            inverted,
            length as int,
            min as int,
            max as int,
            value as int,
        ),
{
    draw_bar_wide(
        label,
        left_to_right,
        inverted,
        length as i64,
        min as i64,
        max as i64,
        value as i64,
    )
}

/// Renders a bidirectional bar of `length` cells: after the label, the
/// width splits into two half-bars around the midpoint of `[min, max]`.
/// The left half fills by how far `value` lies below the midpoint, the
/// right half by how far above; `inverted` swaps the two sides. When the
/// split width is odd a single pad space stands between the halves.
pub fn draw_left_right_bar(
    label: &str,
    inverted: bool,
    length: i32,
    min: i32,
    max: i32,
    value: i32,
) -> (r: String)
    requires
        label.len() <= 0x7fff_ffff,
    ensures
        r@ == lr_bar_text(
            label@,
            label.len() as int,
            inverted,
            length as int,
            min as int,
            max as int,
            value as int,
        ),
{
    let label_len: i64 = label.len() as i64;
    let length_w: i64 = length as i64;
    if label_len + 6 > length_w {
        return label.to_owned();
    }
    let mut ret = label.to_owned();

    let split_width: u64 = (length_w - label_len) as u64;
    let sub_bar_length: i64 = (split_width / 2) as i64;

    let mid_sum: i64 = min as i64 + max as i64;
    let center_value: i64 = if mid_sum >= 0 {
        ((mid_sum as u64) / 2) as i64
    } else {
        -((((-mid_sum) as u64) / 2) as i64)
    };

    let mut left_value: i64 = center_value - value as i64;
    let mut right_value: i64 = value as i64 - center_value;
    if inverted {
        let temp = left_value;
        left_value = right_value;
        right_value = temp;
    }
    if left_value < 0 {
        left_value = 0;
    }
    if right_value < 0 {
        right_value = 0;
    }

    proof {
        reveal_strlit("");
        reveal_strlit(" ");
        assert(""@ =~= Seq::<char>::empty());
        assert(" "@ =~= seq![' ']);
        assert(encode_utf8(Seq::<char>::empty()) =~= Seq::<u8>::empty());
        assert("".len() == 0);
    }
    let left_bar = draw_bar_wide(
        "",
        false,
        false,
        sub_bar_length,
        min as i64,
        center_value,
        left_value,
    );
    ret.append(left_bar.as_str());
    if split_width % 2 != 0 {
        ret.append(" ");
    }
    let right_bar = draw_bar_wide(
        "",
        true,
        false,
        sub_bar_length,
        min as i64,
        center_value,
        right_value,
    );
    ret.append(right_bar.as_str());

    proof {
        assert(center_value as int == div2_toward_zero(min as int + max as int));
        assert(ret@ =~= lr_bar_text(
            label@,
            label.len() as int,
            inverted,
            length as int,
            min as int,
            max as int,
            value as int,
        ));
    }
    ret
}

/// A label that leaves no room for a bar body comes back verbatim.
pub proof fn lemma_bar_degenerate_label(
    label: Seq<char>,
    label_len: int,
    left_to_right: bool,
    inverted: bool,
    length: int,
    min: int,
    max: int,
    value: int,
)
    requires
        label_len + 3 > length,
    ensures
        bar_text(label, label_len, left_to_right, inverted, length, min, max, value) == label,
{
}

/// With an empty or reversed range the divisor defaults to one, so the
/// filled cell count is the whole product of bar width and clamped
/// offset, never a division by zero.
pub proof fn lemma_bar_degenerate_range(bar_size: int, min: int, max: int, value: int)
    requires
        min >= max,
    ensures
        bar_filling(bar_size, min, max, value) == bar_size * clamp0(value - min),
{
    lemma_div_basics(bar_size * clamp0(value - min));
}

/// A half-bar of a bidirectional bar with nothing to show: bordered
/// blanks, or nothing at all when the half is too narrow for a body.
pub open spec fn empty_half(sub: int) -> Seq<char> {
    if 3 > sub {
        Seq::<char>::empty()
    } else {
        seq!['|'] + char_repeat(' ', sub - 2) + seq!['|']
    }
}

/// A value exactly at the midpoint of a range starting at or above zero
/// leaves both halves of the bidirectional bar fully empty.
pub proof fn lemma_centered_value_empty_halves(
    label: Seq<char>,
    label_len: int,
    inverted: bool,
    length: int,
    min: int,
    max: int,
    value: int,
)
    requires
        min >= 0,
        value == div2_toward_zero(min + max),
        label_len + 6 <= length,
    ensures
        lr_bar_text(label, label_len, inverted, length, min, max, value) == label + empty_half(
            (length - label_len) / 2,
        ) + (if (length - label_len) % 2 != 0 {
            seq![' ']
        } else {
            Seq::<char>::empty()
        }) + empty_half((length - label_len) / 2),
{
    let sub = (length - label_len) / 2;
    let center = div2_toward_zero(min + max);
    if 3 <= sub {
        let bar_size = sub - 2;
        let range = if center - min <= 0 {
            1
        } else {
            center - min
        };
        lemma_div_of0(range);
        assert(bar_filling(bar_size, min, center, 0) == 0);
        assert(bar_text(Seq::empty(), 0, false, false, sub, min, center, 0) =~= empty_half(sub));
        assert(bar_text(Seq::empty(), 0, true, false, sub, min, center, 0) =~= empty_half(sub));
    }
}

} // verus!
