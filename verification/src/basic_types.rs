//! Numbers, characters, booleans, the unit type, block expressions and functions.

use vstd::layout::*;
use vstd::pervasive::runtime_assert;
use vstd::prelude::*;

use crate::mismatch::{expect_text, failure, text_failure, Mismatch};

verus! {

/// The sum of the integers from `start` up to, but not including, `end`.
pub open spec fn range_sum(start: int, end: int) -> int
    decreases end - start,
{
    if end <= start {
        0
    } else {
        range_sum(start, end - 1) + (end - 1)
    }
}

/// Adds up the integers of `start..end`, as `for i in start..end { total += i }` does.
/// The running total has to fit in an `i32` at every step.
pub fn sum_range(start: i32, end: i32) -> (total: i32)
    requires
        forall|k: int|
            start <= k <= end ==> i32::MIN <= #[trigger] range_sum(start as int, k) <= i32::MAX,
    ensures
        total == range_sum(start as int, end as int),
{
    let mut total: i32 = 0;
    if start < end {
        for i in start..end
            invariant
                start < end,
                total == range_sum(start as int, i as int),
                forall|k: int|
                    start <= k <= end ==> i32::MIN <= #[trigger] range_sum(start as int, k)
                        <= i32::MAX,
        {
            assert(range_sum(start as int, i + 1) == range_sum(start as int, i as int) + i);
            total += i;
        }
    }
    total
}

/// The codes of the characters from `first` to `last`, both included, in order. Each code
/// has to fit in a byte.
pub fn char_codes(first: char, last: char) -> (codes: Vec<u8>)
    requires
        last as u32 <= u8::MAX,
    ensures
        first <= last ==> codes@.len() == last as u32 - first as u32 + 1,
        first > last ==> codes@.len() == 0,
        forall|i: int| 0 <= i < codes@.len() ==> codes@[i] == first as u32 + i,
{
    let mut codes: Vec<u8> = Vec::new();
    let stop: u32 = last as u32;
    let mut code: u32 = first as u32;
    while code <= stop
        invariant
            stop == last as u32,
            stop <= u8::MAX,
            first as u32 <= code,
            first <= last ==> code <= stop + 1,
            first <= last ==> codes@.len() == code - first as u32,
            first > last ==> codes@.len() == 0,
            forall|i: int| 0 <= i < codes@.len() ==> codes@[i] == first as u32 + i,
        decreases stop + 1 - code,
    {
        codes.push(code as u8);
        code += 1;
    }
    codes
}

/// Whether bit `index` of `value` is set, counting from the least significant bit.
pub open spec fn bit(value: u32, index: u32) -> bool {
    (value >> index) & 1 == 1
}

/// The bitwise AND of two numbers: a bit of the result is set exactly where it is set in
/// both operands.
pub fn bit_and(a: u32, b: u32) -> (both: u32)
    ensures
        both == a & b,
        forall|index: u32|
            index < 32 ==> #[trigger] bit(both, index) == (bit(a, index) && bit(b, index)),
{
    assert(forall|index: u32|
        index < 32 ==> #[trigger] bit(a & b, index) == (bit(a, index) && bit(b, index)))
        by (bit_vector);
    a & b
}

/// Adds two numbers whose sum fits in an `i32`.
pub fn sum(a: i32, b: i32) -> (total: i32)
    requires
        i32::MIN <= a + b <= i32::MAX,
    ensures
        total == a + b,
{
    a + b
}

/// An optional number chosen by a tag. Every tag but 1 selects `Some(23)`; for the tag 1
/// no result is defined.
pub fn get_option(tp: u8) -> (choice: Option<i32>)
    requires
        tp != 1,
    ensures
        choice == Some(23i32),
{
    Some(23)
}

/// A function may spell out that it returns the unit value.
pub fn explicitly_ret_unit() -> () {
}

/// Integers: widening casts, the name and the limits of a type, checked addition,
/// literals in four bases, sums over ranges, ranges as values, and bit operations.
///
/// `name_of_u32` is what the compiler calls the type `u32`; that it says `u32` is the
/// one expectation here that no proof can settle.
pub fn numbers(name_of_u32: &str) -> (outcome: Result<(), Mismatch>)
    ensures
        failure(outcome) == text_failure("u32"@, name_of_u32@),
{
    {
        let v: u16 = 38_u8 as u16;
        runtime_assert(v == 38_u16);
    }
    {
        expect_text(String::from("u32"), String::from(name_of_u32))?;
    }
    {
        runtime_assert(i8::MAX == 127);
        runtime_assert(u8::MAX == 255);
    }
    {
        let v1: u16 = 251_u16 + 8;
        let v2: i16 = i16::checked_add(251, 8).unwrap();
        runtime_assert(v1 as i16 == v2);
    }
    {
        let v: i32 = 1_024 + 0xff + 0o77 + 0b1111_1111;
        runtime_assert(v == 1597);
    }
    {
        proof {
            reveal_with_fuel(range_sum, 6);
        }
        let total: i32 = sum_range(-3, 2);
        runtime_assert(total == -5);
    }
    {
        let codes: Vec<u8> = char_codes('a', 'z');
        runtime_assert(codes.len() == 26);
        runtime_assert(codes[0] == 97 && codes[25] == 122);
    }
    {
        let half_open: core::ops::Range<i32> = 1..5;
        runtime_assert(half_open.start == 1 && half_open.end == 5);
        assert(half_open == (core::ops::Range { start: 1i32, end: 5i32 }));
        let closed: core::ops::RangeInclusive<i32> = 1..=5;
        let built: core::ops::RangeInclusive<i32> = core::ops::RangeInclusive::new(1, 5);
        assert(closed@ == built@);
    }
    {
        let both: u32 = bit_and(0b0011, 0b0101);
        assert(0b0011u32 & 0b0101u32 == 0b0001u32) by (bit_vector);
        runtime_assert(both == 0b0001);
    }
    Ok(())
}

/// Characters, booleans and the unit value, and how many bytes each takes.
pub fn char_bool_and_unit() {
    broadcast use group_layout_axioms;

    {
        let _c1: char = 'a';
        runtime_assert(core::mem::size_of::<char>() == 4);
        let _c2: char = '❤';
        runtime_assert(core::mem::size_of::<char>() == 4);
    }
    {
        let f: bool = false;
        let t: bool = true;
        runtime_assert(core::mem::size_of::<bool>() == 1);
        runtime_assert(!f && t);
    }
    {
        let unit: () = ();
        runtime_assert(core::mem::size_of::<()>() == 0);
        let returned: () = explicitly_ret_unit();
        assert(unit == returned);
    }
}

/// A block is an expression: its value is that of its last expression.
pub fn statements_and_expressions() {
    {
        let x: u32 = 5_u32;
        let y: u32 = {
            let x_squared: u32 = x * x;
            let x_cubed: u32 = x_squared * x;
            x_squared + x_cubed + x
        };
        runtime_assert(y == (5 * 5) + (5 * 5 * 5) + 5);
    }
    {
        let v: i32 = {
            let mut x: i32 = 1;
            x += 2;
            x
        };
        runtime_assert(v == 3);
    }
}

/// Calling functions: one that adds, and one that returns an `Option`.
pub fn functions() {
    {
        runtime_assert(sum(2, 2) == 4);
    }
    {
        let choice: i32 = get_option(2).unwrap();
        runtime_assert(choice == 23);
    }
}

} // verus!
