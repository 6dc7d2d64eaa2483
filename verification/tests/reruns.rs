use rust_practice::basic_types::{bit_and, char_bool_and_unit, functions, numbers, statements_and_expressions};
use rust_practice::compound_types::{array, byte_range, replace, slice, string};
use rust_practice::ownership_and_borrowing::{ownership, reference_and_borrowing};
use rust_practice::variables;

#[test]
fn sections_end_alike_on_every_run() {
    for _ in 0..3 {
        variables();
        char_bool_and_unit();
        statements_and_expressions();
        functions();
        ownership();
        reference_and_borrowing();
        string();
        array();
    }
}

#[test]
fn numbers_end_alike_on_every_run() {
    let passed = numbers("u32");
    let failed = numbers("usize");
    for _ in 0..3 {
        assert_eq!(numbers("u32"), passed);
        assert_eq!(numbers("usize"), failed);
    }
}

#[test]
fn slice_ends_alike_on_every_run() {
    let outcome = slice();
    for _ in 0..3 {
        assert_eq!(slice(), outcome);
    }
}

#[test]
fn operations_give_the_same_result_again() {
    assert_eq!(bit_and(0b0011, 0b0101), bit_and(0b0011, 0b0101));
    assert_eq!(byte_range("hello world", 0, 5), byte_range("hello world", 0, 5));
    assert_eq!(replace("hello world", "hello", "goodbye"), replace("hello world", "hello", "goodbye"));
}
