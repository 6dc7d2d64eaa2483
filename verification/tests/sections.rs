use rust_practice::basic_types::{char_bool_and_unit, functions, numbers, statements_and_expressions};
use rust_practice::compound_types::{array, enum_type, slice, string, struct_type, tuple};
use rust_practice::mismatch::Mismatch;
use rust_practice::ownership_and_borrowing::{ownership, reference_and_borrowing};
use rust_practice::{compound_types, variables};

#[test]
fn variables_run_to_the_end() {
    variables();
}

#[test]
fn numbers_pass_with_the_expected_name() {
    assert_eq!(numbers("u32"), Ok(()));
}

#[test]
fn numbers_report_another_name() {
    assert_eq!(
        numbers("i64"),
        Err(Mismatch::Text(String::from("u32"), String::from("i64")))
    );
}

#[test]
fn char_bool_and_unit_run_to_the_end() {
    char_bool_and_unit();
}

#[test]
fn statements_and_expressions_run_to_the_end() {
    statements_and_expressions();
}

#[test]
fn functions_run_to_the_end() {
    functions();
}

#[test]
fn ownership_runs_to_the_end() {
    ownership();
}

#[test]
fn reference_and_borrowing_run_to_the_end() {
    reference_and_borrowing();
}

#[test]
fn string_runs_to_the_end() {
    string();
}

#[test]
fn array_runs_to_the_end() {
    array();
}

#[test]
fn slice_compares_the_size_of_a_wide_reference() {
    let size = std::mem::size_of::<&[char]>();
    if size == 16 {
        assert_eq!(slice(), Ok(()));
    } else {
        assert_eq!(slice(), Err(Mismatch::Size(size, 16)));
    }
}

#[test]
fn empty_sections_run_to_the_end() {
    tuple();
    struct_type();
    enum_type();
    compound_types();
}
