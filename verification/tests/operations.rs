use rust_practice::basic_types::{bit_and, char_codes, explicitly_ret_unit, get_option, sum, sum_range};
use rust_practice::compound_types::{
    all_chars_are, byte_range, filled, lookup, replace, set_in_window,
};
use rust_practice::mismatch::{expect_size, expect_text, Mismatch};
use rust_practice::ownership_and_borrowing::{change, Person};

#[test]
fn byte_ranges_of_hello_world() {
    let text = String::from("hello world");
    assert_eq!(byte_range(&text, 0, 5), "hello");
    assert_eq!(byte_range(&text, 6, 11), "world");
}

#[test]
fn byte_range_may_be_empty_or_whole() {
    let text = "hello world";
    assert_eq!(byte_range(text, 5, 5), "");
    assert_eq!(byte_range(text, 0, 0), "");
    assert_eq!(byte_range(text, 11, 11), "");
    assert_eq!(byte_range(text, 0, 11), "hello world");
}

#[test]
fn byte_range_counts_bytes_not_characters() {
    let text = "中国人";
    assert_eq!(text.len(), 9);
    assert_eq!(byte_range(text, 0, 3), "中");
    assert_eq!(byte_range(text, 3, 6), "国");
    assert_eq!(byte_range(text, 3, 9), "国人");
}

#[test]
fn array_of_a_hundred_ones() {
    let list: [i32; 100] = filled(1);
    assert_eq!(list[37], 1);
    assert_eq!(list.len(), 100);
    assert!(list.iter().all(|item| *item == 1));
}

#[test]
fn filled_takes_any_copy_type_and_length() {
    let none: [u8; 0] = filled(7);
    assert_eq!(none.len(), 0);
    let yes: [bool; 3] = filled(true);
    assert_eq!(yes, [true, true, true]);
    let letters: [char; 2] = filled('x');
    assert_eq!(letters, ['x', 'x']);
}

#[test]
fn lookup_beyond_the_end_finds_nothing() {
    let names: [String; 2] = [String::from("Asaf"), String::from("Nicole")];
    assert_eq!(lookup(&names, 2), None);
    assert_eq!(lookup(&names, usize::MAX), None);
}

#[test]
fn lookup_within_the_collection_finds_the_item() {
    let names: [String; 2] = [String::from("Asaf"), String::from("Nicole")];
    assert_eq!(lookup(&names, 0), Some(&String::from("Asaf")));
    assert_eq!(lookup(&names, 1), Some(&String::from("Nicole")));
    let empty: [i32; 0] = [];
    assert_eq!(lookup(&empty, 0), None);
}

#[test]
fn bitwise_and_of_0011_and_0101() {
    assert_eq!(bit_and(0b0011, 0b0101), 0b0001);
}

#[test]
fn bitwise_and_keeps_the_common_bits() {
    assert_eq!(bit_and(0, u32::MAX), 0);
    assert_eq!(bit_and(u32::MAX, u32::MAX), u32::MAX);
    assert_eq!(bit_and(0xF0F0_1234, 0x0FF0_FF00), 0x00F0_1200);
    assert_eq!(bit_and(0b1010, 0b0101), 0);
}

#[test]
fn sum_of_a_range() {
    assert_eq!(sum_range(-3, 2), -5);
    assert_eq!(sum_range(1, 101), 5050);
    assert_eq!(sum_range(0, 1), 0);
    assert_eq!(sum_range(7, 8), 7);
    assert_eq!(sum_range(-2, 3), 0);
}

#[test]
fn sum_of_an_empty_range_is_zero() {
    assert_eq!(sum_range(5, 5), 0);
    assert_eq!(sum_range(3, 1), 0);
    assert_eq!(sum_range(i32::MAX, i32::MIN), 0);
}

#[test]
fn codes_of_the_lower_case_letters() {
    let codes = char_codes('a', 'z');
    let expected: Vec<u8> = (97u8..=122u8).collect();
    assert_eq!(codes, expected);
}

#[test]
fn codes_of_one_character_and_of_none() {
    assert_eq!(char_codes('a', 'a'), vec![97u8]);
    assert_eq!(char_codes('z', 'a'), Vec::<u8>::new());
    assert_eq!(char_codes('\u{0}', '\u{2}'), vec![0u8, 1, 2]);
    assert_eq!(char_codes('\u{fe}', '\u{ff}'), vec![254u8, 255]);
}

#[test]
fn sum_adds() {
    assert_eq!(sum(2, 2), 4);
    assert_eq!(sum(-1, 1), 0);
    assert_eq!(sum(i32::MAX, 0), i32::MAX);
    assert_eq!(sum(i32::MIN, i32::MAX), -1);
}

#[test]
fn get_option_gives_23() {
    assert_eq!(get_option(2), Some(23));
    assert_eq!(get_option(0), Some(23));
    assert_eq!(get_option(255), Some(23));
}

#[test]
fn unit_is_returned() {
    assert_eq!(explicitly_ret_unit(), ());
}

#[test]
fn change_appends_world() {
    let mut s = String::from("hello");
    change(&mut s);
    assert_eq!(s, String::from("hello, world"));
    let mut empty = String::new();
    change(&mut empty);
    assert_eq!(empty, ", world");
}

#[test]
fn person_holds_name_and_age() {
    let person = Person { name: String::from("Alice"), age: Box::new(20) };
    let Person { name, ref age } = person;
    assert_eq!(*age, person.age);
    assert_eq!(name, String::from("Alice"));
}

#[test]
fn replace_hello_by_goodbye() {
    assert_eq!(replace("hello world", "hello", "goodbye"), String::from("goodbye world"));
}

#[test]
fn replace_without_a_match_copies_the_text() {
    assert_eq!(replace("hello world", "bye", "x"), "hello world");
    assert_eq!(replace("abc", "abcd", "x"), "abc");
    assert_eq!(replace("", "a", "x"), "");
}

#[test]
fn replace_takes_every_match_from_the_left() {
    assert_eq!(replace("aaa", "aa", "b"), "ba");
    assert_eq!(replace("aaaa", "aa", "b"), "bb");
    assert_eq!(replace("abab", "ab", ""), "");
    assert_eq!(replace("a-b-c", "-", "--"), "a--b--c");
    assert_eq!(replace("中国人", "国", "-"), "中-人");
}

#[test]
fn replace_of_the_empty_pattern() {
    assert_eq!(replace("abc", "", "-"), "-a-b-c-");
    assert_eq!(replace("", "", "-"), "-");
    assert_eq!(replace("中国", "", "."), ".中.国.");
}

#[test]
fn all_chars_are_the_dog() {
    assert!(all_chars_are("🐶🐶🐶🐶", '🐶'));
    assert!(!all_chars_are("🐶🐶a🐶", '🐶'));
    assert!(!all_chars_are("a🐶", '🐶'));
    assert!(all_chars_are("", 'x'));
}

#[test]
fn write_through_a_window_lands_in_the_array() {
    let mut a = [1, 2, 3, 4, 5];
    set_in_window(&mut a, 1, 3, 0, 20);
    assert_eq!(a, [1, 20, 3, 4, 5]);
    set_in_window(&mut a, 1, 3, 1, 30);
    assert_eq!(a, [1, 20, 30, 4, 5]);
    set_in_window(&mut a, 0, 5, 4, 50);
    assert_eq!(a, [1, 20, 30, 4, 50]);
    set_in_window(&mut a, 4, 5, 0, 7);
    assert_eq!(a, [1, 20, 30, 4, 7]);
}

#[test]
fn equal_texts_pass() {
    assert_eq!(expect_text(String::from("u32"), String::from("u32")), Ok(()));
    assert_eq!(expect_text(String::new(), String::new()), Ok(()));
}

#[test]
fn different_texts_are_handed_back() {
    assert_eq!(
        expect_text(String::from("u32"), String::from("u64")),
        Err(Mismatch::Text(String::from("u32"), String::from("u64")))
    );
    assert_eq!(
        expect_text(String::from("a"), String::new()),
        Err(Mismatch::Text(String::from("a"), String::new()))
    );
}

#[test]
fn equal_sizes_pass() {
    assert_eq!(expect_size(16, 16), Ok(()));
    assert_eq!(expect_size(0, 0), Ok(()));
}

#[test]
fn different_sizes_are_handed_back() {
    assert_eq!(expect_size(8, 16), Err(Mismatch::Size(8, 16)));
    assert_eq!(expect_size(16, 8), Err(Mismatch::Size(16, 8)));
}
