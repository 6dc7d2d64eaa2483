//! Strings, arrays and slices.

use vstd::layout::*;
use vstd::pervasive::runtime_assert;
use vstd::prelude::*;
use vstd::string::*;
use vstd::utf8::*;

use crate::mismatch::{expect_size, failure, size_failure, Mismatch};
use crate::std_contracts::{replaced, str_replace};

verus! {

/// How many bytes the first `n` characters of `chars` take in UTF-8: the byte index at
/// which character `n` starts.
pub open spec fn byte_offset(chars: Seq<char>, n: int) -> int {
    encode_utf8(chars.subrange(0, n)).len() as int
}

/// The encoding of a concatenation is the concatenation of the encodings.
pub proof fn lemma_encode_concat(left: Seq<char>, right: Seq<char>)
    ensures
        encode_utf8(left + right) == encode_utf8(left) + encode_utf8(right),
    decreases left.len(),
{
    if left.len() == 0 {
        assert(left + right == right);
        assert(encode_utf8(left) + encode_utf8(right) == encode_utf8(right));
    } else {
        lemma_encode_concat(left.drop_first(), right);
        assert((left + right).drop_first() == left.drop_first() + right);
        assert((left + right)[0] == left[0]);
        assert(encode_utf8(left + right) == encode_scalar(left[0] as u32) + (encode_utf8(
            left.drop_first(),
        ) + encode_utf8(right)));
    }
}

/// The end of a whole number of characters is a character boundary.
pub proof fn lemma_boundary_behind_chars(left: Seq<char>, right: Seq<char>)
    ensures
        is_char_boundary(encode_utf8(left + right), encode_utf8(left).len() as int),
    decreases left.len(),
{
    broadcast use encode_utf8_valid_utf8;

    let chars = left + right;
    let bytes = encode_utf8(chars);
    if left.len() == 0 {
    } else {
        lemma_encode_concat(left, right);
        encode_utf8_first_scalar(chars);
        assert(chars[0] == left[0]);
        assert(chars.drop_first() == left.drop_first() + right);
        assert(pop_first_scalar(bytes) == encode_utf8(chars.drop_first()));
        lemma_boundary_behind_chars(left.drop_first(), right);
        assert(encode_utf8(left).len() == encode_scalar(left[0] as u32).len() + encode_utf8(
            left.drop_first(),
        ).len());
    }
}

/// Cutting the bytes of a text where character `from` starts and where character `to`
/// starts yields the characters `from..to` and nothing else, and both cuts are character
/// boundaries.
pub proof fn lemma_byte_range_of_chars(chars: Seq<char>, from: int, to: int)
    requires
        0 <= from <= to <= chars.len(),
    ensures
        0 <= byte_offset(chars, from) <= byte_offset(chars, to) <= encode_utf8(chars).len(),
        is_char_boundary(encode_utf8(chars), byte_offset(chars, from)),
        is_char_boundary(encode_utf8(chars), byte_offset(chars, to)),
        encode_utf8(chars).subrange(byte_offset(chars, from), byte_offset(chars, to))
            == encode_utf8(chars.subrange(from, to)),
        decode_utf8(encode_utf8(chars).subrange(byte_offset(chars, from), byte_offset(chars, to)))
            == chars.subrange(from, to),
{
    let head = chars.subrange(0, from);
    let middle = chars.subrange(from, to);
    let tail = chars.subrange(to, chars.len() as int);
    assert(chars == head + (middle + tail));
    assert(chars == (head + middle) + tail);
    assert(chars.subrange(0, to) == head + middle);
    lemma_encode_concat(head, middle);
    lemma_encode_concat(head + middle, tail);
    lemma_boundary_behind_chars(head, middle + tail);
    lemma_boundary_behind_chars(head + middle, tail);
    assert(encode_utf8(chars).subrange(byte_offset(chars, from), byte_offset(chars, to))
        == encode_utf8(middle));
    encode_utf8_decode_utf8(middle);
}

/// In a text of ASCII characters every character takes one byte. So every index up to
/// the length is a character boundary, and the bytes `from..to` hold the characters
/// `from..to`.
pub proof fn lemma_byte_range_ascii(chars: Seq<char>, from: int, to: int)
    requires
        is_ascii_chars(chars),
        0 <= from <= to <= chars.len(),
    ensures
        encode_utf8(chars).len() == chars.len(),
        is_char_boundary(encode_utf8(chars), from),
        is_char_boundary(encode_utf8(chars), to),
        decode_utf8(encode_utf8(chars).subrange(from, to)) == chars.subrange(from, to),
{
    is_ascii_chars_encode_utf8(chars);
    is_ascii_chars_encode_utf8(chars.subrange(0, from));
    is_ascii_chars_encode_utf8(chars.subrange(0, to));
    lemma_byte_range_of_chars(chars, from, to);
}

/// The part of `text` that lies in the bytes `from..to`, as `&text[from..to]` selects it.
/// Both ends have to fall on character boundaries.
pub fn byte_range<'a>(text: &'a str, from: usize, to: usize) -> (part: &'a str)
    requires
        from <= to <= text.spec_bytes().len(),
        is_char_boundary(text.spec_bytes(), from as int),
        is_char_boundary(text.spec_bytes(), to as int),
    ensures
        part.spec_bytes() == text.spec_bytes().subrange(from as int, to as int),
        part@ == decode_utf8(text.spec_bytes().subrange(from as int, to as int)),
{
    broadcast use {encode_utf8_valid_utf8, encode_utf8_decode_utf8};

    let ghost bytes = text.spec_bytes();
    let (head, _) = text.split_at(to);
    proof {
        valid_utf8_split(bytes, to as int);
        if from < to {
            is_char_boundary_iff_not_is_continuation_byte(bytes, from as int);
            is_char_boundary_iff_not_is_continuation_byte(head.spec_bytes(), from as int);
        } else {
            is_char_boundary_start_end_of_seq(head.spec_bytes());
        }
    }
    let (_, part) = head.split_at(from);
    assert(part.spec_bytes() == bytes.subrange(from as int, to as int));
    part
}

/// `text` with every occurrence of `pattern` replaced by `with`.
pub fn replace(text: &str, pattern: &str, with: &str) -> (out: String)
    ensures
        out@ == replaced(text@, pattern@, with@),
{
    str_replace(text, pattern, with)
}

/// Whether every character of `text` is `ch`.
pub fn all_chars_are(text: &str, ch: char) -> (all: bool)
    ensures
        all == (forall|i: int| 0 <= i < text@.len() ==> text@[i] == ch),
{
    let mut all: bool = true;
    for c in it: text.chars()
        invariant
            it.seq() == text@,
            all == (forall|i: int| 0 <= i < it.index() ==> text@[i] == ch),
    {
        if c != ch {
            all = false;
        }
    }
    all
}

/// An array that holds `value` at each of its `N` places.
pub fn filled<T: Copy, const N: usize>(value: T) -> (list: [T; N])
    ensures
        list@.len() == N,
        forall|i: int| 0 <= i < N ==> list@[i] == value,
{
    [value; N]
}

/// The item at `index`, or nothing where `index` lies beyond the last item.
pub fn lookup<T>(items: &[T], index: usize) -> (found: Option<&T>)
    ensures
        index < items@.len() ==> found == Some(&items@[index as int]),
        index >= items@.len() ==> found is None,
{
    items.get(index)
}

/// Borrows the window `from..to` of `items` and writes `value` at place `at` of the
/// window. The write lands in `items` at `from + at`; nothing else changes.
pub fn set_in_window<T>(items: &mut [T], from: usize, to: usize, at: usize, value: T)
    requires
        from <= to <= old(items)@.len(),
        at < to - from,
    ensures
        final(items)@ == old(items)@.update(from + at, value),
{
    let (_, rest) = items.split_at_mut(from);
    let (window, _) = rest.split_at_mut(to - from);
    window[at] = value;
}

/// Text: slices by byte range, growth in place, replacement, concatenation, escapes in
/// literals, and a walk over characters.
pub fn string() {
    {
        let s: String = String::from("hello world");
        let text: &str = s.as_str();
        proof {
            reveal_strlit("hello world");
            reveal_strlit("hello");
            reveal_strlit("world");
            lemma_byte_range_ascii("hello world"@, 0, 5);
            lemma_byte_range_ascii("hello world"@, 6, 11);
        }
        let hello: &str = byte_range(text, 0, 5);
        let world: &str = byte_range(text, 6, 11);
        assert(hello@ == "hello"@);
        assert(world@ == "world"@);
        runtime_assert(hello.eq("hello"));
        runtime_assert(world.eq("world"));
    }
    {
        let mut s: String = String::from("hello");
        s.push(',');
        s.push_str(" world");
        s.append("!");
        proof {
            reveal_strlit("hello");
            reveal_strlit(" world");
            reveal_strlit("!");
            reveal_strlit("hello, world!");
        }
        assert(s@ == "hello, world!"@);
        runtime_assert(s == String::from("hello, world!"));
    }
    {
        let mut s: String = String::from("hello world");
        s = replace(s.as_str(), "hello", "goodbye");
        proof {
            reveal_strlit("hello world");
            reveal_strlit("hello");
            reveal_strlit("goodbye");
            reveal_strlit("goodbye world");
            let pattern = "hello"@;
            let with = "goodbye"@;
            let text = "hello world"@;
            let t1 = text.subrange(5, 11);
            let t2 = t1.drop_first();
            let t3 = t2.drop_first();
            assert(text.subrange(0, 5) == pattern);
            assert(t1.subrange(0, 5) != pattern) by {
                assert(t1.subrange(0, 5)[0] == ' ');
            }
            assert(t2.subrange(0, 5) != pattern) by {
                assert(t2.subrange(0, 5)[0] == 'w');
            }
            assert(replaced(t3, pattern, with) == t3);
            assert(replaced(t2, pattern, with) == seq!['w'] + t3);
            assert(replaced(t1, pattern, with) == seq![' '] + (seq!['w'] + t3));
            assert(replaced(text, pattern, with) == with + replaced(t1, pattern, with));
        }
        assert(s@ == "goodbye world"@);
        runtime_assert(s == String::from("goodbye world"));
    }
    {
        let s1: String = String::from("hello ");
        let s2: String = String::from("world");
        let s3: String = s1.concat(s2.as_str());
        proof {
            reveal_strlit("hello ");
            reveal_strlit("world");
            reveal_strlit("hello world");
        }
        assert(s3@ == "hello world"@);
        runtime_assert(s3 == String::from("hello world"));
    }
    {
        let byte_escape: &str = "Ru\x73\x74";
        runtime_assert(byte_escape.eq("Rust"));

        let unicode_codepoint: &str = "\u{211D}";
        runtime_assert(unicode_codepoint.eq("ℝ"));

        let character_name: &str = "\"";
        runtime_assert(character_name.eq("\""));

        let long_string: &str = "One \
                            Two";
        runtime_assert(long_string.eq("One Two"));

        let raw_str: &str = r"http:\";
        runtime_assert(raw_str.eq("http:\\"));

        let quotes: &str = r#" _ "Quote" _ "#;
        runtime_assert(quotes.eq(" _ \"Quote\" _ "));

        let delimiter: &str = r###" _ A string with "##" _ "###;
        runtime_assert(delimiter.eq(" _ A string with \"##\" _ "));
    }
    {
        let dogs: &str = "🐶🐶🐶🐶";
        proof {
            reveal_strlit("🐶🐶🐶🐶");
        }
        runtime_assert(all_chars_are(dogs, '🐶'));
    }
}

/// Arrays: a fixed number of items of one type, with checked access.
pub fn array() {
    broadcast use group_layout_axioms;

    let arr: [i32; 5] = [1, 2, 3, 4, 5];
    runtime_assert(arr.len() == 5);

    let char_arr: [char; 3] = ['a', 'b', 'c'];
    runtime_assert(core::mem::size_of_val::<[char]>(char_arr.as_slice()) == 12);

    let list: [i32; 100] = filled(1);
    runtime_assert(list[37] == 1);
    runtime_assert(list.len() == 100);

    let names: [String; 2] = [String::from("Asaf"), String::from("Nicole")];

    let name0: Option<&String> = lookup(names.as_slice(), 0);
    runtime_assert(name0.is_some());
    if name0.is_some() {
        runtime_assert(name0.unwrap().as_str().eq("Asaf"));
    }

    let name2: Option<&String> = lookup(names.as_slice(), 2);
    runtime_assert(name2.is_none());
}

/// Slices: a borrowed run of items, made of a pointer and a length.
///
/// The one expectation here that no proof can settle is the size of a reference to a
/// slice, which depends on the machine: 16 bytes where a pointer takes 8.
pub fn slice() -> (outcome: Result<(), Mismatch>)
    ensures
        failure(outcome) == size_failure(size_of::<&[char]>() as usize, 16),
{
    {
        let mut a: [i32; 5] = [1, 2, 3, 4, 5];
        runtime_assert(a[1] == 2 && a[2] == 3);
        set_in_window(&mut a, 1, 3, 0, 20);
        runtime_assert(20 == a[1]);
    }
    {
        let arr: [char; 3] = ['中', '国', '人'];
        let sl: &[char] = arr.as_slice();
        runtime_assert(sl.len() == 3);
        expect_size(core::mem::size_of::<&[char]>(), 16)?;
    }
    {
        let s: String = String::from("中国人");
        let text: &str = s.as_str();
        proof {
            reveal_strlit("中国人");
            reveal_strlit("中");
            let chars = "中国人"@;
            let first = chars.subrange(0, 1);
            lemma_byte_range_of_chars(chars, 0, 1);
            assert(byte_offset(chars, 1) == 3) by {
                assert(encode_scalar(first[0] as u32).len() == 3);
                assert(encode_utf8(first.drop_first()).len() == 0);
            }
            assert(first == "中"@);
        }
        let sl: &str = byte_range(text, 0, 3);
        runtime_assert(sl.eq("中"));
    }
    {
        let mut s: String = String::from("hello");
        let text: &str = s.as_str();
        proof {
            reveal_strlit("hello");
            reveal_strlit("h");
            lemma_byte_range_ascii("hello"@, 0, 1);
        }
        let slice0: &str = byte_range(text, 0, 1);
        assert(slice0@ == "h"@);
        runtime_assert(slice0.eq("h"));
        s.clear();
        runtime_assert(s.as_str().is_empty());
    }
    Ok(())
}

/// Tuples.
pub fn tuple() {
}

/// Structs.
pub fn struct_type() {
}

/// Enums.
pub fn enum_type() {
}

} // verus!
