//! Who owns a value, and how it is lent out.

use vstd::pervasive::runtime_assert;
use vstd::prelude::*;
use vstd::string::*;

use crate::std_contracts::get_addr;

verus! {

/// A person whose fields both live on the heap.
pub struct Person {
    pub name: String,
    pub age: Box<u8>,
}

/// Appends `", world"` to the text it is lent.
pub fn change(some_string: &mut String)
    ensures
        final(some_string)@ == old(some_string)@ + ", world"@,
{
    some_string.push_str(", world");
}

/// A clone is a second value with the same contents; the first stays usable.
pub fn ownership() {
    {
        let x: String = String::from("hello");
        let y: String = x.clone();
        runtime_assert(x == y);
    }
}

/// Shared and exclusive borrows, moves that change mutability, boxes, and a move out of
/// one field of a struct while another is only borrowed.
pub fn reference_and_borrowing() {
    {
        let s: String = String::from("hello");
        let text: &str = s.as_str();
        let bytes: &[u8] = text.as_bytes();
        proof {
            reveal_strlit("hello");
            is_ascii_spec_bytes(text);
        }
        runtime_assert(String::from("hello") == s);
        assert(bytes@ == seq![104u8, 101u8, 108u8, 108u8, 111u8]);
        runtime_assert(bytes.len() == 5);
        runtime_assert(
            bytes[0] == 104 && bytes[1] == 101 && bytes[2] == 108 && bytes[3] == 108 && bytes[4]
                == 111,
        );
    }
    {
        let x: (i32, i32, (), &str) = (1, 2, (), "hello");
        let y: (i32, i32, (), &str) = x;
        assert(x == y);
        runtime_assert(x.0 == y.0 && x.1 == y.1 && x.3.eq(y.3));
    }
    {
        let s: String = String::from("hello ");
        let mut s1: String = s;
        s1.push_str("world");
        proof {
            reveal_strlit("hello ");
            reveal_strlit("world");
            reveal_strlit("hello world");
        }
        assert(s1@ == "hello world"@);
        runtime_assert(s1 == String::from("hello world"));
    }
    {
        let x: Box<i32> = Box::new(5);
        let mut y: Box<i32> = Box::new(1);
        *y = 5;
        runtime_assert(*x == *y);
    }
    {
        let person: Person = Person { name: String::from("Alice"), age: Box::new(20) };
        let Person { name, ref age } = person;
        runtime_assert(**age == *person.age);
        runtime_assert(name == String::from("Alice"));
    }
    {
        let mut s: String = String::from("hello");
        change(&mut s);
        proof {
            reveal_strlit("hello");
            reveal_strlit(", world");
            reveal_strlit("hello, world");
        }
        assert(s@ == "hello, world"@);
        runtime_assert(s == String::from("hello, world"));
    }
    {
        let x: i32 = 5;
        let p: &i32 = &x;
        runtime_assert(5 == *p);
    }
    {
        let mut s: String = String::from("hello");
        let p: &mut String = &mut s;
        p.push_str(", world");
        proof {
            reveal_strlit("hello");
            reveal_strlit(", world");
            reveal_strlit("hello, world");
        }
        assert(s@ == "hello, world"@);
        runtime_assert(s == String::from("hello, world"));
    }
    {
        let c: char = '❤';
        let r1: &char = &c;
        let ref r2 = c;
        runtime_assert(*r1 == *r2);
        let first: () = get_addr(r1);
        let second: () = get_addr(r2);
        assert(first == second);
    }
}

} // verus!
