//! Verified exercises on the Rust language.
//!
//! Each chapter of the course is a function of this crate, and the sections of a chapter
//! are the functions of the module that carries the chapter's name. A section walks
//! through a few short examples, each in a scope of its own, and says what it expects of
//! every value it builds.
//!
//! An expectation is written as a call of `runtime_assert`. The verifier proves that the
//! comparison holds before the program is ever run, so an example that verifies cannot
//! fail. The compiled code makes the comparison all the same: a run of the examples then
//! holds the contracts that [`std_contracts`] takes on trust against the standard library
//! as it really behaves.
//!
//! The operations that the examples rest on ([`compound_types::byte_range`],
//! [`compound_types::lookup`], [`basic_types::bit_and`] and the like) are functions of
//! their own, with contracts that hold for every input and not only for the values that
//! the examples pick.

use vstd::layout::size_of;
use vstd::pervasive::runtime_assert;
use vstd::prelude::*;

use crate::mismatch::{failure, Mismatch};

pub mod basic_types;
pub mod compound_types;
pub mod mismatch;
pub mod ownership_and_borrowing;
pub mod std_contracts;

verus! {

/// Bindings: a typed binding, a change in place, shadowing inside a scope, and taking
/// tuples and arrays apart.
pub fn variables() {
    {
        let x: i32 = 5;
        let _y: i32;
        runtime_assert(x == 5);
    }
    {
        let mut x: i32 = 1;
        x += 2;
        runtime_assert(x == 3);
    }
    {
        let x: i32 = 5;
        {
            let x: i32 = 12;
            runtime_assert(x == 12);
        }
        runtime_assert(x == 5);
    }
    {
        let (mut x, y): (i32, i32) = (1, 2);
        x += 2;
        runtime_assert(x == 3);
        runtime_assert(y == 2);
    }
    {
        let (x, ..): (i32, i32) = (3, 4);
        let pair: [i32; 2] = [1, 2];
        let y: i32 = pair[pair.len() - 1];
        let both: [i32; 2] = [x, y];
        runtime_assert(both[0] == 3 && both[1] == 2);
    }
}

/// Basic types. The sections are in [`mod@basic_types`]: numbers; characters, booleans
/// and the unit value; statements and expressions; functions.
pub fn basic_types() {
}

/// Ownership and borrowing. The sections are in [`mod@ownership_and_borrowing`]:
/// ownership; references and borrowing.
pub fn ownership_and_borrowing() {
}

/// Compound types. The sections are in [`mod@compound_types`]: strings, arrays, slices,
/// tuples, structs and enums. The chapter itself runs the section on tuples.
pub fn compound_types() {
    compound_types::tuple();
}

/// Flow control.
pub fn flow_control() {
}

/// Pattern matching: `match`, `matches!` and `if let`; patterns.
pub fn pattern_match() {
}

/// Methods and associated functions.
pub fn method_and_associated_function() {
}

/// Generics and traits: generics, const generics, traits, trait objects, advanced traits.
pub fn generics_and_traits() {
}

/// Collections: strings, vectors and hash maps.
pub fn collection_types() {
}

/// Conversions: `as`, `From` and `Into`, and the others.
pub fn type_conversion() {
}

/// `Result` and `panic!`: panics; `Result` and `?`.
pub fn result_and_panic() {
}

/// Crates and modules: packages and crates, modules, advanced `use` and `pub`.
pub fn crate_and_module() {
}

/// Comments and documentation.
pub fn comments_and_docs() {
}

/// Formatted output: `println!` and `format!`, `Debug` and `Display`, formatting.
pub fn formatted_output() {
}

/// Lifetimes: the basics, `'static` and `T: 'static`, advanced lifetimes.
pub fn lifetime() {
}

/// Functional programming: closures and iterators.
pub fn functional_programming() {
}

/// Newtypes and dynamically sized types.
pub fn newtype_and_dst() {
}

/// Smart pointers: `Box`, `Deref`, `Drop`, `Rc` and `Arc`, `Cell` and `RefCell`.
pub fn smart_pointers() {
}

/// Weak references and reference cycles.
pub fn weak_and_circle_reference() {
}

/// Self-referential values.
pub fn self_referential() {
}

/// Threads: basic use, message passing, synchronisation, atomics, `Send` and `Sync`.
pub fn threads() {
}

/// Global variables.
pub fn global_variables() {
}

/// Errors.
pub fn errors() {
}

/// Code outside the compiler's guarantees: inline assembly.
pub fn unsafe_doing() {
}

/// Macros.
pub fn macro_todo() {
}

/// Tests: writing tests, benchmarks, unit and integration tests, assertions.
pub fn tests() {
}

/// Asynchronous code: `async` and `await`, futures, `Pin` and `Unpin`, streams.
pub fn async_await() {
}

/// The standard library: the string library.
pub fn standard_library() {
}

/// Fighting with the compiler: borrowing.
pub fn fighting_with_compiler() {
}

/// Every example runs to its end wherever it is called from. None asks anything of its
/// caller, and what a verified function expects along the way has been proved before the
/// program ever runs. Of the two examples that return an outcome, `numbers` passes when
/// the compiler calls the type `u32`, and `slice` passes on a machine whose references to
/// slices take 16 bytes.
pub proof fn lemma_examples_cannot_fail(name_of_u32: &str, outcome: Result<(), Mismatch>)
    ensures
        call_requires(variables, ()),
        call_requires(basic_types::numbers, (name_of_u32,)),
        call_requires(basic_types::char_bool_and_unit, ()),
        call_requires(basic_types::statements_and_expressions, ()),
        call_requires(basic_types::functions, ()),
        call_requires(ownership_and_borrowing::ownership, ()),
        call_requires(ownership_and_borrowing::reference_and_borrowing, ()),
        call_requires(compound_types::string, ()),
        call_requires(compound_types::array, ()),
        call_requires(compound_types::slice, ()),
        call_requires(compound_types::tuple, ()),
        call_requires(compound_types::struct_type, ()),
        call_requires(compound_types::enum_type, ()),
        name_of_u32@ == "u32"@ && call_ensures(basic_types::numbers, (name_of_u32,), outcome)
            ==> outcome is Ok,
        size_of::<&[char]>() == 16 && call_ensures(compound_types::slice, (), outcome)
            ==> outcome is Ok,
{
}

/// Running an example again ends as the first run did, since no example keeps anything
/// from one run to the next. Most examples return the unit value and cannot fail at all.
/// The two that compare against the compiler or the machine return what that comparison
/// led to, and their contracts leave no choice in it: whatever two runs return, on the
/// same name for `numbers` and on the same machine for `slice`, is the same outcome.
pub proof fn lemma_rerun_same_outcome(
    name_of_u32: &str,
    first: Result<(), Mismatch>,
    second: Result<(), Mismatch>,
)
    ensures
        call_ensures(basic_types::numbers, (name_of_u32,), first) && call_ensures(
            basic_types::numbers,
            (name_of_u32,),
            second,
        ) ==> failure(first) == failure(second),
        call_ensures(compound_types::slice, (), first) && call_ensures(
            compound_types::slice,
            (),
            second,
        ) ==> failure(first) == failure(second),
{
}

} // verus!
