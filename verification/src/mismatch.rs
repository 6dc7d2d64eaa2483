//! The one way an example can fail: two values that should agree do not.
//!
//! Almost every comparison in this crate is settled by the verifier. A few compare against
//! what the compiler or the machine reports (the name it gives a type, the size of a wide
//! reference), and no proof can settle those. They are made when the program runs, and a
//! disagreement is handed back to the caller as a [`Mismatch`].

use vstd::prelude::*;

verus! {

/// Two values that were expected to be equal and were not: the left one, then the right
/// one.
#[derive(Debug, PartialEq, Eq)]
pub enum Mismatch {
    /// Two texts differ.
    Text(String, String),
    /// Two sizes in bytes differ.
    Size(usize, usize),
}

/// What a [`Mismatch`] holds, with each text as its sequence of characters.
pub enum MismatchView {
    /// Two texts differ.
    Text(Seq<char>, Seq<char>),
    /// Two sizes in bytes differ.
    Size(usize, usize),
}

impl View for Mismatch {
    type V = MismatchView;

    open spec fn view(&self) -> MismatchView {
        match self {
            Mismatch::Text(left, right) => MismatchView::Text(left@, right@),
            Mismatch::Size(left, right) => MismatchView::Size(*left, *right),
        }
    }
}

/// How a run ended, with any mismatch as its view: `None` for a run that went through.
pub open spec fn failure(outcome: Result<(), Mismatch>) -> Option<MismatchView> {
    match outcome {
        Ok(_) => None,
        Err(mismatch) => Some(mismatch@),
    }
}

/// What comparing the texts `left` and `right` leads to.
pub open spec fn text_failure(left: Seq<char>, right: Seq<char>) -> Option<MismatchView> {
    if left == right {
        None
    } else {
        Some(MismatchView::Text(left, right))
    }
}

/// What comparing the sizes `left` and `right` leads to.
pub open spec fn size_failure(left: usize, right: usize) -> Option<MismatchView> {
    if left == right {
        None
    } else {
        Some(MismatchView::Size(left, right))
    }
}

/// Compares two texts: `Ok` when they hold the same characters, else the two of them.
pub fn expect_text(left: String, right: String) -> (outcome: Result<(), Mismatch>)
    ensures
        failure(outcome) == text_failure(left@, right@),
{
    if left == right {
        Ok(())
    } else {
        Err(Mismatch::Text(left, right))
    }
}

/// Compares two sizes: `Ok` when they are the same number, else the two of them.
pub fn expect_size(left: usize, right: usize) -> (outcome: Result<(), Mismatch>)
    ensures
        failure(outcome) == size_failure(left, right),
{
    if left == right {
        Ok(())
    } else {
        Err(Mismatch::Size(left, right))
    }
}

} // verus!
