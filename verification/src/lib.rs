//! Regular expressions compiled ahead of time into automata that a program
//! embeds as bytes and searches with at no start-up cost.
//!
//! [`compile`] turns a pattern into serialized automata, [`wire`] inspects
//! the header of a serialized automaton, and [`search`] decodes automata in
//! place and finds matches with them. [`input`] reads the argument list of
//! an embedding request. [`engine`] is the boundary to the automaton engine.

use vstd::prelude::*;

pub mod compile;
pub mod engine;
pub mod input;
pub mod search;
pub mod wire;

verus! {

/// Does nothing. It stands where the documentation shows that a build of the
/// engine for searching alone offers no way to compile a pattern.
pub fn doc_test() {
}

} // verus!
