//! The failure conditions of the dispatch core.

use vstd::prelude::*;
use crate::dynamic::{Dynamic, TypeTag};

verus! {

/// A location in a script's source text. Line `0` stands for "no
/// position", the placeholder carried by errors raised outside any script.
#[derive(Clone, Copy, Debug, PartialEq, Eq, Structural)]
pub struct Position {
    pub line: usize,
    pub position: usize,
}

impl Position {
    /// The "no position" placeholder.
    pub fn none() -> (p: Position)
        ensures
            p == (Position { line: 0, position: 0 }),
    {
        Position { line: 0, position: 0 }
    }
}

/// Everything that can go wrong in the dispatch core. No error is ever
/// swallowed or retried here: each fallible operation returns one of these
/// explicitly, and errors raised inside an invoked function pass through
/// every call layer unchanged, keeping their original position.
#[derive(Debug, PartialEq)]
pub enum EvalError {
    /// The name given when constructing a function pointer is not a legal
    /// identifier. Terminal: construction is checked once and not retried.
    InvalidFunctionName(String, Position),
    /// No callee matches the resolved signature.
    FunctionNotFound(String, Position),
    /// A typed call produced a value that cannot be downcast to the
    /// requested type: expected, then actual.
    MismatchOutputType(TypeTag, TypeTag, Position),
    /// The module-resolution strategy declined or failed to produce a
    /// namespace for the given path.
    ModuleNotFound(String, Position),
    /// An error value raised inside an invoked function, passed through.
    Runtime(Dynamic, Position),
}

} // verus!
