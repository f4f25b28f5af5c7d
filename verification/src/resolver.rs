//! The pluggable module-resolution strategy.

use vstd::prelude::*;
use crate::error::{EvalError, Position};

verus! {

/// A loaded namespace module. In this core a module is only ever carried
/// through the resolution interface, never built or inspected.
#[derive(Debug)]
pub struct Module;

/// The embedding's scripting engine, as handed through to a resolution
/// strategy. Opaque here: this core never looks inside it; a strategy may
/// draw configuration from it.
#[derive(Debug)]
pub struct Engine;

/// The module-resolution protocol: turn a namespace path into a loaded
/// module, or fail with [`EvalError::ModuleNotFound`]. Embeddings install
/// the strategy of their choice; the dispatch core never cares which.
pub trait ModuleResolver {
    /// Resolve `path`, optionally relative to the module loaded from
    /// `source_path`, for the given engine, reporting failures at
    /// position `pos`.
    fn resolve(&self, engine: &Engine, source_path: Option<&str>, path: &str, pos: Position) -> Result<
        std::rc::Rc<Module>,
        EvalError,
    >;
}

/// Empty/disabled module resolution service that acts as a dummy: every
/// lookup fails. This is the default posture for embeddings that forbid
/// dynamic external module loading.
#[derive(Debug, Clone, Copy, PartialEq, Eq, Structural, Hash, Default)]
pub struct DummyModuleResolver;

impl DummyModuleResolver {
    /// Create a new dummy resolver.
    pub fn new() -> (r: Self)
        ensures
            r == DummyModuleResolver,
    {
        DummyModuleResolver
    }
}

impl ModuleResolver for DummyModuleResolver {
    /// Always declines: resolution fails with `ModuleNotFound` for the
    /// requested path, at the call's position.
    fn resolve(&self, engine: &Engine, source_path: Option<&str>, path: &str, pos: Position) -> (r:
        Result<std::rc::Rc<Module>, EvalError>)
        ensures
            r matches Err(EvalError::ModuleNotFound(p, q)) && p@ == path@ && q == pos,
    {
        Err(EvalError::ModuleNotFound(path.to_owned(), pos))
    }
}

} // verus!
