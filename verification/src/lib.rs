//! Function-dispatch core of an embeddable scripting engine.
//!
//! The crate turns a call site — namespace path, name, argument count and
//! parameter types — into a stable 64-bit lookup key ([`hashing`]), and
//! offers a first-class function-pointer value ([`fn_ptr::FnPtr`]) that
//! carries a callee name with curried arguments and invokes it through a
//! caller-supplied dispatch context. Module resolution is a pluggable
//! strategy ([`resolver`]) with a disabled default that refuses every path.

pub mod dynamic;
pub mod error;
pub mod fn_ptr;
pub mod hashing;
pub mod resolver;
