//! The type-erased value that function pointers carry and move around.

use vstd::prelude::*;

verus! {

/// Mathematical value of a [`Dynamic`]: which kind of value the container
/// holds and what it is, with strings abstracted to character sequences.
pub enum DynView {
    Unit,
    Bool(bool),
    Int(int),
    Str(Seq<char>),
}

/// The runtime type of a [`Dynamic`] value: the identity used to tell
/// overloads apart and to check what a typed call produced.
#[derive(Clone, Copy, Debug, PartialEq, Eq, Structural)]
pub enum TypeTag {
    Unit,
    Bool,
    Int,
    Str,
}

/// A type-erased value as passed between host code and a callee. The
/// dispatch core moves these containers around without inspecting them;
/// `Unit` doubles as the placeholder left behind when a call consumes an
/// argument slot.
#[derive(Debug, PartialEq)]
pub enum Dynamic {
    Unit,
    Bool(bool),
    Int(i64),
    Str(String),
}

impl View for Dynamic {
    type V = DynView;

    open spec fn view(&self) -> DynView {
        match self {
            Dynamic::Unit => DynView::Unit,
            Dynamic::Bool(b) => DynView::Bool(*b),
            Dynamic::Int(i) => DynView::Int(*i as int),
            Dynamic::Str(s) => DynView::Str(s@),
        }
    }
}

impl DeepView for Dynamic {
    type V = DynView;

    open spec fn deep_view(&self) -> DynView {
        self@
    }
}

/// The runtime type of a value.
pub open spec fn spec_type_tag(v: DynView) -> TypeTag {
    match v {
        DynView::Unit => TypeTag::Unit,
        DynView::Bool(_) => TypeTag::Bool,
        DynView::Int(_) => TypeTag::Int,
        DynView::Str(_) => TypeTag::Str,
    }
}

/// The stable in-process identity token of a type, as folded into a
/// parameter-types key by [`crate::hashing::calc_fn_params_hash`]. Distinct
/// types have distinct tokens.
pub open spec fn spec_type_token(t: TypeTag) -> u64 {
    match t {
        TypeTag::Unit => 1,
        TypeTag::Bool => 2,
        TypeTag::Int => 3,
        TypeTag::Str => 4,
    }
}

impl TypeTag {
    /// The identity token of this type, computed once per type rather than
    /// by hashing a type name on every call.
    pub fn type_token(&self) -> (t: u64)
        ensures
            t == spec_type_token(*self),
    {
        match self {
            TypeTag::Unit => 1,
            TypeTag::Bool => 2,
            TypeTag::Int => 3,
            TypeTag::Str => 4,
        }
    }
}

impl Dynamic {
    /// The runtime type of this value.
    pub fn type_tag(&self) -> (t: TypeTag)
        ensures
            t == spec_type_tag(self@),
    {
        match self {
            Dynamic::Unit => TypeTag::Unit,
            Dynamic::Bool(_) => TypeTag::Bool,
            Dynamic::Int(_) => TypeTag::Int,
            Dynamic::Str(_) => TypeTag::Str,
        }
    }

    /// Attempted downcast: the value comes back unchanged when its runtime
    /// type is `expected`, and is refused otherwise.
    pub fn try_cast(self, expected: TypeTag) -> (r: Option<Dynamic>)
        ensures
            spec_type_tag(self@) == expected ==> r == Some(self),
            spec_type_tag(self@) != expected ==> r is None,
    {
        if self.type_tag() == expected {
            Some(self)
        } else {
            None
        }
    }
}

impl Clone for Dynamic {
    /// A clone carries the same value: same kind, same contents.
    fn clone(&self) -> (res: Self)
        ensures
            res@ == self@,
    {
        match self {
            Dynamic::Unit => Dynamic::Unit,
            Dynamic::Bool(b) => Dynamic::Bool(*b),
            Dynamic::Int(i) => Dynamic::Int(*i),
            Dynamic::Str(s) => Dynamic::Str(s.clone()),
        }
    }
}

} // verus!
