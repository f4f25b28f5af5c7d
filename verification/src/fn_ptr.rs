//! The `FnPtr` type: a callee name with curried arguments, and its call
//! protocol.

use vstd::pervasive::VecAdditionalExecFns;
use vstd::prelude::*;
use vstd::string::*;
use crate::dynamic::{spec_type_tag, Dynamic, DynView, TypeTag};
use crate::error::{EvalError, Position};

verus! {

/// Does an identifier scan accept the rest of `s`, given whether a letter
/// has been seen yet? Underscores may appear anywhere; the first other
/// character must be an ASCII letter; once a letter has been seen, ASCII
/// letters and digits are accepted; an empty rest is accepted exactly when
/// a letter occurred.
pub open spec fn spec_ident_from(s: Seq<char>, seen_letter: bool) -> bool
    decreases s.len(),
{
    if s.len() == 0 {
        seen_letter
    } else {
        let c = s[0];
        if c == '_' {
            spec_ident_from(s.drop_first(), seen_letter)
        } else if spec_is_ascii_letter(c) {
            spec_ident_from(s.drop_first(), true)
        } else if !seen_letter {
            false
        } else if spec_is_ascii_digit(c) {
            spec_ident_from(s.drop_first(), seen_letter)
        } else {
            false
        }
    }
}

/// Is `c` an ASCII letter?
pub open spec fn spec_is_ascii_letter(c: char) -> bool {
    ('a' as u32) <= (c as u32) <= ('z' as u32) || ('A' as u32) <= (c as u32) <= ('Z' as u32)
}

/// Is `c` an ASCII digit?
pub open spec fn spec_is_ascii_digit(c: char) -> bool {
    ('0' as u32) <= (c as u32) <= ('9' as u32)
}

/// Is `s` a legal identifier?
pub open spec fn spec_is_valid_identifier(s: Seq<char>) -> bool {
    spec_ident_from(s, false)
}

/// Is `name` a legal identifier: underscores anywhere, the first other
/// character an ASCII letter, later characters ASCII letters or digits,
/// and at least one letter present?
pub fn is_valid_identifier(name: &str) -> (valid: bool)
    ensures
        valid == spec_is_valid_identifier(name@),
{
    let n = name.unicode_len();
    let mut seen_letter = false;
    let mut i: usize = 0;
    proof {
        assert(name@.skip(0) =~= name@);
    }
    while i < n
        invariant
            i <= n,
            n == name@.len(),
            spec_is_valid_identifier(name@) == spec_ident_from(name@.skip(i as int), seen_letter),
        decreases n - i,
    {
        let c = name.get_char(i);
        proof {
            assert(name@.skip(i as int)[0] == c);
            assert(name@.skip(i as int).drop_first() =~= name@.skip(i + 1));
        }
        let u = c as u32;
        if u == 95 {
            // an underscore is accepted anywhere
        } else if (97 <= u && u <= 122) || (65 <= u && u <= 90) {
            seen_letter = true;
        } else if !seen_letter {
            return false;
        } else if 48 <= u && u <= 57 {
            // a digit is accepted once a letter has been seen
        } else {
            return false;
        }
        i = i + 1;
    }
    proof {
        assert(name@.skip(n as int) =~= Seq::<char>::empty());
    }
    seen_letter
}

/// Mathematical value of a [`FnPtr`]: the callee name and the curried
/// values, in the order they will be passed.
pub struct FnPtrView {
    pub name: Seq<char>,
    pub curry: Seq<DynView>,
}

/// A general function pointer, which may carry additional (i.e. curried)
/// argument values to be passed onto a function during a call.
#[derive(Debug)]
pub struct FnPtr {
    name: String,
    curry: Vec<Dynamic>,
}

impl View for FnPtr {
    type V = FnPtrView;

    closed spec fn view(&self) -> FnPtrView {
        FnPtrView { name: self.name@, curry: self.curry.deep_view() }
    }
}

impl FnPtr {
    /// Create a new function pointer, validating the name once. An invalid
    /// name fails with `InvalidFunctionName`; the failure is terminal, not
    /// retried.
    pub fn new(name: &str) -> (r: Result<FnPtr, EvalError>)
        ensures
            spec_is_valid_identifier(name@) ==> (r matches Ok(p) && p@.name == name@ && p@.curry
                =~= Seq::<DynView>::empty()),
            !spec_is_valid_identifier(name@) ==> (r matches Err(
                EvalError::InvalidFunctionName(bad, pos),
            ) && bad@ == name@ && pos == (Position { line: 0, position: 0 })),
    {
        if is_valid_identifier(name) {
            let p = FnPtr { name: name.to_owned(), curry: Vec::new() };
            proof {
                assert(p@.curry =~= Seq::<DynView>::empty());
            }
            Ok(p)
        } else {
            Err(EvalError::InvalidFunctionName(name.to_owned(), Position { line: 0, position: 0 }))
        }
    }

    /// Create a new function pointer without checking the name: for
    /// callers that have already validated it, or that synthesized it (an
    /// anonymous function's reserved name is not a legal identifier).
    pub fn new_unchecked(name: String, curry: Vec<Dynamic>) -> (p: FnPtr)
        ensures
            p@.name == name@,
            p@.curry == curry.deep_view(),
    {
        FnPtr { name, curry }
    }

    /// Get the name of the function.
    pub fn fn_name(&self) -> (r: &str)
        ensures
            r@ == self@.name,
    {
        self.fn_name_raw().as_str()
    }

    /// Get the name of the function.
    pub fn fn_name_raw(&self) -> (r: &String)
        ensures
            r@ == self@.name,
    {
        &self.name
    }

    /// Get the underlying data of the function pointer.
    pub fn take_data(self) -> (r: (String, Vec<Dynamic>))
        ensures
            r.0@ == self@.name,
            r.1.deep_view() == self@.curry,
    {
        (self.name, self.curry)
    }

    /// Get the curried arguments.
    pub fn curry(&self) -> (r: &[Dynamic])
        ensures
            r.deep_view() == self@.curry,
    {
        let r = self.curry.as_slice();
        proof {
            assert(r.deep_view() =~= self.curry.deep_view());
        }
        r
    }

    /// Add a new curried argument.
    pub fn add_curry(&mut self, value: Dynamic)
        ensures
            final(self)@.name == old(self)@.name,
            final(self)@.curry == old(self)@.curry.push(value@),
    {
        self.curry.push(value);
        proof {
            assert(final(self)@.curry =~= old(self)@.curry.push(value@));
        }
    }

    /// Set curried arguments to the function pointer, replacing the whole
    /// list and preserving the order of the input.
    pub fn set_curry(&mut self, values: Vec<Dynamic>)
        ensures
            final(self)@.name == old(self)@.name,
            final(self)@.curry == values.deep_view(),
    {
        self.curry = values;
    }

    /// Is the function pointer curried?
    pub fn is_curried(&self) -> (r: bool)
        ensures
            r == (self@.curry.len() > 0),
    {
        !self.curry.is_empty()
    }

    /// Get the number of curried arguments.
    pub fn num_curried(&self) -> (r: usize)
        ensures
            r == self@.curry.len(),
    {
        self.curry.len()
    }

    /// The textual form of the pointer for diagnostics and value
    /// printing: `Fn(<name>)`. Not a parseable format; the curried values
    /// are visible through the debug form instead.
    pub fn to_display_string(&self) -> (r: String)
        ensures
            r@ == "Fn("@ + self@.name + ")"@,
    {
        let mut r = "Fn(".to_owned();
        r.append(self.name.as_str());
        r.append(")");
        proof {
            assert(r@ =~= "Fn("@ + self@.name + ")"@);
        }
        r
    }

    /// Does the function pointer refer to an anonymous function? True when
    /// the name carries the engine's reserved anonymous-function prefix,
    /// so callers can surface a synthetic rather than user-given name in
    /// diagnostics.
    pub fn is_anonymous(&self) -> (r: bool)
        ensures
            r == spec_is_anonymous(self@.name),
    {
        proof {
            reveal_strlit("anon$");
        }
        let s: &str = self.name.as_str();
        let n = s.unicode_len();
        if n < 5 {
            return false;
        }
        let r = s.get_char(0) == 'a' && s.get_char(1) == 'n' && s.get_char(2) == 'o' && s.get_char(
            3,
        ) == 'n' && s.get_char(4) == '$';
        proof {
            if r {
                assert(self@.name.take(5) =~= "anon$"@);
            } else {
                if self@.name.take(5) == "anon$"@ {
                    assert(self@.name[0] == self@.name.take(5)[0]);
                    assert(self@.name[1] == self@.name.take(5)[1]);
                    assert(self@.name[2] == self@.name.take(5)[2]);
                    assert(self@.name[3] == self@.name.take(5)[3]);
                    assert(self@.name[4] == self@.name.take(5)[4]);
                }
            }
        }
        r
    }

    /// Build the real argument list for a raw call: a supplied receiver
    /// goes first and turns the call method-style, the curried values are
    /// cloned in next, and the call-site arguments follow — consumed, each
    /// slot left holding a unit placeholder.
    pub fn build_call_args(&self, this_ptr: Option<Dynamic>, arg_values: &mut Vec<Dynamic>) -> (r:
        (bool, Vec<Dynamic>))
        ensures
            r.0 == (this_ptr is Some),
            r.1.deep_view() == spec_call_args(
                this_ptr.deep_view(),
                self@.curry,
                old(arg_values).deep_view(),
            ),
            final(arg_values).len() == old(arg_values).len(),
            forall|i: int|
                0 <= i < final(arg_values).len() ==> final(arg_values).deep_view()[i] is Unit,
    {
        let ghost curried = self@.curry;
        let ghost given = old(arg_values).deep_view();
        let is_method = this_ptr.is_some();
        let mut args: Vec<Dynamic> = Vec::new();
        if let Some(obj) = this_ptr {
            args.push(obj);
        }
        let ghost head = args.deep_view();
        let mut i: usize = 0;
        while i < self.curry.len()
            invariant
                i <= self.curry.len(),
                curried == self@.curry,
                curried.len() == self.curry.len(),
                args.deep_view() == head + curried.take(i as int),
            decreases self.curry.len() - i,
        {
            let ghost before = args.deep_view();
            let c = self.curry[i].clone();
            args.push(c);
            proof {
                assert(args.deep_view() =~~= before.push(c@));
                assert(before.push(c@) =~= head + curried.take(i + 1));
            }
            i = i + 1;
        }
        proof {
            assert(curried.take(curried.len() as int) =~= curried);
        }
        let mut j: usize = 0;
        while j < arg_values.len()
            invariant
                j <= arg_values.len(),
                arg_values.len() == given.len(),
                args.deep_view() == head + curried + given.take(j as int),
                forall|k: int| 0 <= k < j ==> arg_values.deep_view()[k] is Unit,
                forall|k: int|
                    j <= k < given.len() ==> arg_values.deep_view()[k] == given[k],
            decreases arg_values.len() - j,
        {
            let ghost before_args = args.deep_view();
            let ghost before_slots = arg_values.deep_view();
            let mut taken = Dynamic::Unit;
            arg_values.set_and_swap(j, &mut taken);
            proof {
                assert(before_slots[j as int] == given[j as int]);
                assert(taken@ == before_slots[j as int]);
                assert(arg_values.deep_view() =~~= before_slots.update(
                    j as int,
                    DynView::Unit,
                ));
            }
            args.push(taken);
            proof {
                assert(args.deep_view() =~~= before_args.push(taken@));
                assert(before_args.push(taken@) =~= head + curried + given.take(j + 1));
            }
            j = j + 1;
        }
        proof {
            assert(given.take(given.len() as int) =~= given);
            if this_ptr is Some {
                assert(args.deep_view() =~= spec_call_args(this_ptr.deep_view(), curried, given));
            } else {
                assert(head =~= Seq::<DynView>::empty());
                assert(args.deep_view() =~= spec_call_args(this_ptr.deep_view(), curried, given));
            }
        }
        (is_method, args)
    }

    /// Call the function pointer with curried arguments (if any), routing
    /// the call through `context` — the low-level primitive of the call
    /// protocol.
    ///
    /// The call-site argument slots are _consumed_: each is left holding a
    /// unit placeholder, so that values need not be cloned. Callers that
    /// need an argument afterwards must clone it before calling. A
    /// supplied receiver is prepended and flags the call method-style, so
    /// the dispatch treats the first slot as the callee's `this` and may
    /// mutate it; the slot is written back into `this_ptr` after the call,
    /// so the caller sees the mutation. Whatever the context returns —
    /// result or error — is handed back unchanged.
    pub fn call_raw<C: CallContext>(
        &self,
        context: &mut C,
        this_ptr: &mut Option<Dynamic>,
        arg_values: &mut Vec<Dynamic>,
    ) -> (r: Result<Dynamic, EvalError>)
        ensures
            final(arg_values).len() == old(arg_values).len(),
            forall|i: int|
                0 <= i < final(arg_values).len() ==> final(arg_values).deep_view()[i] is Unit,
            ((*final(this_ptr)) is Some) == ((*old(this_ptr)) is Some),
    {
        let receiver = this_ptr.take();
        let (is_method, mut args) = self.build_call_args(receiver, arg_values);
        let result = context.call_fn_raw(self.fn_name(), is_method, is_method, &mut args);
        if is_method {
            // hand the receiver slot back, so its mutation reaches the
            // caller; a dispatch that emptied the list leaves a unit
            let mut first = Dynamic::Unit;
            if args.len() > 0 {
                args.set_and_swap(0, &mut first);
            }
            *this_ptr = Some(first);
        }
        result
    }

    /// Call the function pointer with curried arguments (if any), as a
    /// top-level call: `context` stands for a fresh invocation environment
    /// derived from the embedding's engine and compiled program. The
    /// produced value must downcast to `expected`, else the call fails
    /// with `MismatchOutputType`; what comes back for each dispatch
    /// outcome is fixed by [`finish_typed_call`].
    pub fn call<C: CallContext>(
        &self,
        context: &mut C,
        expected: TypeTag,
        args: Vec<Dynamic>,
    ) -> (r: Result<Dynamic, EvalError>)
        ensures
            r matches Ok(v) ==> spec_type_tag(v@) == expected,
    {
        self.call_within_context(context, expected, args)
    }

    /// Call the function pointer with curried arguments (if any), reusing
    /// an already-active invocation environment — the re-entrant path for
    /// native code that received the pointer as an argument. The produced
    /// value must downcast to `expected`, else the call fails with
    /// `MismatchOutputType`; what comes back for each dispatch outcome is
    /// fixed by [`finish_typed_call`].
    pub fn call_within_context<C: CallContext>(
        &self,
        context: &mut C,
        expected: TypeTag,
        args: Vec<Dynamic>,
    ) -> (r: Result<Dynamic, EvalError>)
        ensures
            r matches Ok(v) ==> spec_type_tag(v@) == expected,
    {
        let mut arg_values = args;
        let mut no_receiver: Option<Dynamic> = None;
        let result = self.call_raw(context, &mut no_receiver, &mut arg_values);
        finish_typed_call(result, expected)
    }
}

/// The typed half of a call: what a typed call returns once the dispatch
/// has come back. A produced value of the expected type is returned as it
/// is; one of any other type becomes `MismatchOutputType`, naming the
/// expected and the actual type; an error raised by the dispatch or inside
/// the callee passes through unchanged.
pub fn finish_typed_call(result: Result<Dynamic, EvalError>, expected: TypeTag) -> (r: Result<
    Dynamic,
    EvalError,
>)
    ensures
        result matches Ok(v) ==> (spec_type_tag(v@) == expected ==> r == result),
        result matches Ok(v) ==> (spec_type_tag(v@) != expected ==> r == Err::<
            Dynamic,
            EvalError,
        >(
            EvalError::MismatchOutputType(
                expected,
                spec_type_tag(v@),
                Position { line: 0, position: 0 },
            ),
        )),
        result matches Err(e) ==> r == Err::<Dynamic, EvalError>(e),
{
    match result {
        Ok(value) => {
            let actual = value.type_tag();
            match value.try_cast(expected) {
                Some(v) => Ok(v),
                None => Err(
                    EvalError::MismatchOutputType(
                        expected,
                        actual,
                        Position { line: 0, position: 0 },
                    ),
                ),
            }
        },
        Err(e) => Err(e),
    }
}

impl Clone for FnPtr {
    /// A clone is the same pointer: same name, same curried values.
    fn clone(&self) -> (res: Self)
        ensures
            res@ == self@,
    {
        let mut curry: Vec<Dynamic> = Vec::new();
        let mut i: usize = 0;
        while i < self.curry.len()
            invariant
                i <= self.curry.len(),
                curry.deep_view() == self.curry.deep_view().take(i as int),
            decreases self.curry.len() - i,
        {
            let ghost before = curry.deep_view();
            let c = self.curry[i].clone();
            curry.push(c);
            proof {
                assert(curry.deep_view() =~~= before.push(c@));
                assert(before.push(c@) =~= self.curry.deep_view().take(i + 1));
            }
            i = i + 1;
        }
        proof {
            assert(self.curry.deep_view().take(self.curry.deep_view().len() as int)
                =~= self.curry.deep_view());
        }
        FnPtr { name: self.name.clone(), curry }
    }
}

/// Does `name` carry the engine's reserved anonymous-function prefix?
pub open spec fn spec_is_anonymous(name: Seq<char>) -> bool {
    name.len() >= "anon$"@.len() && name.take("anon$"@.len() as int) == "anon$"@
}

/// The argument list a raw call hands to its context: the receiver first
/// when one is supplied, then the curried values in order, then the
/// call-site arguments in order.
pub open spec fn spec_call_args(
    receiver: Option<DynView>,
    curried: Seq<DynView>,
    args: Seq<DynView>,
) -> Seq<DynView> {
    match receiver {
        Some(r) => seq![r] + curried + args,
        None => curried + args,
    }
}

/// The active invocation environment a function pointer defers to: the
/// engine-side dispatch that resolves a callee by name and runs it.
///
/// `args` is the finished argument list; the callee may read and mutate
/// it, and when `is_method_call` is set the first slot is the method's
/// `this` value, mutable in place when `allow_mutation_of_first_arg` is
/// also set. No contract constrains an implementation: a dispatch may
/// return any value or any error, and the call protocol promises nothing
/// about what comes back.
pub trait CallContext {
    /// Dispatch a call to the function named `fn_name`.
    fn call_fn_raw(
        &mut self,
        fn_name: &str,
        is_method_call: bool,
        allow_mutation_of_first_arg: bool,
        args: &mut Vec<Dynamic>,
    ) -> Result<Dynamic, EvalError>;
}

} // verus!
