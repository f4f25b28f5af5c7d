//! Utilities to hash functions and function calls into 64-bit lookup keys.
//!
//! The keys are pure functions of their inputs: identical path, name and
//! arity always give the identical key within one process. They are
//! in-memory lookup keys only, never a wire or file format.

use std::collections::hash_map::DefaultHasher;
use std::hash::Hasher;
use vstd::bytes::{
    lemma_auto_spec_u64_to_from_le_bytes, spec_u64_from_le_bytes, spec_u64_to_le_bytes,
    u64_from_le_bytes, u64_to_le_bytes,
};
use vstd::prelude::*;
use vstd::std_specs::hash::DefaultHasherAdditionalSpecFns;
use vstd::utf8::encode_utf8;

verus! {

/// The write calls that hashing a namespace path contributes: one write
/// per segment, with the first segment always skipped. Each write is the
/// segment's UTF-8 bytes followed by a terminator byte that no UTF-8
/// text contains, so adjacent segments cannot run together in the byte
/// stream and redraw their boundary.
pub open spec fn spec_path_writes(modules: Seq<Seq<char>>) -> Seq<Seq<u8>> {
    if modules.len() == 0 {
        Seq::empty()
    } else {
        modules.skip(1).map_values(|m: Seq<char>| encode_utf8(m).push(0xff))
    }
}

/// How many path segments are actually hashed: all but the skipped first.
pub open spec fn spec_hashed_segments(modules: Seq<Seq<char>>) -> u64 {
    if modules.len() == 0 {
        0
    } else {
        (modules.len() - 1) as u64
    }
}

/// The write calls behind a namespace-qualified name: the path segments
/// after the first, the count of hashed segments, then the name itself.
pub open spec fn spec_qualified_name_writes(modules: Seq<Seq<char>>, name: Seq<char>) -> Seq<
    Seq<u8>,
> {
    spec_path_writes(modules).push(spec_u64_to_le_bytes(spec_hashed_segments(modules))).push(
        encode_utf8(name),
    )
}

/// The key for a namespace-qualified variable access.
pub open spec fn spec_qualified_var_hash(modules: Seq<Seq<char>>, name: Seq<char>) -> u64 {
    DefaultHasher::spec_finish(spec_qualified_name_writes(modules, name))
}

/// The key for a namespace-qualified function name and parameter count.
pub open spec fn spec_qualified_fn_hash(modules: Seq<Seq<char>>, name: Seq<char>, num: u64) -> u64 {
    DefaultHasher::spec_finish(
        spec_qualified_name_writes(modules, name).push(spec_u64_to_le_bytes(num)),
    )
}

/// The key for an unqualified function name and parameter count.
pub open spec fn spec_fn_hash(name: Seq<char>, num: u64) -> u64 {
    spec_qualified_fn_hash(Seq::empty(), name, num)
}

/// The key for an ordered list of parameter type tokens.
pub open spec fn spec_fn_params_hash(params: Seq<u64>) -> u64 {
    DefaultHasher::spec_finish(
        params.map_values(|t: u64| spec_u64_to_le_bytes(t)).push(
            spec_u64_to_le_bytes(params.len() as u64),
        ),
    )
}

/// Create an instance of the default hasher.
pub fn get_hasher() -> (h: DefaultHasher)
    ensures
        h@ == Seq::<Seq<u8>>::empty(),
{
    DefaultHasher::new()
}

/// Feed the part shared by variable and function keys: every path segment
/// after the first, the hashed-segment count, and the name.
fn write_qualified_name(s: &mut DefaultHasher, modules: &Vec<String>, name: &str)
    ensures
        final(s)@ == old(s)@ + spec_qualified_name_writes(modules.deep_view(), name@),
{
    let ghost m = modules.deep_view();
    let ghost s0 = s@;
    let mut i: usize = 1;
    while i < modules.len()
        invariant
            1 <= i,
            i <= modules@.len() || i == 1,
            m == modules.deep_view(),
            m.len() == modules@.len(),
            s@ == s0 + spec_path_writes(m).take(i - 1),
        decreases modules@.len() - i,
    {
        let mut segment = vstd::slice::slice_to_vec(modules[i].as_str().as_bytes());
        segment.push(0xff);
        s.write(segment.as_slice());
        proof {
            assert(m[i as int] == modules@[i as int]@);
            assert(segment@ =~= encode_utf8(m[i as int]).push(0xff));
            assert(spec_path_writes(m)[i - 1] == encode_utf8(m[i as int]).push(0xff));
            assert(spec_path_writes(m).take(i as int) =~= spec_path_writes(m).take(i - 1).push(
                encode_utf8(m[i as int]).push(0xff),
            ));
            assert(s0 + spec_path_writes(m).take(i as int) =~= (s0 + spec_path_writes(m).take(
                i - 1,
            )).push(encode_utf8(m[i as int]).push(0xff)));
        }
        i = i + 1;
    }
    proof {
        assert(spec_path_writes(m).take(i - 1) =~= spec_path_writes(m));
    }
    let count: u64 = if modules.len() == 0 {
        0
    } else {
        (modules.len() - 1) as u64
    };
    let count_bytes = u64_to_le_bytes(count);
    s.write(count_bytes.as_slice());
    s.write(name.as_bytes());
    proof {
        assert(final(s)@ =~= s0 + spec_qualified_name_writes(m, name@));
    }
}

/// Calculate a `u64` hash key from a namespace-qualified variable name.
///
/// The first module name is skipped: hashing starts from the second
/// segment in the chain.
pub fn calc_qualified_var_hash(modules: &Vec<String>, var_name: &str) -> (key: u64)
    ensures
        key == spec_qualified_var_hash(modules.deep_view(), var_name@),
{
    let mut s = get_hasher();
    write_qualified_name(&mut s, modules, var_name);
    proof {
        assert(s@ =~= spec_qualified_name_writes(modules.deep_view(), var_name@));
    }
    s.finish()
}

/// Calculate a `u64` hash key from a namespace-qualified function name and
/// the number of parameters, but no parameter types.
///
/// The first module name is skipped: hashing starts from the second
/// segment in the chain.
pub fn calc_qualified_fn_hash(modules: &Vec<String>, fn_name: &str, num: usize) -> (key: u64)
    ensures
        key == spec_qualified_fn_hash(modules.deep_view(), fn_name@, num as u64),
{
    let mut s = get_hasher();
    write_qualified_name(&mut s, modules, fn_name);
    let num_bytes = u64_to_le_bytes(num as u64);
    s.write(num_bytes.as_slice());
    proof {
        assert(s@ =~= spec_qualified_name_writes(modules.deep_view(), fn_name@).push(
            spec_u64_to_le_bytes(num as u64),
        ));
    }
    s.finish()
}

/// Calculate a `u64` hash key from a non-namespace-qualified function name
/// and the number of parameters, but no parameter types.
pub fn calc_fn_hash(fn_name: &str, num: usize) -> (key: u64)
    ensures
        key == spec_fn_hash(fn_name@, num as u64),
{
    let empty_modules: Vec<String> = Vec::new();
    proof {
        assert(empty_modules.deep_view() =~= Seq::<Seq<char>>::empty());
    }
    calc_qualified_fn_hash(&empty_modules, fn_name, num)
}

/// Calculate a `u64` hash key from an ordered list of parameter type
/// tokens: the tokens in order, then their count.
pub fn calc_fn_params_hash(params: &Vec<u64>) -> (key: u64)
    ensures
        key == spec_fn_params_hash(params@),
{
    let ghost p = params@;
    let mut s = get_hasher();
    let mut i: usize = 0;
    while i < params.len()
        invariant
            i <= params@.len(),
            p == params@,
            s@ == p.take(i as int).map_values(|t: u64| spec_u64_to_le_bytes(t)),
        decreases params@.len() - i,
    {
        let token_bytes = u64_to_le_bytes(params[i]);
        s.write(token_bytes.as_slice());
        proof {
            assert(p.take(i + 1).map_values(|t: u64| spec_u64_to_le_bytes(t)) =~= p.take(
                i as int,
            ).map_values(|t: u64| spec_u64_to_le_bytes(t)).push(spec_u64_to_le_bytes(p[i as int])));
        }
        i = i + 1;
    }
    let count_bytes = u64_to_le_bytes(params.len() as u64);
    s.write(count_bytes.as_slice());
    proof {
        assert(p.take(p.len() as int) =~= p);
        assert(s@ =~= p.map_values(|t: u64| spec_u64_to_le_bytes(t)).push(
            spec_u64_to_le_bytes(p.len() as u64),
        ));
    }
    s.finish()
}

/// Combine two `u64` hashes by taking the XOR of them.
pub fn combine_hashes(a: u64, b: u64) -> (key: u64)
    ensures
        key == (a ^ b),
{
    a ^ b
}

/// Law: a signature key is a pure function of its inputs — equal paths,
/// names and arities give the identical key, so lookups may be memoized
/// and repeated freely.
pub proof fn lemma_hash_deterministic(
    modules1: Seq<Seq<char>>,
    name1: Seq<char>,
    num1: u64,
    modules2: Seq<Seq<char>>,
    name2: Seq<char>,
    num2: u64,
)
    requires
        modules1 == modules2,
        name1 == name2,
        num1 == num2,
    ensures
        spec_qualified_fn_hash(modules1, name1, num1) == spec_qualified_fn_hash(
            modules2,
            name2,
            num2,
        ),
        spec_qualified_var_hash(modules1, name1) == spec_qualified_var_hash(modules2, name2),
{
}

/// Law: the first (root) segment of a namespace path never perturbs the
/// key. Two paths of equal depth that agree from the second segment on
/// collide on the same key, whatever their roots are.
pub proof fn lemma_root_segment_skipped(
    modules1: Seq<Seq<char>>,
    modules2: Seq<Seq<char>>,
    name: Seq<char>,
    num: u64,
)
    requires
        modules1.len() >= 1,
        modules1.len() == modules2.len(),
        modules1.skip(1) == modules2.skip(1),
    ensures
        spec_qualified_fn_hash(modules1, name, num) == spec_qualified_fn_hash(modules2, name, num),
        spec_qualified_var_hash(modules1, name) == spec_qualified_var_hash(modules2, name),
{
    assert(spec_path_writes(modules1) == spec_path_writes(modules2));
}

/// Law: combining keys is commutative and self-cancelling, and combining
/// with the same key again undoes it — a composite signature can be built
/// from coarse and fine keys in any order, and progressively refined.
pub proof fn lemma_combine_algebra(a: u64, b: u64)
    ensures
        (a ^ b) == (b ^ a),
        (a ^ a) == 0u64,
        ((a ^ b) ^ b) == a,
{
    assert((a ^ b) == (b ^ a)) by (bit_vector);
    assert((a ^ a) == 0u64) by (bit_vector);
    assert(((a ^ b) ^ b) == a) by (bit_vector);
}

/// A streaming hasher whose only valid input is one pre-computed 64-bit
/// key, written as exactly eight little-endian bytes; finishing returns
/// that key unchanged. A table keyed by signature hashes can so use the
/// signature itself as its own hash instead of re-mixing already-mixed
/// bits.
#[derive(Clone, Copy, Debug, PartialEq, Eq, Structural)]
pub struct StraightHasher {
    /// The key written so far.
    pub key: u64,
}

impl StraightHasher {
    /// Take exactly eight bytes — one pre-computed key, little-endian —
    /// and hold the value they encode. Any other length is a contract
    /// violation, which verification rules out rather than aborting.
    pub fn write(&mut self, bytes: &[u8])
        requires
            bytes@.len() == 8,
        ensures
            final(self).key == spec_u64_from_le_bytes(bytes@),
    {
        self.key = u64_from_le_bytes(bytes);
    }

    /// Return the key exactly as it was written.
    pub fn finish(&self) -> (key: u64)
        ensures
            key == self.key,
    {
        self.key
    }
}

/// A hash builder for [`StraightHasher`].
#[derive(Clone, Copy, Debug, PartialEq, Eq, Structural, Default)]
pub struct StraightHasherBuilder;

impl StraightHasherBuilder {
    /// Build a fresh hasher. The starting key is an arbitrary filler: the
    /// one write every hasher must receive replaces it.
    pub fn build_hasher(&self) -> (h: StraightHasher)
        ensures
            h.key == 42,
    {
        StraightHasher { key: 42 }
    }
}

/// Law: the hash adapter is an identity on pre-computed keys — streaming
/// the eight little-endian bytes of `v` and finishing yields `v` back.
pub proof fn lemma_straight_hasher_identity(v: u64)
    ensures
        spec_u64_from_le_bytes(spec_u64_to_le_bytes(v)) == v,
{
    lemma_auto_spec_u64_to_from_le_bytes();
}

} // verus!
