//! The intermediate representation of a function signature as the transformer
//! sees it: an ordered list of declared inputs, each a receiver or a named,
//! typed parameter, together with the shape of the return type.
//!
//! Identifiers and type-path segments are carried as byte strings, so that the
//! validation, synthesis and descriptor rules can be stated exactly over
//! sequences of bytes.

use vstd::prelude::*;

verus! {

/// The shape of a declared parameter type. Only a nominal type (a named path
/// such as `Env` or `sdk::U32`) can cross the ABI boundary; every other shape
/// is recorded just precisely enough for the validator to reject it.
#[derive(Debug, Clone, PartialEq, Eq)]
pub enum TypeRef {
    /// A plain named type path: its segments, outermost first.
    Named { segments: Vec<Vec<u8>> },
    /// A reference type, such as `&T`.
    Reference,
    /// A tuple type, such as `(U32, U32)`.
    Tuple,
    /// A nominal path carrying generic arguments, such as `Wrap<T>`.
    Generic,
    /// Any other type shape.
    Other,
}

/// The pattern that binds a parameter.
#[derive(Debug, Clone, PartialEq, Eq)]
pub enum ParamPat {
    /// A simple identifier pattern.
    Name(Vec<u8>),
    /// Anything else, such as a destructuring pattern.
    Composite,
}

/// A declared, typed parameter: its binding pattern and its type.
#[derive(Debug, Clone, PartialEq, Eq)]
pub struct Param {
    pub pat: ParamPat,
    pub ty: TypeRef,
}

/// One entry of a function's input list.
#[derive(Debug, Clone, PartialEq, Eq)]
pub enum FnInput {
    /// An implicit receiver: `self`, `&self` or `&mut self`.
    Receiver,
    /// An ordinary `pattern: Type` parameter.
    Typed(Param),
}

/// The shape of a function's return type.
#[derive(Debug, Clone, PartialEq, Eq)]
pub enum RetKind {
    /// No declared return type.
    Void,
    /// A declared return type.
    Typed(TypeRef),
}

/// A whole function signature: its identifier, inputs, and return shape.
#[derive(Debug, Clone, PartialEq, Eq)]
pub struct FnSig {
    pub ident: Vec<u8>,
    pub inputs: Vec<FnInput>,
    pub output: RetKind,
}

/// The identifier that the environment-handle type must end in: the three
/// bytes of `Env`.
pub open spec fn env_ident() -> Seq<u8> {
    seq![69u8, 110u8, 118u8]
}

/// The byte string of the binding pattern of an input, where it has one.
pub open spec fn param_name(inp: FnInput) -> Seq<u8> {
    match inp {
        FnInput::Typed(p) => match p.pat {
            ParamPat::Name(n) => n@,
            ParamPat::Composite => Seq::empty(),
        },
        FnInput::Receiver => Seq::empty(),
    }
}

/// Copies a byte string.
pub fn clone_bytes(v: &Vec<u8>) -> (r: Vec<u8>)
    ensures
        r@ == v@,
{
    let mut r: Vec<u8> = Vec::new();
    let mut i: usize = 0;
    while i < v.len()
        invariant
            i <= v.len(),
            r@ == v@.subrange(0, i as int),
        decreases v.len() - i,
    {
        r.push(v[i]);
        i = i + 1;
        assert(r@ =~= v@.subrange(0, i as int));
    }
    assert(r@ =~= v@);
    r
}

/// Appends one byte string to another.
pub fn push_bytes(out: &mut Vec<u8>, s: &Vec<u8>)
    ensures
        final(out)@ == old(out)@ + s@,
{
    let mut i: usize = 0;
    while i < s.len()
        invariant
            i <= s.len(),
            out@ == old(out)@ + s@.subrange(0, i as int),
        decreases s.len() - i,
    {
        out.push(s[i]);
        i = i + 1;
        assert(out@ =~= old(out)@ + s@.subrange(0, i as int));
    }
    assert(out@ =~= old(out)@ + s@);
}

} // verus!
