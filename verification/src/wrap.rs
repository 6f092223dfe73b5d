//! The wrapper synthesizer: from a valid signature and a call target it
//! derives a [`WrapperDef`], the definition of a new function with an
//! ABI-compatible shape.
//!
//! The wrapper is exported under the original identifier, carries the
//! environment parameter through unchanged, re-types every other parameter to
//! the uniform raw boundary value, and its body converts each raw parameter
//! back to its declared type, invokes the original, and either encodes the
//! result or returns the designated void sentinel.

use vstd::prelude::*;

use crate::ir::{FnInput, FnSig, ParamPat, RetKind};
use crate::ir::{clone_bytes, param_name, push_bytes};
use crate::validate::inputs_valid;

verus! {

/// What the wrapper body calls: the original free function by its own
/// identifier, or a qualified method on a type (the token text of the type).
#[derive(Debug, Clone, PartialEq, Eq)]
pub enum CallTarget {
    Free,
    Method { self_ty: Vec<u8> },
}

/// An argument expression in the wrapper body's call of the original.
#[derive(Debug, Clone, Copy, PartialEq, Eq, Structural)]
pub enum ArgExpr {
    /// A clone of the environment handle.
    EnvClone,
    /// The conversion of the `i`-th raw parameter back to its declared type.
    FromRaw(usize),
}

/// The last step of the wrapper body.
#[derive(Debug, Clone, Copy, PartialEq, Eq, Structural)]
pub enum Finish {
    /// Return the designated void sentinel raw value.
    VoidSentinel,
    /// Encode the call's result as a raw value and return it.
    EncodeResult,
}

/// The definition of a synthesized wrapper function.
#[derive(Debug, Clone, PartialEq, Eq)]
pub struct WrapperDef {
    /// The exported symbol: the original function's identifier, unchanged.
    pub export_name: Vec<u8>,
    /// The wrapper's own internal name, distinct from the original's so both
    /// definitions can stand side by side.
    pub inner_name: Vec<u8>,
    /// What the body calls.
    pub target: CallTarget,
    /// The name of the environment parameter, carried through unchanged.
    pub env_name: Vec<u8>,
    /// The names of the remaining parameters, in order, each re-typed to the
    /// uniform raw boundary value.
    pub raw_params: Vec<Vec<u8>>,
    /// The arguments the body passes to the original, in order.
    pub call_args: Vec<ArgExpr>,
    /// How the body turns the call into the wrapper's raw result.
    pub finish: Finish,
}

/// The prefix that forms the wrapper's internal name: two underscores.
pub open spec fn inner_prefix() -> Seq<u8> {
    seq![95u8, 95u8]
}

/// A call target described by shape: a method target on the given type text,
/// or a free target.
pub open spec fn target_is(t: CallTarget, method: bool, self_ty: Seq<u8>) -> bool {
    match t {
        CallTarget::Free => !method,
        CallTarget::Method { self_ty: s } => method && s@ == self_ty,
    }
}

/// The argument list of the wrapper body's call: a clone of the environment
/// handle first, then one decoded raw parameter per non-environment input,
/// in declaration order. The environment handle is threaded through every
/// call, whatever the return kind; only the final step of the body varies.
pub open spec fn expected_call_args(n_raw: nat) -> Seq<ArgExpr> {
    seq![ArgExpr::EnvClone] + Seq::new(n_raw, |i: int| ArgExpr::FromRaw(i as usize))
}

/// The whole shape of the wrapper that a valid signature and target yield.
pub open spec fn is_wrapper_for(
    w: WrapperDef,
    method: bool,
    self_ty: Seq<u8>,
    ident: Seq<u8>,
    inputs: Seq<FnInput>,
    out: RetKind,
) -> bool {
    &&& w.export_name@ == ident
    &&& w.inner_name@ == inner_prefix() + ident
    &&& target_is(w.target, method, self_ty)
    &&& w.env_name@ == param_name(inputs[0])
    &&& w.raw_params@.len() == inputs.len() - 1
    &&& forall|i: int|
        0 <= i < w.raw_params@.len() ==> (#[trigger] w.raw_params@[i])@ == param_name(
            inputs[i + 1],
        )
    &&& w.call_args@ == expected_call_args((inputs.len() - 1) as nat)
    &&& w.finish == (match out {
        RetKind::Void => Finish::VoidSentinel,
        RetKind::Typed(_) => Finish::EncodeResult,
    })
}

/// The shape of a target value, for stating what a synthesized wrapper calls.
pub open spec fn target_method(t: CallTarget) -> bool {
    t is Method
}

/// The type text of a method target; empty for a free target.
pub open spec fn target_self_ty(t: CallTarget) -> Seq<u8> {
    match t {
        CallTarget::Free => Seq::empty(),
        CallTarget::Method { self_ty } => self_ty@,
    }
}

/// Copies the binding name of an input; the empty name stands in for the
/// shapes the validator rejects.
fn input_name(inp: &FnInput) -> (r: Vec<u8>)
    ensures
        r@ == param_name(*inp),
{
    match inp {
        FnInput::Typed(p) => match &p.pat {
            ParamPat::Name(n) => clone_bytes(n),
            ParamPat::Composite => Vec::new(),
        },
        FnInput::Receiver => Vec::new(),
    }
}

/// Synthesizes the wrapper definition for a valid signature: exported under
/// the original identifier, environment parameter carried through, every
/// other parameter re-typed to the raw boundary value under its original
/// name, and a body that decodes, delegates and encodes.
pub fn synthesize_wrapper(target: CallTarget, ident: &Vec<u8>, inputs: &Vec<FnInput>, output: &RetKind) -> (w:
    WrapperDef)
    requires
        inputs_valid(inputs@),
    ensures
        is_wrapper_for(w, target_method(target), target_self_ty(target), ident@, inputs@, *output),
{
    let export_name = clone_bytes(ident);
    let mut inner_name: Vec<u8> = Vec::new();
    inner_name.push(95);
    inner_name.push(95);
    push_bytes(&mut inner_name, ident);
    assert(inner_name@ =~= inner_prefix() + ident@);

    let env_name = input_name(&inputs[0]);

    let n = inputs.len();
    let mut raw_params: Vec<Vec<u8>> = Vec::new();
    let mut i: usize = 1;
    while i < n
        invariant
            1 <= i <= n,
            n == inputs@.len(),
            raw_params@.len() == i - 1,
            forall|j: int|
                0 <= j < raw_params@.len() ==> (#[trigger] raw_params@[j])@ == param_name(
                    inputs@[j + 1],
                ),
        decreases n - i,
    {
        let name = input_name(&inputs[i]);
        raw_params.push(name);
        i = i + 1;
    }

    let n_raw = n - 1;
    let mut call_args: Vec<ArgExpr> = Vec::new();
    call_args.push(ArgExpr::EnvClone);
    let mut k: usize = 0;
    while k < n_raw
        invariant
            k <= n_raw,
            call_args@.len() == 1 + k,
            call_args@[0] == ArgExpr::EnvClone,
            forall|j: int| 1 <= j < k + 1 ==> call_args@[j] == ArgExpr::FromRaw((j - 1) as usize),
        decreases n_raw - k,
    {
        call_args.push(ArgExpr::FromRaw(k));
        k = k + 1;
    }
    proof {
        let expected = expected_call_args((inputs@.len() - 1) as nat);
        assert(call_args@ =~= expected);
    }

    let is_void = matches!(output, RetKind::Void);
    let finish = if is_void {
        Finish::VoidSentinel
    } else {
        Finish::EncodeResult
    };

    WrapperDef { export_name, inner_name, target, env_name, raw_params, call_args, finish }
}

/// The exported-symbol law: every synthesized wrapper is exported under
/// exactly the original function's identifier.
pub proof fn lemma_export_name_is_original_ident(
    w: WrapperDef,
    method: bool,
    self_ty: Seq<u8>,
    ident: Seq<u8>,
    inputs: Seq<FnInput>,
    out: RetKind,
)
    requires
        is_wrapper_for(w, method, self_ty, ident, inputs, out),
    ensures
        w.export_name@ == ident,
{
}

/// The wrapper's internal name never collides with the exported symbol, so
/// the original definition remains present and callable beside the wrapper.
pub proof fn lemma_inner_name_distinct(
    w: WrapperDef,
    method: bool,
    self_ty: Seq<u8>,
    ident: Seq<u8>,
    inputs: Seq<FnInput>,
    out: RetKind,
)
    requires
        is_wrapper_for(w, method, self_ty, ident, inputs, out),
    ensures
        w.inner_name@ != w.export_name@,
{
    assert(w.inner_name@.len() == ident.len() + 2);
}

} // verus!
