//! The meaning of a synthesized wrapper body, and the laws every wrapper
//! obeys.
//!
//! Runtime values — the environment handle, the raw boundary values, and the
//! decoded parameter values — are drawn from one abstract value domain `D`.
//! The value-conversion protocol and the original function are arbitrary
//! functions over that domain: `dec(env, raw)` converts a raw value to its
//! declared type, `enc(v, env)` converts a result back, `orig(args)` is the
//! original function applied to its full argument list. Cloning the
//! environment handle yields the same semantic value. Over this model,
//! [`eval_wrapper`] says what a wrapper definition returns, and the proof
//! functions below pin the two defining laws down for every valid signature.

use vstd::prelude::*;

use crate::ir::{FnInput, RetKind};
use crate::validate::inputs_valid;
use crate::wrap::{ArgExpr, Finish, WrapperDef};
use crate::wrap::{expected_call_args, is_wrapper_for};

verus! {

/// The value of one argument expression of the wrapper body's call.
pub open spec fn eval_arg<D>(a: ArgExpr, env: D, raws: Seq<D>, dec: spec_fn(D, D) -> D) -> D {
    match a {
        ArgExpr::EnvClone => env,
        ArgExpr::FromRaw(i) => dec(env, raws[i as int]),
    }
}

/// What a wrapper definition returns when invoked on an environment handle
/// and the raw values of its re-typed parameters: the body evaluates its
/// argument expressions, calls the original on them, and finishes by
/// encoding the result — or returns the void sentinel without encoding
/// anything.
pub open spec fn eval_wrapper<D>(
    w: WrapperDef,
    env: D,
    raws: Seq<D>,
    dec: spec_fn(D, D) -> D,
    orig: spec_fn(Seq<D>) -> D,
    enc: spec_fn(D, D) -> D,
    void_raw: D,
) -> D {
    let args = Seq::new(w.call_args@.len(), |i: int| eval_arg(w.call_args@[i], env, raws, dec));
    match w.finish {
        Finish::VoidSentinel => void_raw,
        Finish::EncodeResult => enc(orig(args), env),
    }
}

/// Each raw value converted to its declared parameter type.
pub open spec fn decoded_args<D>(env: D, raws: Seq<D>, dec: spec_fn(D, D) -> D) -> Seq<D> {
    raws.map_values(|r: D| dec(env, r))
}

/// The round-trip law: for every valid signature, invoking the synthesized
/// wrapper on raw values that the conversion protocol decodes equals
/// decoding each raw value, invoking the original function directly — the
/// environment handle first — and encoding what comes back: the result for
/// a value-returning function, the designated void sentinel for a void one.
pub proof fn lemma_wrapper_round_trip<D>(
    w: WrapperDef,
    method: bool,
    self_ty: Seq<u8>,
    ident: Seq<u8>,
    inputs: Seq<FnInput>,
    out: RetKind,
    env: D,
    raws: Seq<D>,
    dec: spec_fn(D, D) -> D,
    orig: spec_fn(Seq<D>) -> D,
    enc: spec_fn(D, D) -> D,
    void_raw: D,
)
    requires
        inputs_valid(inputs),
        is_wrapper_for(w, method, self_ty, ident, inputs, out),
        raws.len() == inputs.len() - 1,
        raws.len() <= usize::MAX,
    ensures
        eval_wrapper(w, env, raws, dec, orig, enc, void_raw) == (match out {
            RetKind::Typed(_) => enc(orig(seq![env] + decoded_args(env, raws, dec)), env),
            RetKind::Void => void_raw,
        }),
{
    let n_raw = (inputs.len() - 1) as nat;
    let args = Seq::new(w.call_args@.len(), |i: int| eval_arg(w.call_args@[i], env, raws, dec));
    let rhs = seq![env] + decoded_args(env, raws, dec);
    assert(w.call_args@ == expected_call_args(n_raw));
    assert(args.len() == rhs.len());
    assert forall|i: int| 0 <= i < args.len() implies args[i] == rhs[i] by {
        if i == 0 {
            assert(w.call_args@[0] == ArgExpr::EnvClone);
        } else {
            assert(w.call_args@[i] == ArgExpr::FromRaw((i - 1) as usize));
            assert(rhs[i] == dec(env, raws[i - 1]));
        }
    }
    assert(args =~= rhs);
}

/// The void law: for every valid void-returning signature, the synthesized
/// wrapper returns the designated void sentinel, whatever the original
/// function and the conversion protocol do.
pub proof fn lemma_void_wrapper_returns_sentinel<D>(
    w: WrapperDef,
    method: bool,
    self_ty: Seq<u8>,
    ident: Seq<u8>,
    inputs: Seq<FnInput>,
    env: D,
    raws: Seq<D>,
    dec: spec_fn(D, D) -> D,
    orig: spec_fn(Seq<D>) -> D,
    enc: spec_fn(D, D) -> D,
    void_raw: D,
)
    requires
        inputs_valid(inputs),
        is_wrapper_for(w, method, self_ty, ident, inputs, RetKind::Void),
    ensures
        eval_wrapper(w, env, raws, dec, orig, enc, void_raw) == void_raw,
{
}

} // verus!
