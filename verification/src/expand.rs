//! The per-function pipeline and the entry selector.
//!
//! [`wrap_and_spec`] runs one candidate through the validator and, on
//! success, through the wrapper synthesizer and the descriptor builder; on
//! failure the diagnostics replace the generated code entirely. [`expand_fn`]
//! transforms a single free function. [`expand_impl`] enumerates the items of
//! an implementation block, selects the candidate methods, and transforms
//! each independently.

use vstd::prelude::*;

use crate::descriptor::{SpecRecord, build_spec_record, descriptor_bytes, record_symbol};
use crate::ir::{FnInput, FnSig, RetKind};
use crate::ir::clone_bytes;
use crate::validate::{Diag, sig_diags, inputs_valid, validate_inputs};
use crate::wrap::{CallTarget, WrapperDef, is_wrapper_for, synthesize_wrapper, target_method, target_self_ty};

verus! {

/// The whole output of one candidate's transformation: either the
/// diagnostics, or the wrapper definition and the metadata record, which are
/// emitted together and never independently.
#[derive(Debug, Clone, PartialEq, Eq)]
pub enum Expansion {
    /// The candidate was rejected; its diagnostics are the entire output.
    Failure(Vec<Diag>),
    /// The candidate was transformed.
    Generated { wrapper: WrapperDef, record: SpecRecord },
}

/// What [`wrap_and_spec`] promises of its output for one candidate: on a
/// valid input list, a wrapper of the stated shape and the record of the
/// stated symbol and bytes; otherwise every diagnostic, and at least one.
pub open spec fn expansion_ok(
    e: Expansion,
    method: bool,
    self_ty: Seq<u8>,
    ident: Seq<u8>,
    inputs: Seq<FnInput>,
    out: RetKind,
    sectioned: bool,
) -> bool {
    if inputs_valid(inputs) {
        &&& e matches Expansion::Generated { wrapper, record }
        &&& is_wrapper_for(wrapper, method, self_ty, ident, inputs, out)
        &&& record.symbol@ == record_symbol(ident)
        &&& record.bytes@ == descriptor_bytes(inputs)
        &&& record.in_section == sectioned
    } else {
        &&& e matches Expansion::Failure(diags)
        &&& diags@ == sig_diags(inputs)
        &&& diags@.len() > 0
    }
}

/// Transforms one candidate: validates its input list, and on success
/// synthesizes its wrapper and builds its record; on failure the collected
/// diagnostics replace both.
pub fn wrap_and_spec(target: CallTarget, ident: &Vec<u8>, inputs: &Vec<FnInput>, output: &RetKind, sectioned: bool) -> (e:
    Expansion)
    ensures
        expansion_ok(
            e,
            target_method(target),
            target_self_ty(target),
            ident@,
            inputs@,
            *output,
            sectioned,
        ),
{
    let diags = validate_inputs(inputs);
    if diags.len() > 0 {
        return Expansion::Failure(diags);
    }
    let wrapper = synthesize_wrapper(target, ident, inputs, output);
    let record = build_spec_record(ident, inputs, sectioned);
    Expansion::Generated { wrapper, record }
}

/// Transforms a single free function: it is always a candidate, and the
/// wrapper calls it by its own identifier.
pub fn expand_fn(sig: &FnSig, sectioned: bool) -> (e: Expansion)
    ensures
        expansion_ok(e, false, Seq::empty(), sig.ident@, sig.inputs@, sig.output, sectioned),
{
    wrap_and_spec(CallTarget::Free, &sig.ident, &sig.inputs, &sig.output, sectioned)
}

/// The visibility a method is declared with.
#[derive(Debug, Clone, Copy, PartialEq, Eq, Structural)]
pub enum Visibility {
    /// Explicitly `pub`.
    Public,
    /// Restricted, such as `pub(crate)`.
    Restricted,
    /// No visibility keyword.
    Inherited,
}

/// A method of an implementation block.
#[derive(Debug, Clone, PartialEq, Eq)]
pub struct MethodDecl {
    pub vis: Visibility,
    pub sig: FnSig,
}

/// One item of an implementation block.
#[derive(Debug, Clone, PartialEq, Eq)]
pub enum ImplMember {
    Method(MethodDecl),
    /// A non-method item, which the selector ignores.
    Other,
}

/// An implementation block: whether it satisfies an interface contract, the
/// token text of the implemented type, and its items.
#[derive(Debug, Clone, PartialEq, Eq)]
pub struct ImplBlock {
    pub trait_impl: bool,
    pub self_ty: Vec<u8>,
    pub members: Vec<ImplMember>,
}

/// Whether a member is a transformation candidate: a method of a block that
/// satisfies an interface contract, whatever its visibility; or an
/// explicitly public method of a plain block.
pub open spec fn is_candidate(trait_impl: bool, m: ImplMember) -> bool {
    m matches ImplMember::Method(d) && (trait_impl || d.vis is Public)
}

/// Whether a member is a transformation candidate, for the build surface
/// that pairs each of [`expand_impl`]'s outputs with its method.
pub fn member_is_candidate(trait_impl: bool, m: &ImplMember) -> (r: bool)
    ensures
        r == is_candidate(trait_impl, *m),
{
    match m {
        ImplMember::Method(d) => trait_impl || matches!(d.vis, Visibility::Public),
        ImplMember::Other => false,
    }
}

/// The indices of the candidate members from the `i`-th member on, in
/// declaration order.
pub open spec fn candidate_indices(members: Seq<ImplMember>, trait_impl: bool, i: int) -> Seq<int>
    decreases members.len() - i,
{
    if i < 0 || i >= members.len() {
        Seq::empty()
    } else if is_candidate(trait_impl, members[i]) {
        seq![i] + candidate_indices(members, trait_impl, i + 1)
    } else {
        candidate_indices(members, trait_impl, i + 1)
    }
}

/// Every selected index is in range and names a candidate method.
pub proof fn lemma_candidate_indices_sound(members: Seq<ImplMember>, trait_impl: bool, i: int)
    ensures
        forall|k: int|
            0 <= k < candidate_indices(members, trait_impl, i).len() ==> 0 <= (
            #[trigger] candidate_indices(members, trait_impl, i)[k]) < members.len()
                && is_candidate(trait_impl, members[candidate_indices(members, trait_impl, i)[k]]),
    decreases members.len() - i,
{
    if 0 <= i < members.len() {
        lemma_candidate_indices_sound(members, trait_impl, i + 1);
        let cur = candidate_indices(members, trait_impl, i);
        let rest = candidate_indices(members, trait_impl, i + 1);
        assert forall|k: int| 0 <= k < cur.len() implies 0 <= cur[k] < members.len()
            && is_candidate(trait_impl, members[cur[k]]) by {
            if is_candidate(trait_impl, members[i]) {
                if k > 0 {
                    assert(cur[k] == rest[k - 1]);
                }
            } else {
                assert(cur[k] == rest[k]);
            }
        }
    }
}

/// One output stands for one member: the member is a method and the output
/// is its transformation, targeted at the implemented type.
pub open spec fn member_expansion_ok(
    e: Expansion,
    m: ImplMember,
    self_ty: Seq<u8>,
    sectioned: bool,
) -> bool {
    &&& m matches ImplMember::Method(d)
    &&& expansion_ok(e, true, self_ty, d.sig.ident@, d.sig.inputs@, d.sig.output, sectioned)
}

/// Transforms the candidate methods of an implementation block, each
/// independently: the `k`-th output is the transformation of the `k`-th
/// candidate, targeted at the qualified method on the implemented type, and
/// one candidate's failure does not touch another's output.
pub fn expand_impl(block: &ImplBlock, sectioned: bool) -> (out: Vec<Expansion>)
    ensures
        out@.len() == candidate_indices(block.members@, block.trait_impl, 0).len(),
        forall|k: int|
            0 <= k < out@.len() ==> member_expansion_ok(
                #[trigger] out@[k],
                block.members@[candidate_indices(block.members@, block.trait_impl, 0)[k]],
                block.self_ty@,
                sectioned,
            ),
{
    let ghost all = candidate_indices(block.members@, block.trait_impl, 0);
    let mut out: Vec<Expansion> = Vec::new();
    let n = block.members.len();
    let mut i: usize = 0;
    let ghost mut done_now: Seq<int> = Seq::empty();
    proof {
        assert(all =~= done_now + candidate_indices(block.members@, block.trait_impl, 0));
    }
    while i < n
        invariant
            i <= n,
            n == block.members@.len(),
            all == candidate_indices(block.members@, block.trait_impl, 0),
            all =~= done_now + candidate_indices(block.members@, block.trait_impl, i as int),
            done_now.len() == out@.len(),
            forall|k: int|
                0 <= k < out@.len() ==> 0 <= #[trigger] done_now[k] < i,
            forall|k: int|
                0 <= k < out@.len() ==> member_expansion_ok(
                    #[trigger] out@[k],
                    block.members@[done_now[k]],
                    block.self_ty@,
                    sectioned,
                ),
        decreases n - i,
    {
        let selected_here = member_is_candidate(block.trait_impl, &block.members[i]);
        if selected_here {
            match &block.members[i] {
                ImplMember::Method(d) => {
                    let target = CallTarget::Method { self_ty: clone_bytes(&block.self_ty) };
                    let e = wrap_and_spec(target, &d.sig.ident, &d.sig.inputs, &d.sig.output, sectioned);
                    out.push(e);
                    proof {
                        let ghost prev = done_now;
                        done_now = done_now + seq![i as int];
                        assert forall|k: int| 0 <= k < out@.len() implies member_expansion_ok(
                            #[trigger] out@[k],
                            block.members@[done_now[k]],
                            block.self_ty@,
                            sectioned,
                        ) by {
                            if k < out@.len() - 1 {
                                assert(done_now[k] == prev[k]);
                            } else {
                                assert(done_now[k] == i as int);
                                assert(out@[k] == e);
                            }
                        }
                    }
                },
                ImplMember::Other => (),
            }
            assert(candidate_indices(block.members@, block.trait_impl, i as int) == seq![i as int]
                + candidate_indices(block.members@, block.trait_impl, i as int + 1));
            assert(all =~= done_now + candidate_indices(
                block.members@,
                block.trait_impl,
                i as int + 1,
            ));
        } else {
            assert(candidate_indices(block.members@, block.trait_impl, i as int)
                == candidate_indices(block.members@, block.trait_impl, i as int + 1));
        }
        i = i + 1;
    }
    proof {
        assert(candidate_indices(block.members@, block.trait_impl, n as int) =~= Seq::empty());
        assert(all =~= done_now);
    }
    out
}

} // verus!
