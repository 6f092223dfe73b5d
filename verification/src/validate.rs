//! The signature validator: inspects a declared input list and either accepts
//! it or reports every offending parameter at once.
//!
//! Three rules hold of an acceptable input list:
//! - it is non-empty, and its first entry is a typed parameter whose type is a
//!   named path ending in the identifier `Env`;
//! - every later entry is a typed parameter with a plain nominal type — no
//!   references, tuples, generics or receivers;
//! - every typed parameter is bound by a simple identifier pattern.
//!
//! All diagnostics for one signature are collected, never short-circuited, so
//! a single invalid function surfaces every problem at once.

use vstd::prelude::*;

use crate::ir::{FnInput, ParamPat, TypeRef};
use crate::ir::env_ident;

verus! {

/// What a diagnostic reports.
#[derive(Debug, Clone, Copy, PartialEq, Eq, Structural)]
pub enum DiagKind {
    /// The first parameter is missing, is a receiver, or is not the
    /// environment-handle type.
    InvalidFirstParameter,
    /// A later parameter's type is not a plain nominal type.
    UnsupportedParameterType,
    /// A parameter is not bound by a simple identifier pattern.
    MissingParameterIdentifier,
}

/// One diagnostic: what went wrong, anchored at the index of the offending
/// input (index `0` also stands for a missing first parameter).
#[derive(Debug, Clone, Copy, PartialEq, Eq, Structural)]
pub struct Diag {
    pub kind: DiagKind,
    pub param: usize,
}

/// The first input is a typed parameter whose type is a named path whose last
/// segment is the identifier `Env`.
pub open spec fn first_input_ok(inp: FnInput) -> bool {
    &&& inp matches FnInput::Typed(p)
    &&& p.ty matches TypeRef::Named { segments }
    &&& segments@.len() > 0
    &&& segments@.last()@ == env_ident()
}

/// A later input is a typed parameter with a plain nominal type.
pub open spec fn rest_input_ok(inp: FnInput) -> bool {
    &&& inp matches FnInput::Typed(p)
    &&& p.ty is Named
}

/// A typed parameter is bound by a simple identifier pattern. A receiver has
/// no pattern, so nothing is asked of it here; the type rules reject it.
pub open spec fn pat_ok(inp: FnInput) -> bool {
    inp matches FnInput::Typed(p) ==> p.pat is Name
}

/// An input list the transformer accepts.
pub open spec fn inputs_valid(inputs: Seq<FnInput>) -> bool {
    &&& inputs.len() > 0
    &&& first_input_ok(inputs[0])
    &&& forall|i: int| 1 <= i < inputs.len() ==> rest_input_ok(#[trigger] inputs[i])
    &&& forall|i: int| 0 <= i < inputs.len() ==> pat_ok(#[trigger] inputs[i])
}

/// The diagnostics of the first-parameter rule: one `InvalidFirstParameter`,
/// anchored at index 0, where the rule fails.
pub open spec fn first_diags(inputs: Seq<FnInput>) -> Seq<Diag> {
    if inputs.len() > 0 && first_input_ok(inputs[0]) {
        Seq::empty()
    } else {
        seq![Diag { kind: DiagKind::InvalidFirstParameter, param: 0 }]
    }
}

/// The type-rule diagnostics over the inputs in `lo..hi`: one
/// `UnsupportedParameterType`, anchored at its index, for each input that is
/// not a plain nominal parameter, in index order.
pub open spec fn rest_diags(inputs: Seq<FnInput>, lo: int, hi: int) -> Seq<Diag>
    decreases hi - lo,
{
    if lo < 0 || lo >= hi || hi > inputs.len() {
        Seq::empty()
    } else if rest_input_ok(inputs[lo]) {
        rest_diags(inputs, lo + 1, hi)
    } else {
        seq![Diag { kind: DiagKind::UnsupportedParameterType, param: lo as usize }]
            + rest_diags(inputs, lo + 1, hi)
    }
}

/// The pattern-rule diagnostics over the inputs in `lo..hi`: one
/// `MissingParameterIdentifier`, anchored at its index, for each typed input
/// not bound by a simple identifier, in index order.
pub open spec fn pat_diags(inputs: Seq<FnInput>, lo: int, hi: int) -> Seq<Diag>
    decreases hi - lo,
{
    if lo < 0 || lo >= hi || hi > inputs.len() {
        Seq::empty()
    } else if pat_ok(inputs[lo]) {
        pat_diags(inputs, lo + 1, hi)
    } else {
        seq![Diag { kind: DiagKind::MissingParameterIdentifier, param: lo as usize }]
            + pat_diags(inputs, lo + 1, hi)
    }
}

/// Every diagnostic one input list produces, in report order: the
/// first-parameter rule, then the type rule over the later inputs, then the
/// pattern rule over all inputs.
pub open spec fn sig_diags(inputs: Seq<FnInput>) -> Seq<Diag> {
    first_diags(inputs) + rest_diags(inputs, 1, inputs.len() as int) + pat_diags(
        inputs,
        0,
        inputs.len() as int,
    )
}

/// The type-rule scan reports nothing exactly when every input in its range
/// passes.
proof fn lemma_rest_diags_empty(inputs: Seq<FnInput>, lo: int, hi: int)
    requires
        0 <= lo,
        hi <= inputs.len(),
    ensures
        rest_diags(inputs, lo, hi).len() == 0 <==> forall|i: int|
            lo <= i < hi ==> rest_input_ok(#[trigger] inputs[i]),
    decreases hi - lo,
{
    if 0 <= lo < hi {
        lemma_rest_diags_empty(inputs, lo + 1, hi);
    }
}

/// The pattern-rule scan reports nothing exactly when every input in its
/// range passes.
proof fn lemma_pat_diags_empty(inputs: Seq<FnInput>, lo: int, hi: int)
    requires
        0 <= lo,
        hi <= inputs.len(),
    ensures
        pat_diags(inputs, lo, hi).len() == 0 <==> forall|i: int|
            lo <= i < hi ==> pat_ok(#[trigger] inputs[i]),
    decreases hi - lo,
{
    if 0 <= lo < hi {
        lemma_pat_diags_empty(inputs, lo + 1, hi);
    }
}

/// The validator reports nothing exactly when the input list is valid.
pub proof fn lemma_sig_diags_empty_iff_valid(inputs: Seq<FnInput>)
    ensures
        sig_diags(inputs).len() == 0 <==> inputs_valid(inputs),
{
    lemma_rest_diags_empty(inputs, 1, inputs.len() as int);
    lemma_pat_diags_empty(inputs, 0, inputs.len() as int);
}

/// Extending a type-rule scan by one index appends that index's diagnostics.
proof fn lemma_rest_diags_snoc(inputs: Seq<FnInput>, lo: int, hi: int)
    requires
        0 <= lo <= hi < inputs.len(),
    ensures
        rest_diags(inputs, lo, hi + 1) == rest_diags(inputs, lo, hi) + (if rest_input_ok(
            inputs[hi],
        ) {
            Seq::<Diag>::empty()
        } else {
            seq![Diag { kind: DiagKind::UnsupportedParameterType, param: hi as usize }]
        }),
    decreases hi - lo,
{
    let tail: Seq<Diag> = if rest_input_ok(inputs[hi]) {
        Seq::empty()
    } else {
        seq![Diag { kind: DiagKind::UnsupportedParameterType, param: hi as usize }]
    };
    if lo == hi {
        assert(rest_diags(inputs, lo, hi) =~= Seq::empty());
        assert(rest_diags(inputs, lo + 1, hi + 1) =~= Seq::empty());
        assert(rest_diags(inputs, lo, hi + 1) =~= rest_diags(inputs, lo, hi) + tail);
    } else {
        lemma_rest_diags_snoc(inputs, lo + 1, hi);
        assert(rest_diags(inputs, lo, hi + 1) =~= rest_diags(inputs, lo, hi) + tail);
    }
}

/// Extending a pattern-rule scan by one index appends that index's
/// diagnostics.
proof fn lemma_pat_diags_snoc(inputs: Seq<FnInput>, lo: int, hi: int)
    requires
        0 <= lo <= hi < inputs.len(),
    ensures
        pat_diags(inputs, lo, hi + 1) == pat_diags(inputs, lo, hi) + (if pat_ok(inputs[hi]) {
            Seq::<Diag>::empty()
        } else {
            seq![Diag { kind: DiagKind::MissingParameterIdentifier, param: hi as usize }]
        }),
    decreases hi - lo,
{
    let tail: Seq<Diag> = if pat_ok(inputs[hi]) {
        Seq::empty()
    } else {
        seq![Diag { kind: DiagKind::MissingParameterIdentifier, param: hi as usize }]
    };
    if lo == hi {
        assert(pat_diags(inputs, lo, hi) =~= Seq::empty());
        assert(pat_diags(inputs, lo + 1, hi + 1) =~= Seq::empty());
        assert(pat_diags(inputs, lo, hi + 1) =~= pat_diags(inputs, lo, hi) + tail);
    } else {
        lemma_pat_diags_snoc(inputs, lo + 1, hi);
        assert(pat_diags(inputs, lo, hi + 1) =~= pat_diags(inputs, lo, hi) + tail);
    }
}

/// Whether the first input passes the first-parameter rule.
fn check_first(inputs: &Vec<FnInput>) -> (r: bool)
    ensures
        r == (inputs@.len() > 0 && first_input_ok(inputs@[0])),
{
    if inputs.len() == 0 {
        return false;
    }
    match &inputs[0] {
        FnInput::Typed(p) => match &p.ty {
            TypeRef::Named { segments } => {
                if segments.len() == 0 {
                    return false;
                }
                let last = &segments[segments.len() - 1];
                if last.len() != 3 {
                    assert(last@ != env_ident());
                    return false;
                }
                let r = last[0] == 69 && last[1] == 110 && last[2] == 118;
                proof {
                    if r {
                        assert(last@ =~= env_ident());
                    } else {
                        assert(last@ != env_ident());
                    }
                }
                r
            },
            _ => false,
        },
        FnInput::Receiver => false,
    }
}

/// Whether a later input passes the type rule.
fn check_rest(inp: &FnInput) -> (r: bool)
    ensures
        r == rest_input_ok(*inp),
{
    match inp {
        FnInput::Typed(p) => matches!(&p.ty, TypeRef::Named { .. }),
        FnInput::Receiver => false,
    }
}

/// Whether an input passes the pattern rule.
fn check_pat(inp: &FnInput) -> (r: bool)
    ensures
        r == pat_ok(*inp),
{
    match inp {
        FnInput::Typed(p) => matches!(&p.pat, ParamPat::Name(_)),
        FnInput::Receiver => true,
    }
}

/// Validates an input list: returns every diagnostic it produces, in report
/// order, and nothing exactly when the list is valid.
pub fn validate_inputs(inputs: &Vec<FnInput>) -> (diags: Vec<Diag>)
    ensures
        diags@ == sig_diags(inputs@),
        diags@.len() == 0 <==> inputs_valid(inputs@),
{
    let n = inputs.len();
    let mut diags: Vec<Diag> = Vec::new();

    if !check_first(inputs) {
        diags.push(Diag { kind: DiagKind::InvalidFirstParameter, param: 0 });
    }
    assert(diags@ =~= first_diags(inputs@));

    let mut i: usize = 1;
    while i < n
        invariant
            1 <= i,
            i <= n || n == 0,
            n == inputs@.len(),
            diags@ == first_diags(inputs@) + rest_diags(inputs@, 1, i as int),
        decreases n - i,
    {
        proof {
            lemma_rest_diags_snoc(inputs@, 1, i as int);
        }
        if !check_rest(&inputs[i]) {
            diags.push(Diag { kind: DiagKind::UnsupportedParameterType, param: i });
        }
        assert(diags@ =~= first_diags(inputs@) + rest_diags(inputs@, 1, i as int + 1));
        i = i + 1;
    }
    let ghost typed_part = first_diags(inputs@) + rest_diags(inputs@, 1, inputs@.len() as int);
    assert(diags@ =~= typed_part);

    let mut j: usize = 0;
    while j < n
        invariant
            j <= n,
            n == inputs@.len(),
            typed_part == first_diags(inputs@) + rest_diags(inputs@, 1, inputs@.len() as int),
            diags@ == typed_part + pat_diags(inputs@, 0, j as int),
        decreases n - j,
    {
        proof {
            lemma_pat_diags_snoc(inputs@, 0, j as int);
        }
        if !check_pat(&inputs[j]) {
            diags.push(Diag { kind: DiagKind::MissingParameterIdentifier, param: j });
        }
        assert(diags@ =~= typed_part + pat_diags(inputs@, 0, j as int + 1));
        j = j + 1;
    }
    assert(diags@ =~= sig_diags(inputs@));
    proof {
        lemma_sig_diags_empty_iff_valid(inputs@);
    }
    diags
}

} // verus!
