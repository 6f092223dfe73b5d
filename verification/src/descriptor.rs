//! The spec descriptor builder: from a function's identifier and its valid
//! input list it derives a [`SpecRecord`], the static byte record that
//! describes the non-environment parameter types to outside tooling.
//!
//! The record's symbol is a fixed prefix followed by the identifier in upper
//! case. Its bytes are a textual rendering of the left-fold of the parameter
//! types' token texts into one stream: `Some(` the texts joined by single
//! spaces `)`, or the rendering `None` of the empty fold when there are no
//! non-environment parameters — a distinct, well-formed descriptor shape, not
//! an error. Whether the record is placed in the named metadata section of
//! the compiled artifact is a configuration flag consulted once per record.

use vstd::prelude::*;

use crate::ir::{FnInput, TypeRef};
use crate::ir::push_bytes;
use crate::validate::inputs_valid;

verus! {

/// One function's emitted metadata record.
#[derive(Debug, Clone, PartialEq, Eq)]
pub struct SpecRecord {
    /// The symbol the record is keyed by.
    pub symbol: Vec<u8>,
    /// The record's byte content.
    pub bytes: Vec<u8>,
    /// Whether the record is placed in the named metadata section; where
    /// section attribution means nothing, the record stands unattributed.
    pub in_section: bool,
}

/// A byte in upper case: the lower-case letters map to their upper-case
/// forms, every other byte stays itself.
pub open spec fn upper_byte(b: u8) -> u8 {
    if 97 <= b <= 122 {
        (b - 32) as u8
    } else {
        b
    }
}

/// A byte string in upper case, byte for byte.
pub open spec fn upper_bytes(s: Seq<u8>) -> Seq<u8> {
    s.map_values(|b: u8| upper_byte(b))
}

/// The fixed prefix of every record symbol: the bytes of `__SPEC_`.
pub open spec fn symbol_prefix() -> Seq<u8> {
    seq![95u8, 95u8, 83u8, 80u8, 69u8, 67u8, 95u8]
}

/// The symbol a record is keyed by: the prefix, then the identifier in upper
/// case. The identifier is upper-cased byte by byte, so only its ASCII
/// letters change: a letter outside ASCII keeps its bytes, and such an
/// identifier yields a symbol that is not its full upper-case form.
pub open spec fn record_symbol(ident: Seq<u8>) -> Seq<u8> {
    symbol_prefix() + upper_bytes(ident)
}

/// The name of the metadata section the records are placed in: the bytes of
/// `contractspecv0`.
pub open spec fn section_name() -> Seq<u8> {
    seq![99u8, 111u8, 110u8, 116u8, 114u8, 97u8, 99u8, 116u8, 115u8, 112u8, 101u8, 99u8, 118u8, 48u8]
}

/// The token text of the path separator, `::`.
pub open spec fn path_sep() -> Seq<u8> {
    seq![58u8, 58u8]
}

/// The token text of a named type from its `i`-th segment on: the segments
/// joined by the path separator.
pub open spec fn segments_text(segs: Seq<Vec<u8>>, i: int) -> Seq<u8>
    decreases segs.len() - i,
{
    if i < 0 || i >= segs.len() {
        Seq::empty()
    } else if i == segs.len() - 1 {
        segs[i]@
    } else {
        segs[i]@ + path_sep() + segments_text(segs, i + 1)
    }
}

/// The token text of a declared type; empty for the shapes the validator
/// rejects, which never reach a record.
pub open spec fn type_text(t: TypeRef) -> Seq<u8> {
    match t {
        TypeRef::Named { segments } => segments_text(segments@, 0),
        _ => Seq::empty(),
    }
}

/// The token text of one input's type.
pub open spec fn input_text(inp: FnInput) -> Seq<u8> {
    match inp {
        FnInput::Typed(p) => type_text(p.ty),
        FnInput::Receiver => Seq::empty(),
    }
}

/// The left-fold of the input types' token texts from the `i`-th input on:
/// the texts joined by single spaces.
pub open spec fn fold_text(inputs: Seq<FnInput>, i: int) -> Seq<u8>
    decreases inputs.len() - i,
{
    if i < 0 || i >= inputs.len() {
        Seq::empty()
    } else if i == inputs.len() - 1 {
        input_text(inputs[i])
    } else {
        input_text(inputs[i]) + seq![32u8] + fold_text(inputs, i + 1)
    }
}

/// The rendering of the empty fold: the bytes of `None`.
pub open spec fn empty_fold_text() -> Seq<u8> {
    seq![78u8, 111u8, 110u8, 101u8]
}

/// The opening of a non-empty rendering: the bytes of `Some(`.
pub open spec fn some_open() -> Seq<u8> {
    seq![83u8, 111u8, 109u8, 101u8, 40u8]
}

/// A record's byte content for an input list: the rendering of the fold of
/// the non-environment parameter types' token texts, or the empty-fold
/// rendering where there are none.
pub open spec fn descriptor_bytes(inputs: Seq<FnInput>) -> Seq<u8> {
    if inputs.len() <= 1 {
        empty_fold_text()
    } else {
        some_open() + fold_text(inputs, 1) + seq![41u8]
    }
}

/// The empty-fold descriptor is well-formed — never empty — and distinct
/// from the descriptor of every input list with a non-environment parameter.
pub proof fn lemma_empty_descriptor_distinct(a: Seq<FnInput>, b: Seq<FnInput>)
    requires
        a.len() <= 1,
        b.len() > 1,
    ensures
        descriptor_bytes(a).len() > 0,
        descriptor_bytes(a) != descriptor_bytes(b),
{
    assert(descriptor_bytes(a)[0] == 78);
    assert(descriptor_bytes(b)[0] == (some_open() + fold_text(b, 1) + seq![41u8])[0]);
    assert(descriptor_bytes(b)[0] == 83);
}

/// A byte in upper case.
fn upper_byte_ex(b: u8) -> (r: u8)
    ensures
        r == upper_byte(b),
{
    if 97 <= b && b <= 122 {
        b - 32
    } else {
        b
    }
}

/// Appends the token text of a declared type.
fn push_type_text(out: &mut Vec<u8>, t: &TypeRef)
    ensures
        final(out)@ == old(out)@ + type_text(*t),
{
    match t {
        TypeRef::Named { segments } => {
            let n = segments.len();
            let mut i: usize = 0;
            while i < n
                invariant
                    i <= n,
                    n == segments@.len(),
                    out@ + segments_text(segments@, i as int) == old(out)@ + segments_text(
                        segments@,
                        0,
                    ),
                decreases n - i,
            {
                push_bytes(out, &segments[i]);
                if i + 1 < n {
                    out.push(58);
                    out.push(58);
                    assert(segments_text(segments@, i as int) == segments@[i as int]@ + path_sep()
                        + segments_text(segments@, i as int + 1));
                } else {
                    assert(segments_text(segments@, i as int) == segments@[i as int]@);
                    assert(segments_text(segments@, i as int + 1) =~= Seq::empty());
                }
                assert(out@ + segments_text(segments@, i as int + 1) =~= old(out)@
                    + segments_text(segments@, 0));
                i = i + 1;
            }
            assert(out@ =~= old(out)@ + segments_text(segments@, 0));
        },
        _ => {
            assert(out@ =~= old(out)@ + type_text(*t));
        },
    }
}

/// Builds the spec record of a valid signature: its symbol is the prefixed,
/// upper-cased identifier; its bytes render the fold of the non-environment
/// parameter types; its section placement follows the given flag.
pub fn build_spec_record(ident: &Vec<u8>, inputs: &Vec<FnInput>, sectioned: bool) -> (r: SpecRecord)
    requires
        inputs_valid(inputs@),
    ensures
        r.symbol@ == record_symbol(ident@),
        r.bytes@ == descriptor_bytes(inputs@),
        r.in_section == sectioned,
{
    let mut symbol: Vec<u8> = Vec::new();
    symbol.push(95);
    symbol.push(95);
    symbol.push(83);
    symbol.push(80);
    symbol.push(69);
    symbol.push(67);
    symbol.push(95);
    assert(symbol@ =~= symbol_prefix());
    let m = ident.len();
    let mut i: usize = 0;
    while i < m
        invariant
            i <= m,
            m == ident@.len(),
            symbol@ == symbol_prefix() + upper_bytes(ident@.subrange(0, i as int)),
        decreases m - i,
    {
        symbol.push(upper_byte_ex(ident[i]));
        assert(symbol@ =~= symbol_prefix() + upper_bytes(ident@.subrange(0, i as int + 1)));
        i = i + 1;
    }
    assert(ident@.subrange(0, m as int) =~= ident@);
    assert(symbol@ =~= record_symbol(ident@));

    let n = inputs.len();
    let mut bytes: Vec<u8> = Vec::new();
    if n <= 1 {
        bytes.push(78);
        bytes.push(111);
        bytes.push(110);
        bytes.push(101);
        assert(bytes@ =~= descriptor_bytes(inputs@));
    } else {
        bytes.push(83);
        bytes.push(111);
        bytes.push(109);
        bytes.push(101);
        bytes.push(40);
        assert(bytes@ =~= some_open());
        let mut k: usize = 1;
        while k < n
            invariant
                1 <= k <= n,
                n == inputs@.len(),
                n > 1,
                bytes@ + fold_text(inputs@, k as int) == some_open() + fold_text(inputs@, 1),
            decreases n - k,
        {
            match &inputs[k] {
                FnInput::Typed(p) => push_type_text(&mut bytes, &p.ty),
                FnInput::Receiver => (),
            }
            if k + 1 < n {
                bytes.push(32);
                assert(fold_text(inputs@, k as int) =~= input_text(inputs@[k as int]) + seq![32u8]
                    + fold_text(inputs@, k as int + 1));
            } else {
                assert(fold_text(inputs@, k as int) =~= input_text(inputs@[k as int]));
            }
            assert(bytes@ + fold_text(inputs@, k as int + 1) =~= some_open() + fold_text(
                inputs@,
                1,
            ));
            k = k + 1;
        }
        bytes.push(41);
        assert(bytes@ =~= descriptor_bytes(inputs@));
    }

    SpecRecord { symbol, bytes, in_section: sectioned }
}

/// The name of the metadata section, for the build surface that renders the
/// records.
pub fn metadata_section_name() -> (r: Vec<u8>)
    ensures
        r@ == section_name(),
{
    let mut r: Vec<u8> = Vec::new();
    r.push(99);
    r.push(111);
    r.push(110);
    r.push(116);
    r.push(114);
    r.push(97);
    r.push(99);
    r.push(116);
    r.push(115);
    r.push(112);
    r.push(101);
    r.push(99);
    r.push(118);
    r.push(48);
    assert(r@ =~= section_name());
    r
}

} // verus!
