use contractgen::descriptor::metadata_section_name;
use contractgen::expand::{expand_fn, expand_impl, Expansion, ImplBlock, ImplMember, MethodDecl, Visibility};
use contractgen::ir::{FnInput, FnSig, Param, ParamPat, RetKind, TypeRef};
use contractgen::validate::{validate_inputs, Diag, DiagKind};
use contractgen::wrap::{ArgExpr, CallTarget, Finish};

fn named(segments: &[&[u8]]) -> TypeRef {
    TypeRef::Named { segments: segments.iter().map(|s| s.to_vec()).collect() }
}

fn typed(name: &[u8], ty: TypeRef) -> FnInput {
    FnInput::Typed(Param { pat: ParamPat::Name(name.to_vec()), ty })
}

fn env_param() -> FnInput {
    typed(b"env", named(&[b"Env"]))
}

fn sig(ident: &[u8], inputs: Vec<FnInput>, output: RetKind) -> FnSig {
    FnSig { ident: ident.to_vec(), inputs, output }
}

#[test]
fn scenario_env_only_void() {
    let s = sig(b"tick", vec![env_param()], RetKind::Void);
    match expand_fn(&s, true) {
        Expansion::Generated { wrapper, record } => {
            assert_eq!(wrapper.export_name, b"tick".to_vec());
            assert_eq!(wrapper.inner_name, b"__tick".to_vec());
            assert_eq!(wrapper.env_name, b"env".to_vec());
            assert!(wrapper.raw_params.is_empty());
            assert_eq!(wrapper.call_args, vec![ArgExpr::EnvClone]);
            assert_eq!(wrapper.finish, Finish::VoidSentinel);
            assert_eq!(record.symbol, b"__SPEC_TICK".to_vec());
            assert_eq!(record.bytes, b"None".to_vec());
            assert!(record.in_section);
        },
        Expansion::Failure(_) => panic!("valid signature was rejected"),
    }
}

#[test]
fn scenario_env_u32_to_bool() {
    let s = sig(
        b"check",
        vec![env_param(), typed(b"x", named(&[b"U32"]))],
        RetKind::Typed(named(&[b"Bool"])),
    );
    match expand_fn(&s, true) {
        Expansion::Generated { wrapper, record } => {
            assert_eq!(wrapper.export_name, b"check".to_vec());
            assert_eq!(wrapper.env_name, b"env".to_vec());
            assert_eq!(wrapper.raw_params, vec![b"x".to_vec()]);
            assert_eq!(wrapper.call_args, vec![ArgExpr::EnvClone, ArgExpr::FromRaw(0)]);
            assert_eq!(wrapper.finish, Finish::EncodeResult);
            assert_eq!(record.symbol, b"__SPEC_CHECK".to_vec());
            assert_eq!(record.bytes, b"Some(U32)".to_vec());
            assert_ne!(record.bytes, b"None".to_vec());
        },
        Expansion::Failure(_) => panic!("valid signature was rejected"),
    }
}

#[test]
fn scenario_missing_env_rejected() {
    let s = sig(b"f", vec![typed(b"x", named(&[b"U32"]))], RetKind::Void);
    match expand_fn(&s, true) {
        Expansion::Failure(diags) => {
            assert_eq!(diags, vec![Diag { kind: DiagKind::InvalidFirstParameter, param: 0 }]);
        },
        Expansion::Generated { .. } => panic!("signature without an Env parameter was accepted"),
    }
}

#[test]
fn scenario_tuple_parameter_rejected() {
    let s = sig(b"f", vec![env_param(), FnInput::Typed(Param { pat: ParamPat::Name(b"pair".to_vec()), ty: TypeRef::Tuple })], RetKind::Void);
    match expand_fn(&s, true) {
        Expansion::Failure(diags) => {
            assert_eq!(diags, vec![Diag { kind: DiagKind::UnsupportedParameterType, param: 1 }]);
        },
        Expansion::Generated { .. } => panic!("tuple parameter was accepted"),
    }
}

#[test]
fn scenario_trait_impl_selects_private_method() {
    let method = MethodDecl {
        vis: Visibility::Inherited,
        sig: sig(b"run", vec![env_param()], RetKind::Void),
    };
    let trait_block = ImplBlock {
        trait_impl: true,
        self_ty: b"Contract".to_vec(),
        members: vec![ImplMember::Method(method.clone())],
    };
    let out = expand_impl(&trait_block, true);
    assert_eq!(out.len(), 1);
    match &out[0] {
        Expansion::Generated { wrapper, .. } => {
            assert_eq!(wrapper.export_name, b"run".to_vec());
            assert_eq!(
                wrapper.target,
                CallTarget::Method { self_ty: b"Contract".to_vec() },
            );
        },
        Expansion::Failure(_) => panic!("valid method was rejected"),
    }

    let plain_block = ImplBlock {
        trait_impl: false,
        self_ty: b"Contract".to_vec(),
        members: vec![ImplMember::Method(method)],
    };
    let out = expand_impl(&plain_block, true);
    assert!(out.is_empty());
}

#[test]
fn inherent_impl_selects_public_method_only() {
    let make = |vis: Visibility, name: &[u8]| {
        ImplMember::Method(MethodDecl { vis, sig: sig(name, vec![env_param()], RetKind::Void) })
    };
    let block = ImplBlock {
        trait_impl: false,
        self_ty: b"Token".to_vec(),
        members: vec![
            make(Visibility::Public, b"mint"),
            make(Visibility::Restricted, b"audit"),
            make(Visibility::Inherited, b"helper"),
            ImplMember::Other,
            make(Visibility::Public, b"burn"),
        ],
    };
    let out = expand_impl(&block, false);
    assert_eq!(out.len(), 2);
    match (&out[0], &out[1]) {
        (Expansion::Generated { wrapper: w0, record: r0 }, Expansion::Generated { wrapper: w1, .. }) => {
            assert_eq!(w0.export_name, b"mint".to_vec());
            assert_eq!(w1.export_name, b"burn".to_vec());
            assert!(!r0.in_section);
        },
        _ => panic!("public methods were rejected"),
    }
}

#[test]
fn impl_failures_are_independent() {
    let good = MethodDecl {
        vis: Visibility::Public,
        sig: sig(b"ok", vec![env_param()], RetKind::Void),
    };
    let bad = MethodDecl {
        vis: Visibility::Public,
        sig: sig(b"broken", vec![typed(b"x", named(&[b"U32"]))], RetKind::Void),
    };
    let block = ImplBlock {
        trait_impl: false,
        self_ty: b"Pair".to_vec(),
        members: vec![ImplMember::Method(bad), ImplMember::Method(good)],
    };
    let out = expand_impl(&block, true);
    assert_eq!(out.len(), 2);
    assert!(matches!(&out[0], Expansion::Failure(_)));
    assert!(matches!(&out[1], Expansion::Generated { .. }));
}

#[test]
fn all_diagnostics_collected_at_once() {
    let inputs = vec![
        FnInput::Typed(Param { pat: ParamPat::Name(b"r".to_vec()), ty: TypeRef::Reference }),
        FnInput::Typed(Param { pat: ParamPat::Composite, ty: TypeRef::Tuple }),
        FnInput::Receiver,
    ];
    let diags = validate_inputs(&inputs);
    assert_eq!(
        diags,
        vec![
            Diag { kind: DiagKind::InvalidFirstParameter, param: 0 },
            Diag { kind: DiagKind::UnsupportedParameterType, param: 1 },
            Diag { kind: DiagKind::UnsupportedParameterType, param: 2 },
            Diag { kind: DiagKind::MissingParameterIdentifier, param: 1 },
        ],
    );
}

#[test]
fn empty_input_list_reports_invalid_first_parameter() {
    let diags = validate_inputs(&Vec::new());
    assert_eq!(diags, vec![Diag { kind: DiagKind::InvalidFirstParameter, param: 0 }]);
}

#[test]
fn receiver_first_reports_invalid_first_parameter() {
    let diags = validate_inputs(&vec![FnInput::Receiver]);
    assert_eq!(diags, vec![Diag { kind: DiagKind::InvalidFirstParameter, param: 0 }]);
}

#[test]
fn generic_parameter_rejected() {
    let inputs = vec![
        env_param(),
        FnInput::Typed(Param { pat: ParamPat::Name(b"w".to_vec()), ty: TypeRef::Generic }),
    ];
    let diags = validate_inputs(&inputs);
    assert_eq!(diags, vec![Diag { kind: DiagKind::UnsupportedParameterType, param: 1 }]);
}

#[test]
fn qualified_env_path_accepted() {
    let inputs = vec![typed(b"env", named(&[b"sdk", b"Env"]))];
    assert!(validate_inputs(&inputs).is_empty());
}

#[test]
fn wrong_nominal_first_type_rejected() {
    let inputs = vec![typed(b"env", named(&[b"Envelope"]))];
    let diags = validate_inputs(&inputs);
    assert_eq!(diags, vec![Diag { kind: DiagKind::InvalidFirstParameter, param: 0 }]);
}

#[test]
fn descriptor_joins_qualified_types_with_spaces() {
    let s = sig(
        b"transfer",
        vec![
            env_param(),
            typed(b"to", named(&[b"sdk", b"Address"])),
            typed(b"amount", named(&[b"I128"])),
        ],
        RetKind::Void,
    );
    match expand_fn(&s, true) {
        Expansion::Generated { wrapper, record } => {
            assert_eq!(record.bytes, b"Some(sdk::Address I128)".to_vec());
            assert_eq!(wrapper.raw_params, vec![b"to".to_vec(), b"amount".to_vec()]);
            assert_eq!(
                wrapper.call_args,
                vec![ArgExpr::EnvClone, ArgExpr::FromRaw(0), ArgExpr::FromRaw(1)],
            );
        },
        Expansion::Failure(_) => panic!("valid signature was rejected"),
    }
}

#[test]
fn symbol_uppercases_identifier() {
    let s = sig(b"do_thing2", vec![env_param()], RetKind::Void);
    match expand_fn(&s, true) {
        Expansion::Generated { record, .. } => {
            assert_eq!(record.symbol, b"__SPEC_DO_THING2".to_vec());
        },
        Expansion::Failure(_) => panic!("valid signature was rejected"),
    }
}

#[test]
fn section_name_is_stable() {
    assert_eq!(metadata_section_name(), b"contractspecv0".to_vec());
}
