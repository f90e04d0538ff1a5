use turbo_tasks_func::DefinitionContext;
use turbo_tasks_func::ast::GenArg;
use turbo_tasks_func::ast::PathSeg;
use turbo_tasks_func::ast::SegArgs;
use turbo_tasks_func::ast::TypeExpr;
use turbo_tasks_func::diag::Rejection;
use turbo_tasks_func::options::FunctionArguments;
use turbo_tasks_func::sig::FnArgModel;
use turbo_tasks_func::sig::PatModel;
use turbo_tasks_func::sig::ReceiverShape;
use turbo_tasks_func::sig::SigModel;
use turbo_tasks_func::turbo_fn::IdentName;
use turbo_tasks_func::turbo_fn::InlineArg;
use turbo_tasks_func::turbo_fn::TurboFn;

fn seg(name: &str) -> PathSeg {
    PathSeg { name: name.to_string(), args: SegArgs::NoArgs }
}

fn seg_of(name: &str, inner: TypeExpr) -> PathSeg {
    PathSeg { name: name.to_string(), args: SegArgs::Angle(vec![GenArg::TyArg(inner)]) }
}

fn path(segments: Vec<PathSeg>) -> TypeExpr {
    TypeExpr::Path { leading_colon: false, segments }
}

fn plain(name: &str) -> TypeExpr {
    path(vec![seg(name)])
}

fn vc_self() -> TypeExpr {
    path(vec![seg("turbo_tasks"), seg_of("Vc", plain("Self"))])
}

fn named_arg(name: &str, ty: TypeExpr, span: u64) -> FnArgModel {
    FnArgModel::Typed {
        has_attrs: false,
        pat: PatModel::Ident { name: name.to_string(), raw: span },
        ty,
        span,
    }
}

fn ref_receiver(span: u64) -> FnArgModel {
    FnArgModel::Receiver { has_attrs: false, shape: ReceiverShape::ByRef, is_mut: false, span }
}

fn base_sig(name: &str, inputs: Vec<FnArgModel>) -> SigModel {
    SigModel {
        ident: name.to_string(),
        has_generics: false,
        generics_span: 100,
        has_where_clause: false,
        where_clause_span: 101,
        inputs,
        output: Some(path(vec![seg_of("Vc", plain("u32"))])),
        output_span: 102,
    }
}

fn no_args() -> FunctionArguments {
    FunctionArguments::default()
}

#[test]
fn ref_receiver_becomes_canonical_handle_to_self() {
    let sig = base_sig("m", vec![ref_receiver(1), named_arg("x", plain("u32"), 2)]);
    let tf = TurboFn::new(&sig, DefinitionContext::ValueInherentImpl, no_args(), 55).unwrap();
    assert!(tf.is_method());
    assert_eq!(tf.this.as_ref().unwrap().ty, vc_self());
    assert_eq!(tf.this.as_ref().unwrap().ident, IdentName::User("self".to_string()));
    // The exposed signature puts the receiver first, at the canonical type.
    let (exposed, diag) = tf.signature();
    assert!(diag.is_none());
    assert_eq!(exposed.ident, "m".to_string());
    assert_eq!(exposed.inputs.len(), 2);
    assert_eq!(exposed.inputs[0].ty, vc_self());
    // The inline body converts only the non-receiver parameter.
    assert_eq!(tf.inline_block.bindings.len(), 1);
    assert_eq!(tf.inline_block.bindings[0].index, 1);
    assert_eq!(tf.inline_block.bindings[0].ty, plain("u32"));
    assert_eq!(tf.inline_block.body, 55);
}

#[test]
fn naked_fn_with_receiver_is_rejected_silently() {
    let sig = base_sig("f", vec![ref_receiver(1)]);
    let rej = TurboFn::new(&sig, DefinitionContext::NakedFn, no_args(), 0).unwrap_err();
    assert_eq!(rej, Rejection::Silent);
}

#[test]
fn mutable_receiver_is_rejected() {
    let sig = base_sig(
        "m",
        vec![FnArgModel::Receiver {
            has_attrs: false,
            shape: ReceiverShape::ByRef,
            is_mut: true,
            span: 3,
        }],
    );
    let rej = TurboFn::new(&sig, DefinitionContext::ValueInherentImpl, no_args(), 0).unwrap_err();
    match rej {
        Rejection::Report(d) => {
            assert_eq!(d.span, 3);
            assert_eq!(
                d.message,
                "#[turbo_tasks::value_impl] inherent methods cannot take self by mutable \
                 reference, use &self or self: Vc<Self> instead"
            );
        }
        Rejection::Silent => panic!("expected a reported diagnostic"),
    }
}

#[test]
fn by_value_receiver_is_rejected() {
    let sig = base_sig(
        "m",
        vec![FnArgModel::Receiver {
            has_attrs: false,
            shape: ReceiverShape::ByValue,
            is_mut: false,
            span: 4,
        }],
    );
    let rej = TurboFn::new(&sig, DefinitionContext::ValueTrait, no_args(), 0).unwrap_err();
    match rej {
        Rejection::Report(d) => {
            assert_eq!(d.span, 4);
            assert_eq!(
                d.message,
                "#[turbo_tasks::value_trait] methods cannot take self by value, use &self or \
                 self: Vc<Self> instead"
            );
        }
        Rejection::Silent => panic!("expected a reported diagnostic"),
    }
}

#[test]
fn custom_lifetime_receiver_is_rejected_at_the_lifetime() {
    let sig = base_sig(
        "m",
        vec![FnArgModel::Receiver {
            has_attrs: false,
            shape: ReceiverShape::ByRefLifetime { lifetime_span: 77 },
            is_mut: false,
            span: 5,
        }],
    );
    let rej = TurboFn::new(&sig, DefinitionContext::ValueInherentImpl, no_args(), 0).unwrap_err();
    match rej {
        Rejection::Report(d) => assert_eq!(d.span, 77),
        Rejection::Silent => panic!("expected a reported diagnostic"),
    }
}

#[test]
fn typed_self_is_accepted_without_type_validation() {
    let sig = base_sig("m", vec![named_arg("self", plain("Whatever"), 6)]);
    let tf = TurboFn::new(&sig, DefinitionContext::ValueTraitImpl, no_args(), 0).unwrap();
    assert!(tf.is_method());
    // The declared type is ignored; the canonical handle-to-Self is used.
    assert_eq!(tf.this.as_ref().unwrap().ty, vc_self());
    assert!(tf.inputs.is_empty());
}

#[test]
fn no_receiver_in_free_function_or_inherent_method_is_accepted() {
    let sig = base_sig("f", vec![named_arg("x", plain("u32"), 1)]);
    let tf = TurboFn::new(&sig, DefinitionContext::NakedFn, no_args(), 0).unwrap();
    assert!(!tf.is_method());
    assert!(tf.this.is_none());
    let tf2 = TurboFn::new(
        &base_sig("f", vec![named_arg("x", plain("u32"), 1)]),
        DefinitionContext::ValueInherentImpl,
        no_args(),
        0,
    )
    .unwrap();
    assert!(tf2.this.is_none());
}

#[test]
fn trait_method_without_receiver_is_rejected() {
    for ctx in [DefinitionContext::ValueTraitImpl, DefinitionContext::ValueTrait] {
        let sig = base_sig("f", vec![named_arg("x", plain("u32"), 11)]);
        let rej = TurboFn::new(&sig, ctx.clone(), no_args(), 0).unwrap_err();
        match rej {
            Rejection::Report(d) => {
                assert_eq!(d.span, 11);
                let expected = match ctx {
                    DefinitionContext::ValueTraitImpl => {
                        "#[turbo_tasks::value_impl] trait methods must accept &self or self: \
                         Vc<Self> as the first argument"
                    }
                    _ => {
                        "#[turbo_tasks::value_trait] methods must accept &self or self: Vc<Self> \
                         as the first argument"
                    }
                };
                assert_eq!(d.message, expected);
            }
            Rejection::Silent => panic!("expected a reported diagnostic"),
        }
    }
}

#[test]
fn generic_parameters_are_always_rejected() {
    let mut sig = base_sig("f", vec![named_arg("x", plain("u32"), 1)]);
    sig.has_generics = true;
    let rej = TurboFn::new(&sig, DefinitionContext::NakedFn, no_args(), 0).unwrap_err();
    match rej {
        Rejection::Report(d) => {
            assert_eq!(d.span, 100);
            assert_eq!(
                d.message,
                "#[turbo_tasks::function] naked functions do not support generic parameters"
            );
        }
        Rejection::Silent => panic!("expected a reported diagnostic"),
    }
}

#[test]
fn where_clause_is_rejected() {
    let mut sig = base_sig("f", vec![]);
    sig.has_where_clause = true;
    let rej = TurboFn::new(&sig, DefinitionContext::NakedFn, no_args(), 0).unwrap_err();
    match rej {
        Rejection::Report(d) => {
            assert_eq!(d.span, 101);
            assert_eq!(
                d.message,
                "#[turbo_tasks::function] naked functions do not support where clauses"
            );
        }
        Rejection::Silent => panic!("expected a reported diagnostic"),
    }
}

#[test]
fn destructured_first_parameter_gets_placeholder_name() {
    let sig = base_sig(
        "f",
        vec![FnArgModel::Typed {
            has_attrs: false,
            pat: PatModel::Other { raw: 31 },
            ty: plain("u32"),
            span: 12,
        }],
    );
    let tf = TurboFn::new(&sig, DefinitionContext::NakedFn, no_args(), 0).unwrap();
    assert_eq!(tf.inputs.len(), 1);
    assert_eq!(tf.inputs[0].ident, IdentName::Arg(1));
}

#[test]
fn destructured_later_parameter_gets_position_indexed_name() {
    let sig = base_sig(
        "f",
        vec![
            named_arg("a", plain("u8"), 1),
            FnArgModel::Typed {
                has_attrs: false,
                pat: PatModel::Other { raw: 32 },
                ty: plain("u16"),
                span: 13,
            },
        ],
    );
    let tf = TurboFn::new(&sig, DefinitionContext::NakedFn, no_args(), 0).unwrap();
    assert_eq!(tf.inputs.len(), 2);
    assert_eq!(tf.inputs[1].ident, IdentName::Arg(2));
}

#[test]
fn later_receiver_is_rejected_silently() {
    let sig = base_sig("f", vec![named_arg("a", plain("u8"), 1), ref_receiver(2)]);
    let rej = TurboFn::new(&sig, DefinitionContext::NakedFn, no_args(), 0).unwrap_err();
    assert_eq!(rej, Rejection::Silent);
}

#[test]
fn attributes_on_first_typed_parameter_are_rejected() {
    let sig = base_sig(
        "f",
        vec![FnArgModel::Typed {
            has_attrs: true,
            pat: PatModel::Ident { name: "x".to_string(), raw: 0 },
            ty: plain("u32"),
            span: 21,
        }],
    );
    let rej = TurboFn::new(&sig, DefinitionContext::NakedFn, no_args(), 0).unwrap_err();
    match rej {
        Rejection::Report(d) => {
            assert_eq!(d.span, 21);
            assert_eq!(
                d.message,
                "#[turbo_tasks::function] naked functions does not support attributes on arguments"
            );
        }
        Rejection::Silent => panic!("expected a reported diagnostic"),
    }
}

#[test]
fn inline_signature_rebinds_parameters_and_expands_types() {
    let resolved_ty = path(vec![seg_of("ResolvedVc", plain("T"))]);
    let sig = base_sig(
        "m",
        vec![ref_receiver(1), named_arg("x", resolved_ty, 2)],
    );
    let tf = TurboFn::new(&sig, DefinitionContext::ValueInherentImpl, no_args(), 0).unwrap();
    assert_eq!(tf.inline_ident, IdentName::InlineSuffix("m".to_string()));
    let inline_sig = tf.inline_signature();
    assert_eq!(inline_sig.ident, IdentName::InlineSuffix("m".to_string()));
    assert_eq!(inline_sig.inputs.len(), 2);
    assert_eq!(inline_sig.inputs[0], InlineArg::Kept(ref_receiver(1)));
    // The non-receiver parameter is rebound by zero-based position with its
    // type in task-input form.
    assert_eq!(
        inline_sig.inputs[1],
        InlineArg::Rebound { index: 1, ty: path(vec![seg_of("Vc", plain("T"))]) }
    );
}

#[test]
fn plan_records_options() {
    let args = FunctionArguments {
        io_markers: Default::default(),
        resolved: Some(40),
        local_cells: Some(40),
    };
    let sig = base_sig("f", vec![]);
    let tf = TurboFn::new(&sig, DefinitionContext::NakedFn, args, 0).unwrap();
    assert_eq!(tf.resolved, Some(40));
    assert!(tf.local_cells);
}

#[test]
fn ref_receiver_is_accepted_in_trait_default_context() {
    let sig = base_sig("m", vec![ref_receiver(1)]);
    let tf = TurboFn::new(&sig, DefinitionContext::ValueTrait, no_args(), 0).unwrap();
    assert!(tf.is_method());
    assert!(tf.inputs.is_empty());
}

#[test]
fn attributes_on_receiver_are_rejected() {
    let sig = base_sig(
        "m",
        vec![FnArgModel::Receiver {
            has_attrs: true,
            shape: ReceiverShape::ByRef,
            is_mut: false,
            span: 8,
        }],
    );
    let rej = TurboFn::new(&sig, DefinitionContext::ValueInherentImpl, no_args(), 0).unwrap_err();
    match rej {
        Rejection::Report(d) => {
            assert_eq!(d.span, 8);
            assert_eq!(
                d.message,
                "#[turbo_tasks::value_impl] inherent methods do not support attributes on \
                 arguments"
            );
        }
        Rejection::Silent => panic!("expected a reported diagnostic"),
    }
}

#[test]
fn empty_return_annotation_becomes_the_unit_type() {
    let mut sig = base_sig("f", vec![]);
    sig.output = None;
    let tf = TurboFn::new(&sig, DefinitionContext::NakedFn, no_args(), 0).unwrap();
    assert_eq!(tf.output, TypeExpr::Tuple { elems: vec![] });
}
