use turbo_tasks_func::DefinitionContext;
use turbo_tasks_func::ast::GenArg;
use turbo_tasks_func::ast::PathSeg;
use turbo_tasks_func::ast::SegArgs;
use turbo_tasks_func::ast::TypeExpr;
use turbo_tasks_func::gen::DispatchCall;
use turbo_tasks_func::gen::ExposedBlock;
use turbo_tasks_func::gen::PersistenceExpr;
use turbo_tasks_func::options::FunctionArguments;
use turbo_tasks_func::sig::FnArgModel;
use turbo_tasks_func::sig::PatModel;
use turbo_tasks_func::sig::ReceiverShape;
use turbo_tasks_func::sig::SigModel;
use turbo_tasks_func::turbo_fn::IdentName;
use turbo_tasks_func::turbo_fn::TurboFn;

fn seg(name: &str) -> PathSeg {
    PathSeg { name: name.to_string(), args: SegArgs::NoArgs }
}

fn seg_of(name: &str, inner: TypeExpr) -> PathSeg {
    PathSeg { name: name.to_string(), args: SegArgs::Angle(vec![GenArg::TyArg(inner)]) }
}

fn path(segments: Vec<PathSeg>) -> TypeExpr {
    TypeExpr::Path { leading_colon: false, segments }
}

fn plain(name: &str) -> TypeExpr {
    path(vec![seg(name)])
}

fn named_arg(name: &str, ty: TypeExpr, span: u64) -> FnArgModel {
    FnArgModel::Typed {
        has_attrs: false,
        pat: PatModel::Ident { name: name.to_string(), raw: span },
        ty,
        span,
    }
}

fn ref_receiver(span: u64) -> FnArgModel {
    FnArgModel::Receiver { has_attrs: false, shape: ReceiverShape::ByRef, is_mut: false, span }
}

fn sig_with(name: &str, inputs: Vec<FnArgModel>, output: TypeExpr) -> SigModel {
    SigModel {
        ident: name.to_string(),
        has_generics: false,
        generics_span: 100,
        has_where_clause: false,
        where_clause_span: 101,
        inputs,
        output: Some(output),
        output_span: 102,
    }
}

fn handle_output() -> TypeExpr {
    path(vec![seg_of("Vc", plain("u32"))])
}

#[test]
fn dynamic_block_without_receiver_is_the_unimplemented_stub() {
    let sig = sig_with("f", vec![named_arg("x", plain("u32"), 1)], handle_output());
    let tf = TurboFn::new(&sig, DefinitionContext::NakedFn, FunctionArguments::default(), 0)
        .unwrap();
    let block = tf.dynamic_block(&"TRAIT_ID".to_string());
    assert_eq!(block, ExposedBlock::Unimplemented);
}

#[test]
fn dynamic_block_with_receiver_calls_through_the_trait() {
    let sig = sig_with(
        "method_name",
        vec![ref_receiver(1), named_arg("x", plain("u32"), 2), named_arg("y", plain("u8"), 3)],
        handle_output(),
    );
    let tf = TurboFn::new(
        &sig,
        DefinitionContext::ValueTraitImpl,
        FunctionArguments::default(),
        0,
    )
    .unwrap();
    let block = match tf.dynamic_block(&"TRAIT_ID".to_string()) {
        ExposedBlock::Call(b) => b,
        ExposedBlock::Unimplemented => panic!("expected a call block"),
    };
    assert_eq!(block.converted_this, Some(IdentName::User("self".to_string())));
    assert_eq!(
        block.input_idents,
        vec![IdentName::User("x".to_string()), IdentName::User("y".to_string())]
    );
    assert_eq!(block.persistence, PersistenceExpr::FromInputsAndThis);
    assert_eq!(block.output_ty, handle_output());
    assert!(block.assertion.is_none());
    assert_eq!(
        block.call,
        DispatchCall::TraitCall {
            trait_type_id: IdentName::User("TRAIT_ID".to_string()),
            method_name: IdentName::User("method_name".to_string()),
        }
    );
}

#[test]
fn static_block_with_receiver_uses_the_this_entry_point() {
    let sig = sig_with("m", vec![ref_receiver(1), named_arg("x", plain("u32"), 2)], handle_output());
    let tf = TurboFn::new(
        &sig,
        DefinitionContext::ValueInherentImpl,
        FunctionArguments::default(),
        0,
    )
    .unwrap();
    let block = tf.static_block(&"FN_ID".to_string());
    assert_eq!(block.converted_this, Some(IdentName::User("self".to_string())));
    assert_eq!(block.persistence, PersistenceExpr::FromInputsAndThis);
    assert_eq!(
        block.call,
        DispatchCall::DynamicThisCall { native_function_id: IdentName::User("FN_ID".to_string()) }
    );
}

#[test]
fn static_block_without_receiver_uses_the_plain_entry_point() {
    let sig = sig_with("f", vec![named_arg("x", plain("u32"), 1)], handle_output());
    let tf = TurboFn::new(&sig, DefinitionContext::NakedFn, FunctionArguments::default(), 0)
        .unwrap();
    let block = tf.static_block(&"FN_ID".to_string());
    assert_eq!(block.converted_this, None);
    assert_eq!(block.persistence, PersistenceExpr::FromInputs);
    assert_eq!(
        block.call,
        DispatchCall::DynamicCall { native_function_id: IdentName::User("FN_ID".to_string()) }
    );
}

#[test]
fn local_cells_fixes_the_persistence_mode() {
    let args = FunctionArguments {
        io_markers: Default::default(),
        resolved: Some(5),
        local_cells: Some(5),
    };
    let sig = sig_with("f", vec![named_arg("x", plain("u32"), 1)], handle_output());
    let tf = TurboFn::new(&sig, DefinitionContext::NakedFn, args, 0).unwrap();
    assert_eq!(tf.persistence(), PersistenceExpr::LocalCells);
    assert_eq!(tf.persistence_with_this(), PersistenceExpr::LocalCells);
    let block = tf.static_block(&"FN_ID".to_string());
    assert_eq!(block.persistence, PersistenceExpr::LocalCells);
}

#[test]
fn resolved_flag_prefixes_an_assertion() {
    let args = FunctionArguments {
        io_markers: Default::default(),
        resolved: Some(66),
        local_cells: None,
    };
    let sig = sig_with("f", vec![named_arg("x", plain("u32"), 1)], handle_output());
    let tf = TurboFn::new(&sig, DefinitionContext::NakedFn, args, 0).unwrap();
    let block = tf.static_block(&"FN_ID".to_string());
    let assertion = block.assertion.unwrap();
    assert_eq!(assertion.span, 66);
    assert_eq!(assertion.return_ty, handle_output());
}

#[test]
fn signature_reports_the_return_type_diagnostic_on_bad_output() {
    let sig = sig_with("f", vec![], plain("i32"));
    let tf = TurboFn::new(&sig, DefinitionContext::NakedFn, FunctionArguments::default(), 0)
        .unwrap();
    let (exposed, diag) = tf.signature();
    let d = diag.unwrap();
    assert_eq!(d.span, 102);
    assert_eq!(
        d.message,
        "Expected return type to be `turbo_tasks::Vc<T>` or `anyhow::Result<Vc<T>>`. Unable to \
         process type."
    );
    // The best-effort type is kept as the nominal output.
    assert_eq!(exposed.output, plain("i32"));
}

#[test]
fn signature_expands_parameter_and_output_types() {
    let resolved_ty = path(vec![seg_of("ResolvedVc", plain("T"))]);
    let output = path(vec![seg_of("Result", path(vec![seg_of("Vc", plain("T"))]))]);
    let sig = sig_with("f", vec![named_arg("x", resolved_ty, 1)], output);
    let tf = TurboFn::new(&sig, DefinitionContext::NakedFn, FunctionArguments::default(), 0)
        .unwrap();
    let (exposed, diag) = tf.signature();
    assert!(diag.is_none());
    assert_eq!(exposed.inputs.len(), 1);
    assert_eq!(exposed.inputs[0].ident, IdentName::User("x".to_string()));
    assert_eq!(exposed.inputs[0].ty, path(vec![seg_of("Vc", plain("T"))]));
    assert_eq!(exposed.output, path(vec![seg_of("Vc", plain("T"))]));
    // The trait form carries the same signature.
    let (trait_sig, trait_diag) = tf.trait_signature();
    assert!(trait_diag.is_none());
    assert_eq!(trait_sig.sig, exposed);
}

#[test]
fn input_types_lists_declared_types_in_order() {
    let sig = sig_with(
        "f",
        vec![named_arg("a", plain("u8"), 1), named_arg("b", plain("u16"), 2)],
        handle_output(),
    );
    let tf = TurboFn::new(&sig, DefinitionContext::NakedFn, FunctionArguments::default(), 0)
        .unwrap();
    let tys = tf.input_types();
    assert_eq!(tys.len(), 2);
    assert_eq!(*tys[0], plain("u8"));
    assert_eq!(*tys[1], plain("u16"));
}
