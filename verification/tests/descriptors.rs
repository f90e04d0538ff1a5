use turbo_tasks_func::DefinitionContext;
use turbo_tasks_func::ast::GenArg;
use turbo_tasks_func::ast::PathSeg;
use turbo_tasks_func::ast::SegArgs;
use turbo_tasks_func::ast::TypeExpr;
use turbo_tasks_func::native_fn::NativeFn;

fn seg(name: &str) -> PathSeg {
    PathSeg { name: name.to_string(), args: SegArgs::NoArgs }
}

fn lazy_of(inner: TypeExpr) -> TypeExpr {
    TypeExpr::Path {
        leading_colon: false,
        segments: vec![
            seg("turbo_tasks"),
            seg("macro_helpers"),
            PathSeg { name: "Lazy".to_string(), args: SegArgs::Angle(vec![GenArg::TyArg(inner)]) },
        ],
    }
}

fn path2(a: &str, b: &str) -> TypeExpr {
    TypeExpr::Path { leading_colon: false, segments: vec![seg(a), seg(b)] }
}

#[test]
fn descriptor_type_is_a_lazy_native_function() {
    let nf = NativeFn::new("module::f_inline", 9, false, false);
    assert_eq!(nf.ty(), lazy_of(path2("turbo_tasks", "NativeFunction")));
}

#[test]
fn id_type_is_a_lazy_function_id() {
    let nf = NativeFn::new("module::f_inline", 9, false, false);
    assert_eq!(nf.id_ty(), lazy_of(path2("turbo_tasks", "FunctionId")));
}

#[test]
fn method_descriptor_uses_the_method_constructor() {
    let nf = NativeFn::new("module::m_inline", 9, true, true);
    let def = nf.definition();
    assert!(def.constructor_is_method);
    assert_eq!(def.function_path_string, "module::m_inline".to_string());
    assert!(def.local_cells);
    assert_eq!(def.function_path, 9);
}

#[test]
fn function_descriptor_uses_the_function_constructor() {
    let nf = NativeFn::new("module::f_inline", 8, false, false);
    let def = nf.definition();
    assert!(!def.constructor_is_method);
    assert!(!def.local_cells);
}

#[test]
fn id_definition_looks_up_the_descriptor_path() {
    let nf = NativeFn::new("module::f_inline", 8, false, false);
    let id_def = nf.id_definition(42);
    assert_eq!(id_def.native_function_id_path, 42);
}

#[test]
fn context_names_match_their_attributes() {
    assert_eq!(
        DefinitionContext::NakedFn.function_type(),
        "#[turbo_tasks::function] naked functions"
    );
    assert_eq!(
        DefinitionContext::ValueInherentImpl.function_type(),
        "#[turbo_tasks::value_impl] inherent methods"
    );
    assert_eq!(
        DefinitionContext::ValueTraitImpl.function_type(),
        "#[turbo_tasks::value_impl] trait methods"
    );
    assert_eq!(
        DefinitionContext::ValueTrait.function_type(),
        "#[turbo_tasks::value_trait] methods"
    );
}
