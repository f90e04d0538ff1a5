use turbo_tasks_func::ast::GenArg;
use turbo_tasks_func::ast::PathSeg;
use turbo_tasks_func::ast::SegArgs;
use turbo_tasks_func::ast::TypeExpr;
use turbo_tasks_func::ast::copy_type;
use turbo_tasks_func::expand::expand_task_input_type;
use turbo_tasks_func::expand::expand_vc_return_type;
use turbo_tasks_func::expand::return_type_to_type;

fn seg(name: &str) -> PathSeg {
    PathSeg { name: name.to_string(), args: SegArgs::NoArgs }
}

fn seg_of(name: &str, inner: TypeExpr) -> PathSeg {
    PathSeg { name: name.to_string(), args: SegArgs::Angle(vec![GenArg::TyArg(inner)]) }
}

fn path(segments: Vec<PathSeg>) -> TypeExpr {
    TypeExpr::Path { leading_colon: false, segments }
}

fn plain(name: &str) -> TypeExpr {
    path(vec![seg(name)])
}

#[test]
fn resolved_handle_is_rewritten_to_handle() {
    let t = path(vec![seg_of("ResolvedVc", plain("T"))]);
    let expanded = expand_task_input_type(&t);
    assert_eq!(expanded, path(vec![seg_of("Vc", plain("T"))]));
}

#[test]
fn qualified_resolved_handle_is_rewritten() {
    let t = path(vec![seg("turbo_tasks"), seg_of("ResolvedVc", plain("T"))]);
    let expanded = expand_task_input_type(&t);
    assert_eq!(expanded, path(vec![seg("turbo_tasks"), seg_of("Vc", plain("T"))]));
}

#[test]
fn nested_containers_rewrite_only_innermost() {
    // Vec<Option<ResolvedVc<T>>> becomes Vec<Option<Vc<T>>>.
    let t = path(vec![seg_of(
        "Vec",
        path(vec![seg_of("Option", path(vec![seg_of("ResolvedVc", plain("T"))]))]),
    )]);
    let expanded = expand_task_input_type(&t);
    let expected = path(vec![seg_of(
        "Vec",
        path(vec![seg_of("Option", path(vec![seg_of("Vc", plain("T"))]))]),
    )]);
    assert_eq!(expanded, expected);
}

#[test]
fn expansion_is_idempotent_on_expanded_value() {
    let t = path(vec![seg_of(
        "Vec",
        path(vec![seg_of("Option", path(vec![seg_of("ResolvedVc", plain("T"))]))]),
    )]);
    let once = expand_task_input_type(&t);
    let twice = expand_task_input_type(&once);
    assert_eq!(once, twice);
}

#[test]
fn std_qualified_sequence_is_recognized() {
    let t = path(vec![seg("std"), seg("vec"), seg_of("Vec", path(vec![seg_of("ResolvedVc", plain("T"))]))]);
    let expanded = expand_task_input_type(&t);
    let expected = path(vec![seg("std"), seg("vec"), seg_of("Vec", path(vec![seg_of("Vc", plain("T"))]))]);
    assert_eq!(expanded, expected);
}

#[test]
fn leading_colon_path_is_left_unchanged() {
    let t = TypeExpr::Path {
        leading_colon: true,
        segments: vec![seg_of("ResolvedVc", plain("T"))],
    };
    let expanded = expand_task_input_type(&t);
    assert_eq!(expanded, t);
}

#[test]
fn handle_type_is_left_unchanged() {
    let t = path(vec![seg("turbo_tasks"), seg_of("Vc", plain("T"))]);
    let expanded = expand_task_input_type(&t);
    assert_eq!(expanded, t);
}

#[test]
fn unrecognized_type_is_left_unchanged() {
    let t = path(vec![seg("i32")]);
    assert_eq!(expand_task_input_type(&t), t);
    let tup = TypeExpr::Tuple { elems: vec![plain("A"), plain("B")] };
    assert_eq!(expand_task_input_type(&tup), tup);
}

#[test]
fn group_is_unwrapped_before_matching() {
    let t = TypeExpr::Group {
        inner: Box::new(path(vec![seg_of("ResolvedVc", plain("T"))])),
    };
    let expanded = expand_task_input_type(&t);
    assert_eq!(expanded, path(vec![seg_of("Vc", plain("T"))]));
}

fn vc_unit() -> TypeExpr {
    path(vec![
        seg("turbo_tasks"),
        seg_of("Vc", TypeExpr::Tuple { elems: vec![] }),
    ])
}

#[test]
fn unit_output_expands_to_handle_of_unit() {
    let t = TypeExpr::Tuple { elems: vec![] };
    let (expanded, found) = expand_vc_return_type(&t);
    assert!(found);
    assert_eq!(expanded, vc_unit());
}

#[test]
fn result_of_handle_unwraps_to_handle() {
    let handle = path(vec![seg_of("Vc", plain("T"))]);
    let t = path(vec![seg_of("Result", copy_type(&handle))]);
    let (expanded, found) = expand_vc_return_type(&t);
    assert!(found);
    assert_eq!(expanded, handle);
}

#[test]
fn prefixed_result_of_prefixed_handle_unwraps() {
    let handle = path(vec![seg("turbo_tasks"), seg_of("Vc", plain("T"))]);
    let t = path(vec![seg("anyhow"), seg_of("Result", copy_type(&handle))]);
    let (expanded, found) = expand_vc_return_type(&t);
    assert!(found);
    assert_eq!(expanded, handle);
}

#[test]
fn plain_integer_output_fails_and_is_preserved() {
    let t = path(vec![seg("i32")]);
    let (expanded, found) = expand_vc_return_type(&t);
    assert!(!found);
    assert_eq!(expanded, t);
}

#[test]
fn result_of_integer_fails_with_best_effort_type() {
    let t = path(vec![seg_of("Result", plain("i32"))]);
    let (expanded, found) = expand_vc_return_type(&t);
    assert!(!found);
    assert_eq!(expanded, plain("i32"));
}

#[test]
fn result_with_two_arguments_fails() {
    let handle = path(vec![seg_of("Vc", plain("T"))]);
    let t = path(vec![PathSeg {
        name: "Result".to_string(),
        args: SegArgs::Angle(vec![GenArg::TyArg(handle), GenArg::TyArg(plain("E"))]),
    }]);
    let (expanded, found) = expand_vc_return_type(&t);
    assert!(!found);
    assert_eq!(expanded, t);
}

#[test]
fn absent_return_type_becomes_unit() {
    assert_eq!(return_type_to_type(&None), TypeExpr::Tuple { elems: vec![] });
    let t = plain("u8");
    assert_eq!(return_type_to_type(&Some(copy_type(&t))), t);
}

#[test]
fn container_with_no_angle_arguments_is_left_unchanged() {
    // A bare `Vec` and a `Vec<>` with an empty argument list are recognized
    // shapes with nothing to rewrite.
    let bare = plain("Vec");
    assert_eq!(expand_task_input_type(&bare), bare);
    let empty_angle = path(vec![PathSeg { name: "Vec".to_string(), args: SegArgs::Angle(vec![]) }]);
    assert_eq!(expand_task_input_type(&empty_angle), empty_angle);
}

#[test]
fn container_with_non_type_first_argument_is_left_unchanged() {
    let t = path(vec![PathSeg {
        name: "Vec".to_string(),
        args: SegArgs::Angle(vec![GenArg::OpaqueArg(5), GenArg::TyArg(plain("T"))]),
    }]);
    assert_eq!(expand_task_input_type(&t), t);
}

#[test]
fn unknown_module_prefix_is_not_recognized() {
    // `mycrate::Vec<ResolvedVc<T>>` matches no known shape.
    let t = path(vec![seg("mycrate"), seg_of("Vec", path(vec![seg_of("ResolvedVc", plain("T"))]))]);
    assert_eq!(expand_task_input_type(&t), t);
}

#[test]
fn opaque_types_pass_through_both_expanders() {
    let t = TypeExpr::Opaque { token: 12 };
    assert_eq!(expand_task_input_type(&t), t);
    let (out, found) = expand_vc_return_type(&t);
    assert!(!found);
    assert_eq!(out, t);
}
