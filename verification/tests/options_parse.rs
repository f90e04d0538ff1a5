use turbo_tasks_func::options::FunctionArguments;
use turbo_tasks_func::options::IoMarker;
use turbo_tasks_func::options::MetaArg;
use turbo_tasks_func::options::parse_function_arguments;

fn flag(name: &str, span: u64) -> MetaArg {
    MetaArg { name: name.to_string(), path_only: true, span }
}

#[test]
fn empty_arguments_give_the_default() {
    let parsed = parse_function_arguments(&vec![]).unwrap();
    assert_eq!(parsed, FunctionArguments::default());
    assert!(!parsed.io_markers.filesystem);
    assert!(!parsed.io_markers.network);
    assert!(parsed.resolved.is_none());
    assert!(parsed.local_cells.is_none());
}

#[test]
fn io_markers_are_collected() {
    let parsed = parse_function_arguments(&vec![flag("fs", 1), flag("network", 2)]).unwrap();
    assert!(parsed.io_markers.contains(IoMarker::Filesystem));
    assert!(parsed.io_markers.contains(IoMarker::Network));
    assert!(parsed.resolved.is_none());
}

#[test]
fn resolved_records_its_span() {
    let parsed = parse_function_arguments(&vec![flag("resolved", 7)]).unwrap();
    assert_eq!(parsed.resolved, Some(7));
    assert!(parsed.local_cells.is_none());
}

#[test]
fn local_cells_implies_resolved() {
    let parsed = parse_function_arguments(&vec![flag("local_cells", 9)]).unwrap();
    assert_eq!(parsed.local_cells, Some(9));
    assert_eq!(parsed.resolved, Some(9));
}

#[test]
fn unknown_flag_is_a_hard_error() {
    let err = parse_function_arguments(&vec![flag("fs", 1), flag("bogus", 2)]).unwrap_err();
    assert_eq!(err.span, 2);
    assert_eq!(
        err.message,
        "unexpected token, expected one of: \"fs\", \"network\", \"resolved\", \"local_cells\""
    );
}

#[test]
fn known_name_in_wrong_form_is_an_error() {
    // `fs = "x"` or `fs(...)` is not a bare path.
    let arg = MetaArg { name: "fs".to_string(), path_only: false, span: 4 };
    let err = parse_function_arguments(&vec![arg]).unwrap_err();
    assert_eq!(err.span, 4);
}

#[test]
fn first_error_wins() {
    let err = parse_function_arguments(&vec![flag("bogus", 1), flag("also_bogus", 2)]).unwrap_err();
    assert_eq!(err.span, 1);
}
