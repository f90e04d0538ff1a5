//! The descriptor builder: the two lazily-initialized registration values a
//! task function declaration exposes — the registration descriptor and the
//! function id looked up from it.

use vstd::prelude::*;

use crate::ast::PathSeg;
use crate::ast::PathSegV;
use crate::ast::SegArgs;
use crate::ast::SegArgsV;
use crate::ast::GenArg;
use crate::ast::GenArgV;
use crate::ast::SynToken;
use crate::ast::TypeExpr;
use crate::ast::TypeExprV;
use crate::ast::gen_args_view;
use crate::ast::segs_view;

verus! {

/// The identity of a native (inline) task function, used to build its
/// registration values.
#[derive(Debug, PartialEq, Eq)]
pub struct NativeFn {
    /// The fully qualified path of the inline function, as a string.
    pub function_path_string: String,
    /// The fully qualified path of the inline function, as an expression
    /// (opaque to the pass).
    pub function_path: SynToken,
    /// Whether the function is a method (has a receiver).
    pub is_method: bool,
    /// Whether the function uses the local-cells persistence mode.
    pub local_cells: bool,
}

/// The deferred registration descriptor: a compute-on-first-access,
/// process-lifetime value built by the registry's method or function
/// constructor, carrying the qualified path string, the local-cells flag, and
/// the callable path itself.
#[derive(Debug, PartialEq, Eq)]
pub struct NativeFnDefinition {
    /// True for the method constructor, false for the function constructor.
    pub constructor_is_method: bool,
    pub function_path_string: String,
    pub local_cells: bool,
    pub function_path: SynToken,
}

/// The deferred function id: a compute-on-first-access, process-lifetime
/// lookup of the descriptor at the given path in the runtime's registry.
#[derive(Debug, PartialEq, Eq)]
pub struct IdDefinition {
    /// The path of the descriptor the id is looked up from.
    pub native_function_id_path: SynToken,
}

/// A path of `names`, each segment without generic arguments, except the last
/// which applies `last_args`.
pub open spec fn spec_plain_path(names: Seq<Seq<char>>, last_args: SegArgsV) -> TypeExprV {
    TypeExprV::Path {
        leading_colon: false,
        segments: Seq::new(
            names.len(),
            |i: int|
                PathSegV {
                    name: names[i],
                    args: if i == names.len() - 1 {
                        last_args
                    } else {
                        SegArgsV::NoArgs
                    },
                },
        ),
    }
}

/// The type of the deferred registration descriptor: the engine's lazy cell
/// of its native-function record.
pub open spec fn spec_native_fn_ty() -> TypeExprV {
    spec_plain_path(
        seq!["turbo_tasks"@, "macro_helpers"@, "Lazy"@],
        SegArgsV::Angle {
            args: seq![
                GenArgV::TyArg {
                    ty: spec_plain_path(seq!["turbo_tasks"@, "NativeFunction"@], SegArgsV::NoArgs),
                },
            ],
        },
    )
}

/// The type of the deferred function id: the engine's lazy cell of its
/// function-id record.
pub open spec fn spec_native_fn_id_ty() -> TypeExprV {
    spec_plain_path(
        seq!["turbo_tasks"@, "macro_helpers"@, "Lazy"@],
        SegArgsV::Angle {
            args: seq![
                GenArgV::TyArg {
                    ty: spec_plain_path(seq!["turbo_tasks"@, "FunctionId"@], SegArgsV::NoArgs),
                },
            ],
        },
    )
}

/// Builds a two-segment path without generic arguments.
fn make_path2(a: &str, b: &str) -> (r: TypeExpr)
    ensures
        r@ == spec_plain_path(seq![a@, b@], SegArgsV::NoArgs),
{
    let mut segments: Vec<PathSeg> = Vec::new();
    segments.push(PathSeg { name: a.to_owned(), args: SegArgs::NoArgs });
    segments.push(PathSeg { name: b.to_owned(), args: SegArgs::NoArgs });
    proof {
        assert(segs_view(segments) =~= spec_plain_path(seq![a@, b@], SegArgsV::NoArgs)
            ->Path_segments);
    }
    let r = TypeExpr::Path { leading_colon: false, segments };
    proof {
        assert(r@ =~~= spec_plain_path(seq![a@, b@], SegArgsV::NoArgs));
    }
    r
}

/// Builds the engine's lazy-cell type applied to the two-segment path
/// `a::b`.
fn make_lazy_of(a: &str, b: &str) -> (r: TypeExpr)
    ensures
        r@ == spec_plain_path(
            seq!["turbo_tasks"@, "macro_helpers"@, "Lazy"@],
            SegArgsV::Angle {
                args: seq![
                    GenArgV::TyArg { ty: spec_plain_path(seq![a@, b@], SegArgsV::NoArgs) },
                ],
            },
        ),
{
    let inner = make_path2(a, b);
    let ghost iv = inner@;
    let mut args: Vec<GenArg> = Vec::new();
    args.push(GenArg::TyArg(inner));
    proof {
        assert(gen_args_view(args) =~= seq![GenArgV::TyArg { ty: iv }]);
    }
    let mut segments: Vec<PathSeg> = Vec::new();
    segments.push(PathSeg { name: "turbo_tasks".to_owned(), args: SegArgs::NoArgs });
    segments.push(PathSeg { name: "macro_helpers".to_owned(), args: SegArgs::NoArgs });
    segments.push(PathSeg { name: "Lazy".to_owned(), args: SegArgs::Angle(args) });
    let ghost goal = spec_plain_path(
        seq!["turbo_tasks"@, "macro_helpers"@, "Lazy"@],
        SegArgsV::Angle { args: seq![GenArgV::TyArg { ty: iv }] },
    );
    proof {
        assert(segs_view(segments).len() == 3);
        assert(segs_view(segments)[0] == goal->Path_segments[0]);
        assert(segs_view(segments)[1] == goal->Path_segments[1]);
        assert(segs_view(segments)[2].name == goal->Path_segments[2].name);
        assert(segs_view(segments)[2].args == goal->Path_segments[2].args);
        assert(segs_view(segments) =~= goal->Path_segments);
    }
    let r = TypeExpr::Path { leading_colon: false, segments };
    proof {
        assert(r@ =~~= goal);
    }
    r
}

impl NativeFn {
    /// Records the identity of a native function.
    pub fn new(
        function_path_string: &str,
        function_path: SynToken,
        is_method: bool,
        local_cells: bool,
    ) -> (r: NativeFn)
        ensures
            r.function_path_string@ == function_path_string@,
            r.function_path == function_path,
            r.is_method == is_method,
            r.local_cells == local_cells,
    {
        NativeFn {
            function_path_string: function_path_string.to_owned(),
            function_path,
            is_method,
            local_cells,
        }
    }

    /// The declared type of the registration descriptor.
    pub fn ty(&self) -> (r: TypeExpr)
        ensures
            r@ == spec_native_fn_ty(),
    {
        let r = make_lazy_of("turbo_tasks", "NativeFunction");
        proof {
            assert(r@->Path_segments =~~= spec_native_fn_ty()->Path_segments);
            assert(r@ =~~= spec_native_fn_ty());
        }
        r
    }

    /// The deferred registration descriptor: built on first access by the
    /// method constructor when the function is a method, else by the function
    /// constructor, from the qualified path string, the local-cells metadata,
    /// and the callable path.
    pub fn definition(&self) -> (r: NativeFnDefinition)
        ensures
            r.constructor_is_method == self.is_method,
            r.function_path_string@ == self.function_path_string@,
            r.local_cells == self.local_cells,
            r.function_path == self.function_path,
    {
        NativeFnDefinition {
            constructor_is_method: self.is_method,
            function_path_string: self.function_path_string.clone(),
            local_cells: self.local_cells,
            function_path: self.function_path,
        }
    }

    /// The declared type of the deferred function id.
    pub fn id_ty(&self) -> (r: TypeExpr)
        ensures
            r@ == spec_native_fn_id_ty(),
    {
        let r = make_lazy_of("turbo_tasks", "FunctionId");
        proof {
            assert(r@->Path_segments =~~= spec_native_fn_id_ty()->Path_segments);
            assert(r@ =~~= spec_native_fn_id_ty());
        }
        r
    }

    /// The deferred function id: looked up on first access from the
    /// registration descriptor at the given path.
    pub fn id_definition(&self, native_function_id_path: SynToken) -> (r: IdDefinition)
        ensures
            r.native_function_id_path == native_function_id_path,
    {
        IdDefinition { native_function_id_path }
    }
}

} // verus!
