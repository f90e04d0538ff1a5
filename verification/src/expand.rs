//! Normalization of type expressions.
//!
//! Input normalization rewrites the known wrapper shapes — a sequence
//! container, an optional container, and the resolved-handle type — so that
//! every exposed parameter type uses the general handle form. Output
//! normalization strips result wrappers down to the terminal handle type.
//!
//! Path recognition is an explicit state machine over segment names, matching
//! the longest known prefix before falling through to "unrecognized".

use vstd::prelude::*;

use crate::ast::GenArg;
use crate::ast::GenArgV;
use crate::ast::PathSeg;
use crate::ast::PathSegV;
use crate::ast::SegArgs;
use crate::ast::SegArgsV;
use crate::ast::TypeExpr;
use crate::ast::TypeExprV;
use crate::ast::copy_gen_arg;
use crate::ast::copy_seg;
use crate::ast::copy_seg_args;
use crate::ast::copy_type;
use crate::ast::gen_args_view;
use crate::ast::name_is;
use crate::ast::segs_view;
use crate::ast::view_gen_arg;
use crate::ast::view_seg;

verus! {

broadcast use vstd::string::group_string_axioms;

/// The recognized wrapper shapes of a path type.
#[derive(Debug, Clone, Copy, PartialEq, Eq, Structural)]
pub enum PathShape {
    /// The sequence container (a vector), with or without its module prefix.
    Sequence,
    /// The optional-value container, with or without its module prefix.
    Optional,
    /// The resolved-handle type, with or without its module prefix.
    ResolvedHandle,
    /// Anything else; left untouched by input normalization.
    Unrecognized,
}

/// The state of the path matcher after reading a prefix of the segments.
#[derive(Debug, Clone, Copy, PartialEq, Eq, Structural)]
pub enum MatchState {
    /// No segment read yet.
    StEmpty,
    /// Read the standard-library crate name (`std`, `core` or `alloc`).
    StStdMod,
    /// Read a standard-library prefix and then `vec`.
    StVecMod,
    /// The path names the sequence container.
    StVecHit,
    /// Read a standard-library prefix and then `option`.
    StOptionMod,
    /// The path names the optional container.
    StOptionHit,
    /// Read the task-engine crate name.
    StTurboMod,
    /// The path names the resolved-handle type.
    StResolvedHit,
    /// The path matches no known shape.
    StDead,
}

/// One transition of the path matcher: the state after reading `name`.
pub open spec fn spec_step_state(lc: bool, st: MatchState, name: Seq<char>) -> MatchState {
    match st {
        MatchState::StEmpty => if name == "std"@ || name == "core"@ || name == "alloc"@ {
            MatchState::StStdMod
        } else if !lc && name == "Vec"@ {
            MatchState::StVecHit
        } else if !lc && name == "Option"@ {
            MatchState::StOptionHit
        } else if name == "turbo_tasks"@ {
            MatchState::StTurboMod
        } else if !lc && name == "ResolvedVc"@ {
            MatchState::StResolvedHit
        } else {
            MatchState::StDead
        },
        MatchState::StStdMod => if name == "vec"@ {
            MatchState::StVecMod
        } else if name == "option"@ {
            MatchState::StOptionMod
        } else {
            MatchState::StDead
        },
        MatchState::StVecMod => if !lc && name == "Vec"@ {
            MatchState::StVecHit
        } else {
            MatchState::StDead
        },
        MatchState::StOptionMod => if !lc && name == "Option"@ {
            MatchState::StOptionHit
        } else {
            MatchState::StDead
        },
        MatchState::StTurboMod => if !lc && name == "ResolvedVc"@ {
            MatchState::StResolvedHit
        } else {
            MatchState::StDead
        },
        _ => MatchState::StDead,
    }
}

/// The matcher state after reading all of `names`, starting from the empty
/// state.
pub open spec fn spec_run_states(lc: bool, names: Seq<Seq<char>>) -> MatchState
    decreases names.len(),
{
    if names.len() == 0 {
        MatchState::StEmpty
    } else {
        spec_step_state(lc, spec_run_states(lc, names.drop_last()), names.last())
    }
}

/// The names of a segment list, in order.
pub open spec fn seg_names(segs: Seq<PathSegV>) -> Seq<Seq<char>> {
    segs.map_values(|s: PathSegV| s.name)
}

/// The recognized shape of a path with the given leading-colon flag and
/// segments.
pub open spec fn spec_classify(lc: bool, segs: Seq<PathSegV>) -> PathShape {
    match spec_run_states(lc, seg_names(segs)) {
        MatchState::StVecHit => PathShape::Sequence,
        MatchState::StOptionHit => PathShape::Optional,
        MatchState::StResolvedHit => PathShape::ResolvedHandle,
        _ => PathShape::Unrecognized,
    }
}

/// A recognized path has at least one segment.
pub proof fn lemma_recognized_nonempty(lc: bool, segs: Seq<PathSegV>)
    ensures
        spec_classify(lc, segs) != PathShape::Unrecognized ==> segs.len() > 0,
{
    if segs.len() == 0 {
        assert(seg_names(segs).len() == 0);
        assert(spec_run_states(lc, seg_names(segs)) == MatchState::StEmpty);
    }
}

/// One transition of the path matcher.
pub fn step_state(lc: bool, st: MatchState, name: &String) -> (r: MatchState)
    ensures
        r == spec_step_state(lc, st, name@),
{
    match st {
        MatchState::StEmpty => {
            if name_is(name, "std") || name_is(name, "core") || name_is(name, "alloc") {
                MatchState::StStdMod
            } else if !lc && name_is(name, "Vec") {
                MatchState::StVecHit
            } else if !lc && name_is(name, "Option") {
                MatchState::StOptionHit
            } else if name_is(name, "turbo_tasks") {
                MatchState::StTurboMod
            } else if !lc && name_is(name, "ResolvedVc") {
                MatchState::StResolvedHit
            } else {
                MatchState::StDead
            }
        },
        MatchState::StStdMod => {
            if name_is(name, "vec") {
                MatchState::StVecMod
            } else if name_is(name, "option") {
                MatchState::StOptionMod
            } else {
                MatchState::StDead
            }
        },
        MatchState::StVecMod => {
            if !lc && name_is(name, "Vec") {
                MatchState::StVecHit
            } else {
                MatchState::StDead
            }
        },
        MatchState::StOptionMod => {
            if !lc && name_is(name, "Option") {
                MatchState::StOptionHit
            } else {
                MatchState::StDead
            }
        },
        MatchState::StTurboMod => {
            if !lc && name_is(name, "ResolvedVc") {
                MatchState::StResolvedHit
            } else {
                MatchState::StDead
            }
        },
        _ => MatchState::StDead,
    }
}

/// Runs the path matcher over a whole segment list.
#[verifier::loop_isolation(false)]
pub fn classify_path(lc: bool, segments: &Vec<PathSeg>) -> (r: PathShape)
    ensures
        r == spec_classify(lc, segs_view(*segments)),
{
    let ghost names: Seq<Seq<char>> = seg_names(segs_view(*segments));
    let mut st = MatchState::StEmpty;
    let mut i: usize = 0;
    proof {
        assert(names.take(0) =~= Seq::<Seq<char>>::empty());
    }
    while i < segments.len()
        invariant
            i <= segments@.len(),
            st == spec_run_states(lc, names.take(i as int)),
        decreases segments@.len() - i,
    {
        st = step_state(lc, st, &segments[i].name);
        proof {
            assert(names.take(i + 1).drop_last() =~= names.take(i as int));
            assert(names.take(i + 1).last() == names[i as int]);
            assert(names[i as int] == segments@[i as int]@.name);
        }
        i = i + 1;
    }
    proof {
        assert(names.take(segments@.len() as int) =~= names);
    }
    match st {
        MatchState::StVecHit => PathShape::Sequence,
        MatchState::StOptionHit => PathShape::Optional,
        MatchState::StResolvedHit => PathShape::ResolvedHandle,
        _ => PathShape::Unrecognized,
    }
}

/// Input normalization: transparent groups are unwrapped; the first type
/// argument of a recognized sequence or optional container is normalized in
/// place; a resolved-handle path is rewritten to the general handle name; any
/// other type is returned unchanged.
pub open spec fn spec_expand_input(t: TypeExprV) -> TypeExprV
    decreases t,
    via spec_expand_input_dec
{
    match t {
        TypeExprV::Group { inner } => spec_expand_input(*inner),
        TypeExprV::Path { leading_colon, segments } => {
            let shape = spec_classify(leading_colon, segments);
            if shape == PathShape::Sequence || shape == PathShape::Optional {
                let last = segments.last();
                match last.args {
                    SegArgsV::Angle { args } => {
                        if args.len() > 0 && args[0] is TyArg {
                            let inner = args[0]->TyArg_ty;
                            let new_last = PathSegV {
                                name: last.name,
                                args: SegArgsV::Angle {
                                    args: args.update(
                                        0,
                                        GenArgV::TyArg { ty: spec_expand_input(inner) },
                                    ),
                                },
                            };
                            TypeExprV::Path {
                                leading_colon,
                                segments: segments.update(segments.len() - 1, new_last),
                            }
                        } else {
                            t
                        }
                    },
                    _ => t,
                }
            } else if shape == PathShape::ResolvedHandle {
                let last = segments.last();
                let new_last = PathSegV { name: "Vc"@, args: last.args };
                TypeExprV::Path {
                    leading_colon,
                    segments: segments.update(segments.len() - 1, new_last),
                }
            } else {
                t
            }
        },
        _ => t,
    }
}

#[via_fn]
proof fn spec_expand_input_dec(t: TypeExprV) {
    match t {
        TypeExprV::Path { leading_colon, segments } => {
            let shape = spec_classify(leading_colon, segments);
            if shape == PathShape::Sequence || shape == PathShape::Optional {
                lemma_recognized_nonempty(leading_colon, segments);
                let last = segments.last();
                assert(decreases_to!(t => t->Path_segments));
                assert(decreases_to!(segments => segments[segments.len() - 1]));
                match last.args {
                    SegArgsV::Angle { args } => {
                        if args.len() > 0 && args[0] is TyArg {
                            assert(decreases_to!(last => last.args));
                            assert(decreases_to!(last.args => last.args->Angle_args));
                            assert(decreases_to!(args => args[0]));
                            assert(decreases_to!(args[0] => args[0]->TyArg_ty));
                        }
                    },
                    _ => {},
                }
            }
        },
        _ => {},
    }
}

/// Rewrites a recognized container segment: its first type argument is
/// normalized in place, everything else is kept.
#[verifier::loop_isolation(false)]
fn expand_container_last_seg(last: &PathSeg) -> (r: PathSeg)
    ensures
        r@ == (match last@.args {
            SegArgsV::Angle { args } => {
                if args.len() > 0 && args[0] is TyArg {
                    PathSegV {
                        name: last@.name,
                        args: SegArgsV::Angle {
                            args: args.update(
                                0,
                                GenArgV::TyArg { ty: spec_expand_input(args[0]->TyArg_ty) },
                            ),
                        },
                    }
                } else {
                    last@
                }
            },
            _ => last@,
        }),
    decreases *last,
{
    match &last.args {
        SegArgs::Angle(args) => {
            if args.len() > 0 {
                match &args[0] {
                    GenArg::TyArg(t0) => {
                        proof {
                            assert(decreases_to!(*last => last.args));
                            assert(decreases_to!(last.args => (last.args)->Angle_0));
                            assert(decreases_to!(*args => args@[0]));
                            assert(decreases_to!(args@[0] => args@[0]->TyArg_0));
                        }
                        let expanded = expand_task_input_type(t0);
                        let mut new_args: Vec<GenArg> = Vec::new();
                        new_args.push(GenArg::TyArg(expanded));
                        let mut j: usize = 1;
                        while j < args.len()
                            invariant
                                1 <= j <= args@.len(),
                                new_args@.len() == j as int,
                                new_args@[0]@ == (GenArgV::TyArg {
                                    ty: spec_expand_input(args@[0]->TyArg_0@),
                                }),
                                forall|k: int| 1 <= k < j as int ==> new_args@[k]@ == args@[k]@,
                            decreases args@.len() - j,
                        {
                            let g = copy_gen_arg(&args[j]);
                            new_args.push(g);
                            j = j + 1;
                        }
                        proof {
                            assert(gen_args_view(new_args) =~= gen_args_view(*args).update(
                                0,
                                GenArgV::TyArg { ty: spec_expand_input(args@[0]->TyArg_0@) },
                            ));
                        }
                        let r = PathSeg { name: last.name.clone(), args: SegArgs::Angle(new_args) };
                        proof {
                            assert(r@ =~~= PathSegV {
                                name: last@.name,
                                args: SegArgsV::Angle {
                                    args: (last@.args->Angle_args).update(
                                        0,
                                        GenArgV::TyArg {
                                            ty: spec_expand_input(last@.args->Angle_args[0]->TyArg_ty),
                                        },
                                    ),
                                },
                            });
                        }
                        r
                    },
                    GenArg::OpaqueArg(_) => copy_seg(last),
                }
            } else {
                copy_seg(last)
            }
        },
        _ => copy_seg(last),
    }
}

/// Normalizes a parameter type to its task-input form.
///
/// Transparent groups are unwrapped; the first type argument of a recognized
/// sequence or optional container is normalized in place; a resolved-handle
/// path is rewritten to the general handle name; anything else is returned
/// unchanged.
#[verifier::loop_isolation(false)]
pub fn expand_task_input_type(orig: &TypeExpr) -> (r: TypeExpr)
    ensures
        r@ == spec_expand_input(orig@),
    decreases *orig,
{
    match orig {
        TypeExpr::Group { inner } => expand_task_input_type(&**inner),
        TypeExpr::Path { leading_colon, segments } => {
            let shape = classify_path(*leading_colon, segments);
            proof {
                lemma_recognized_nonempty(*leading_colon, segs_view(*segments));
            }
            match shape {
                PathShape::Sequence | PathShape::Optional => {
                    let n = segments.len();
                    let mut segs: Vec<PathSeg> = Vec::new();
                    let mut i: usize = 0;
                    while i + 1 < n
                        invariant
                            i < n,
                            segs@.len() == i as int,
                            forall|j: int| 0 <= j < i as int ==> segs@[j]@ == segments@[j]@,
                        decreases n - i,
                    {
                        let s = copy_seg(&segments[i]);
                        segs.push(s);
                        i = i + 1;
                    }
                    proof {
                        assert(decreases_to!(*orig => (*orig)->Path_segments));
                        assert(decreases_to!(*segments => segments@[n - 1]));
                    }
                    let new_last = expand_container_last_seg(&segments[n - 1]);
                    segs.push(new_last);
                    let ghost sv = segs_view(*segments);
                    let ghost last = sv.last();
                    let r = TypeExpr::Path { leading_colon: *leading_colon, segments: segs };
                    proof {
                        match last.args {
                            SegArgsV::Angle { args } => {
                                if args.len() > 0 && args[0] is TyArg {
                                    let new_last_v = PathSegV {
                                        name: last.name,
                                        args: SegArgsV::Angle {
                                            args: args.update(
                                                0,
                                                GenArgV::TyArg {
                                                    ty: spec_expand_input(args[0]->TyArg_ty),
                                                },
                                            ),
                                        },
                                    };
                                    assert(segs_view(segs) =~= sv.update(sv.len() - 1, new_last_v));
                                    assert(r@ =~~= spec_expand_input(orig@));
                                } else {
                                    assert(segs_view(segs) =~= sv);
                                    assert(r@ =~~= spec_expand_input(orig@));
                                }
                            },
                            _ => {
                                assert(segs_view(segs) =~= sv);
                                assert(r@ =~~= spec_expand_input(orig@));
                            },
                        }
                    }
                    r
                },
                PathShape::ResolvedHandle => {
                    let n = segments.len();
                    let mut segs: Vec<PathSeg> = Vec::new();
                    let mut i: usize = 0;
                    while i + 1 < n
                        invariant
                            i < n,
                            segs@.len() == i as int,
                            forall|j: int| 0 <= j < i as int ==> segs@[j]@ == segments@[j]@,
                        decreases n - i,
                    {
                        let s = copy_seg(&segments[i]);
                        segs.push(s);
                        i = i + 1;
                    }
                    let new_args = copy_seg_args(&segments[n - 1].args);
                    let new_last = PathSeg { name: "Vc".to_owned(), args: new_args };
                    segs.push(new_last);
                    let ghost sv = segs_view(*segments);
                    let r = TypeExpr::Path { leading_colon: *leading_colon, segments: segs };
                    proof {
                        let new_last_v = PathSegV { name: "Vc"@, args: sv.last().args };
                        assert(segs_view(segs) =~= sv.update(sv.len() - 1, new_last_v));
                        assert(r@ =~~= spec_expand_input(orig@));
                    }
                    r
                },
                PathShape::Unrecognized => copy_type(orig),
            }
        },
        _ => copy_type(orig),
    }
}

/// The canonical handle-to-unit type: the full handle path applied to the
/// empty tuple.
pub open spec fn spec_vc_unit() -> TypeExprV {
    TypeExprV::Path {
        leading_colon: false,
        segments: seq![
            PathSegV { name: "turbo_tasks"@, args: SegArgsV::NoArgs },
            PathSegV {
                name: "Vc"@,
                args: SegArgsV::Angle {
                    args: seq![GenArgV::TyArg { ty: TypeExprV::Tuple { elems: Seq::empty() } }],
                },
            },
        ],
    }
}

/// Builds the canonical handle-to-unit type.
pub fn make_vc_unit() -> (r: TypeExpr)
    ensures
        r@ == spec_vc_unit(),
{
    let unit = TypeExpr::Tuple { elems: Vec::new() };
    proof {
        assert(unit@->Tuple_elems =~= Seq::<TypeExprV>::empty());
        assert(unit@ =~~= (TypeExprV::Tuple { elems: Seq::empty() }));
    }
    let ghost uv = unit@;
    let mut args: Vec<GenArg> = Vec::new();
    args.push(GenArg::TyArg(unit));
    proof {
        assert(gen_args_view(args).len() == 1);
        assert(gen_args_view(args)[0] == (GenArgV::TyArg { ty: uv }));
        assert(gen_args_view(args) =~= (spec_vc_unit()->Path_segments[1].args->Angle_args));
    }
    let seg0 = PathSeg { name: "turbo_tasks".to_owned(), args: SegArgs::NoArgs };
    let seg1 = PathSeg { name: "Vc".to_owned(), args: SegArgs::Angle(args) };
    proof {
        assert(seg0@ == spec_vc_unit()->Path_segments[0]);
        assert(seg1@.args == spec_vc_unit()->Path_segments[1].args);
        assert(seg1@ == spec_vc_unit()->Path_segments[1]);
    }
    let mut segments: Vec<PathSeg> = Vec::new();
    segments.push(seg0);
    segments.push(seg1);
    proof {
        assert(segs_view(segments).len() == 2);
        assert(segs_view(segments)[0] == spec_vc_unit()->Path_segments[0]);
        assert(segs_view(segments)[1] == spec_vc_unit()->Path_segments[1]);
        assert(segs_view(segments) =~= spec_vc_unit()->Path_segments);
    }
    let r = TypeExpr::Path { leading_colon: false, segments };
    proof {
        assert(r@ =~~= spec_vc_unit());
    }
    r
}

/// Whether this path segment is a usable prefix of a return type: the engine
/// crate name or the error-crate name, with no generic arguments.
pub open spec fn spec_is_output_prefix(seg: PathSegV) -> bool {
    seg.args is NoArgs && (seg.name == "turbo_tasks"@ || seg.name == "anyhow"@)
}

/// Output normalization: strips known wrapper layers from a declared return
/// type until the terminal handle type is reached.
///
/// The empty tuple becomes the canonical handle-to-unit type; a result type
/// with exactly one type argument (with an optional well-known module prefix)
/// is unwrapped and stripping continues; a handle type stops with success.
/// The flag is true exactly when the terminal handle shape was reached; on
/// failure the first component is the best-effort partially stripped type.
pub open spec fn spec_expand_output(t: TypeExprV) -> (TypeExprV, bool)
    decreases t,
    via spec_expand_output_dec
{
    match t {
        TypeExprV::Group { inner } => spec_expand_output(*inner),
        TypeExprV::Tuple { elems } => if elems.len() == 0 {
            (spec_vc_unit(), true)
        } else {
            (t, false)
        },
        TypeExprV::Path { leading_colon, segments } => {
            let skip: int = if segments.len() > 0 && spec_is_output_prefix(segments[0]) {
                1
            } else {
                0
            };
            if skip == 0 && leading_colon {
                (t, false)
            } else if segments.len() == skip + 1 && segments[skip].args is Angle {
                let seg = segments[skip];
                let args = seg.args->Angle_args;
                if seg.name == "Vc"@ {
                    (t, true)
                } else if seg.name == "Result"@ && args.len() == 1 {
                    match args[0] {
                        GenArgV::TyArg { ty } => spec_expand_output(ty),
                        GenArgV::OpaqueArg { .. } => (t, false),
                    }
                } else {
                    (t, false)
                }
            } else {
                (t, false)
            }
        },
        TypeExprV::Opaque { .. } => (t, false),
    }
}

#[via_fn]
proof fn spec_expand_output_dec(t: TypeExprV) {
    match t {
        TypeExprV::Path { leading_colon, segments } => {
            let skip: int = if segments.len() > 0 && spec_is_output_prefix(segments[0]) {
                1
            } else {
                0
            };
            if !(skip == 0 && leading_colon) && segments.len() == skip + 1
                && segments[skip].args is Angle {
                let seg = segments[skip];
                assert(decreases_to!(t => t->Path_segments));
                assert(decreases_to!(segments => segments[skip]));
                assert(decreases_to!(seg => seg.args));
                assert(decreases_to!(seg.args => seg.args->Angle_args));
                let args = seg.args->Angle_args;
                if args.len() == 1 && args[0] is TyArg {
                    assert(decreases_to!(args => args[0]));
                    assert(decreases_to!(args[0] => args[0]->TyArg_ty));
                }
            }
        },
        _ => {},
    }
}

/// Normalizes a declared return type to the effective handle type.
///
/// The flag is true exactly when the terminal handle shape was reached; when
/// it is false the caller reports the return-type diagnostic, and the first
/// component is the best-effort partially stripped type.
pub fn expand_vc_return_type(orig: &TypeExpr) -> (r: (TypeExpr, bool))
    ensures
        r.0@ == spec_expand_output(orig@).0,
        r.1 == spec_expand_output(orig@).1,
    decreases *orig,
{
    match orig {
        TypeExpr::Group { inner } => expand_vc_return_type(&**inner),
        TypeExpr::Tuple { elems } => {
            if elems.len() == 0 {
                (make_vc_unit(), true)
            } else {
                (copy_type(orig), false)
            }
        },
        TypeExpr::Path { leading_colon, segments } => {
            let n = segments.len();
            let has_prefix = n > 0 && {
                let first = &segments[0];
                let no_args = match &first.args {
                    SegArgs::NoArgs => true,
                    _ => false,
                };
                no_args && (name_is(&first.name, "turbo_tasks") || name_is(&first.name, "anyhow"))
            };
            let skip: usize = if has_prefix {
                1
            } else {
                0
            };
            proof {
                let sv = segs_view(*segments);
                assert(sv.len() == n as int);
                if n > 0 {
                    assert(sv[0] == view_seg(segments@[0]));
                    assert(has_prefix == spec_is_output_prefix(sv[0]));
                }
            }
            if skip == 0 && *leading_colon {
                (copy_type(orig), false)
            } else if n == skip + 1 {
                let seg = &segments[skip];
                proof {
                    let sv = segs_view(*segments);
                    assert(sv[skip as int] == view_seg(segments@[skip as int]));
                }
                match &seg.args {
                    SegArgs::Angle(args) => {
                        if name_is(&seg.name, "Vc") {
                            (copy_type(orig), true)
                        } else if name_is(&seg.name, "Result") && args.len() == 1 {
                            match &args[0] {
                                GenArg::TyArg(ty) => {
                                    proof {
                                        let sv = segs_view(*segments);
                                        assert(sv[skip as int].args->Angle_args
                                            == gen_args_view(*args));
                                        assert(gen_args_view(*args)[0] == view_gen_arg(args@[0]));
                                        assert(spec_expand_output(orig@)
                                            == spec_expand_output(ty@));
                                        assert(decreases_to!(*orig => (*orig)->Path_segments));
                                        assert(decreases_to!(*segments => segments@[skip as int]));
                                        assert(decreases_to!(segments@[skip as int]
                                            => segments@[skip as int].args));
                                        assert(decreases_to!(segments@[skip as int].args
                                            => (segments@[skip as int].args)->Angle_0));
                                        assert(decreases_to!(*args => args@[0]));
                                        assert(decreases_to!(args@[0] => args@[0]->TyArg_0));
                                    }
                                    expand_vc_return_type(ty)
                                },
                                GenArg::OpaqueArg(_) => (copy_type(orig), false),
                            }
                        } else {
                            (copy_type(orig), false)
                        }
                    },
                    _ => (copy_type(orig), false),
                }
            } else {
                (copy_type(orig), false)
            }
        },
        TypeExpr::Opaque { .. } => (copy_type(orig), false),
    }
}

/// Normalizes an absent return annotation to the empty tuple type; a declared
/// return type is kept as written.
pub fn return_type_to_type(return_type: &Option<TypeExpr>) -> (r: TypeExpr)
    ensures
        r@ == (match return_type {
            Option::None => TypeExprV::Tuple { elems: Seq::empty() },
            Option::Some(t) => t@,
        }),
{
    match return_type {
        Option::None => {
            let r = TypeExpr::Tuple { elems: Vec::new() };
            proof {
                assert(r@->Tuple_elems =~= Seq::<TypeExprV>::empty());
                assert(r@ =~~= TypeExprV::Tuple { elems: Seq::empty() });
            }
            r
        },
        Option::Some(t) => copy_type(t),
    }
}


/// The names the two expanders recognize are pairwise distinct.
pub proof fn lemma_known_names()
    ensures
        "std"@.len() == 3,
        "core"@.len() == 4,
        "alloc"@.len() == 5,
        "vec"@.len() == 3,
        "option"@.len() == 6,
        "Vec"@.len() == 3,
        "Option"@.len() == 6,
        "turbo_tasks"@.len() == 11,
        "ResolvedVc"@.len() == 10,
        "Vc"@.len() == 2,
        "Result"@.len() == 6,
        "anyhow"@.len() == 6,
        "std"@ != "vec"@,
        "std"@ != "Vec"@,
        "vec"@ != "Vec"@,
        "option"@ != "Option"@,
        "option"@ != "Result"@,
        "option"@ != "anyhow"@,
        "Option"@ != "Result"@,
        "Option"@ != "anyhow"@,
        "Result"@ != "anyhow"@,
{
    reveal_strlit("std");
    reveal_strlit("core");
    reveal_strlit("alloc");
    reveal_strlit("vec");
    reveal_strlit("option");
    reveal_strlit("Vec");
    reveal_strlit("Option");
    reveal_strlit("turbo_tasks");
    reveal_strlit("ResolvedVc");
    reveal_strlit("Vc");
    reveal_strlit("Result");
    reveal_strlit("anyhow");
    assert("std"@.len() == 3);
    assert("core"@.len() == 4);
    assert("alloc"@.len() == 5);
    assert("vec"@.len() == 3);
    assert("option"@.len() == 6);
    assert("Vec"@.len() == 3);
    assert("Option"@.len() == 6);
    assert("turbo_tasks"@.len() == 11);
    assert("ResolvedVc"@.len() == 10);
    assert("Vc"@.len() == 2);
    assert("Result"@.len() == 6);
    assert("anyhow"@.len() == 6);
    assert("std"@[0] == 's' && "vec"@[0] == 'v' && "Vec"@[0] == 'V');
    assert("option"@[0] == 'o' && "Option"@[0] == 'O' && "Result"@[0] == 'R' && "anyhow"@[0] == 'a');
}

/// Reading the handle name leads to the dead state from every matcher state:
/// the handle type itself is never rewritten.
pub proof fn lemma_step_vc_dead(lc: bool, st: MatchState)
    ensures
        spec_step_state(lc, st, "Vc"@) == MatchState::StDead,
{
    lemma_known_names();
}

/// Renaming a segment keeps every other segment's name.
proof fn lemma_seg_names_update(segs: Seq<PathSegV>, k: int, s: PathSegV)
    requires
        0 <= k < segs.len(),
    ensures
        seg_names(segs.update(k, s)) =~= seg_names(segs).update(k, s.name),
{
}

/// Idempotence: re-applying input normalization to an already-normalized type
/// is a no-op.
pub proof fn lemma_expand_input_idempotent(t: TypeExprV)
    ensures
        spec_expand_input(spec_expand_input(t)) == spec_expand_input(t),
    decreases t,
{
    match t {
        TypeExprV::Group { inner } => {
            lemma_expand_input_idempotent(*inner);
        },
        TypeExprV::Path { leading_colon, segments } => {
            let shape = spec_classify(leading_colon, segments);
            if shape == PathShape::Sequence || shape == PathShape::Optional {
                lemma_recognized_nonempty(leading_colon, segments);
                let n = segments.len();
                let last = segments.last();
                match last.args {
                    SegArgsV::Angle { args } => {
                        if args.len() > 0 && args[0] is TyArg {
                            let inner = args[0]->TyArg_ty;
                            assert(decreases_to!(t => t->Path_segments));
                            assert(decreases_to!(segments => segments[n - 1]));
                            assert(decreases_to!(last => last.args));
                            assert(decreases_to!(last.args => last.args->Angle_args));
                            assert(decreases_to!(args => args[0]));
                            assert(decreases_to!(args[0] => args[0]->TyArg_ty));
                            lemma_expand_input_idempotent(inner);
                            let args2 = args.update(0, GenArgV::TyArg { ty: spec_expand_input(inner) });
                            let new_last = PathSegV { name: last.name, args: SegArgsV::Angle { args: args2 } };
                            let segs2 = segments.update(n - 1, new_last);
                            let r = TypeExprV::Path { leading_colon, segments: segs2 };
                            assert(spec_expand_input(t) == r);
                            lemma_seg_names_update(segments, n - 1, new_last);
                            assert(seg_names(segs2) =~= seg_names(segments));
                            assert(spec_classify(leading_colon, segs2) == shape);
                            assert(segs2.last() == new_last);
                            assert(args2[0] == (GenArgV::TyArg { ty: spec_expand_input(inner) }));
                            let args3 = args2.update(
                                0,
                                GenArgV::TyArg { ty: spec_expand_input(spec_expand_input(inner)) },
                            );
                            let new_last2 = PathSegV { name: new_last.name, args: SegArgsV::Angle { args: args3 } };
                            assert(spec_expand_input(r) == (TypeExprV::Path {
                                leading_colon,
                                segments: segs2.update(segs2.len() - 1, new_last2),
                            }));
                            assert(args3 =~= args2);
                            assert(segs2.update(segs2.len() - 1, new_last2) =~= segs2);
                            assert(spec_expand_input(r) == r);
                        }
                    },
                    _ => {},
                }
            } else if shape == PathShape::ResolvedHandle {
                lemma_recognized_nonempty(leading_colon, segments);
                let n = segments.len();
                let last = segments.last();
                let new_last = PathSegV { name: "Vc"@, args: last.args };
                let segs2 = segments.update(n - 1, new_last);
                let r = TypeExprV::Path { leading_colon, segments: segs2 };
                assert(spec_expand_input(t) == r);
                let names = seg_names(segments);
                let names2 = seg_names(segs2);
                lemma_seg_names_update(segments, n - 1, new_last);
                assert(names2.len() == n);
                assert(names2.drop_last() =~= names.update(n - 1, "Vc"@).drop_last());
                assert(names2.last() == "Vc"@);
                lemma_step_vc_dead(leading_colon, spec_run_states(leading_colon, names2.drop_last()));
                assert(spec_run_states(leading_colon, names2) == MatchState::StDead);
                assert(spec_classify(leading_colon, segs2) == PathShape::Unrecognized);
                assert(spec_expand_input(r) == r);
            }
        },
        _ => {},
    }
}

/// Round trip: normalizing a sequence of an optional of a resolved handle
/// rewrites only the innermost resolved-handle name and keeps the container
/// nesting intact, whatever arguments the handle carries.
pub proof fn lemma_round_trip_nested_containers(inner_args: SegArgsV)
    ensures
        ({
            let resolved = TypeExprV::Path {
                leading_colon: false,
                segments: seq![PathSegV { name: "ResolvedVc"@, args: inner_args }],
            };
            let handle = TypeExprV::Path {
                leading_colon: false,
                segments: seq![PathSegV { name: "Vc"@, args: inner_args }],
            };
            let opt = TypeExprV::Path {
                leading_colon: false,
                segments: seq![
                    PathSegV {
                        name: "Option"@,
                        args: SegArgsV::Angle { args: seq![GenArgV::TyArg { ty: resolved }] },
                    },
                ],
            };
            let opt_expanded = TypeExprV::Path {
                leading_colon: false,
                segments: seq![
                    PathSegV {
                        name: "Option"@,
                        args: SegArgsV::Angle { args: seq![GenArgV::TyArg { ty: handle }] },
                    },
                ],
            };
            let vec_ty = TypeExprV::Path {
                leading_colon: false,
                segments: seq![
                    PathSegV {
                        name: "Vec"@,
                        args: SegArgsV::Angle { args: seq![GenArgV::TyArg { ty: opt }] },
                    },
                ],
            };
            let vec_expanded = TypeExprV::Path {
                leading_colon: false,
                segments: seq![
                    PathSegV {
                        name: "Vec"@,
                        args: SegArgsV::Angle { args: seq![GenArgV::TyArg { ty: opt_expanded }] },
                    },
                ],
            };
            spec_expand_input(vec_ty) == vec_expanded
        }),
{
    lemma_known_names();
    reveal_with_fuel(spec_run_states, 3);
    let resolved = TypeExprV::Path {
        leading_colon: false,
        segments: seq![PathSegV { name: "ResolvedVc"@, args: inner_args }],
    };
    let handle = TypeExprV::Path {
        leading_colon: false,
        segments: seq![PathSegV { name: "Vc"@, args: inner_args }],
    };
    let opt = TypeExprV::Path {
        leading_colon: false,
        segments: seq![
            PathSegV {
                name: "Option"@,
                args: SegArgsV::Angle { args: seq![GenArgV::TyArg { ty: resolved }] },
            },
        ],
    };
    let opt_expanded = TypeExprV::Path {
        leading_colon: false,
        segments: seq![
            PathSegV {
                name: "Option"@,
                args: SegArgsV::Angle { args: seq![GenArgV::TyArg { ty: handle }] },
            },
        ],
    };
    let vec_ty = TypeExprV::Path {
        leading_colon: false,
        segments: seq![
            PathSegV {
                name: "Vec"@,
                args: SegArgsV::Angle { args: seq![GenArgV::TyArg { ty: opt }] },
            },
        ],
    };

    let rnames = seg_names(resolved->Path_segments);
    assert(rnames.drop_last() =~= Seq::<Seq<char>>::empty());
    assert(rnames.last() == "ResolvedVc"@);
    assert(spec_classify(false, resolved->Path_segments) == PathShape::ResolvedHandle);
    assert(spec_expand_input(resolved)->Path_segments =~= handle->Path_segments);
    assert(spec_expand_input(resolved) == handle);

    let onames = seg_names(opt->Path_segments);
    assert(onames.drop_last() =~= Seq::<Seq<char>>::empty());
    assert(onames.last() == "Option"@);
    assert(spec_classify(false, opt->Path_segments) == PathShape::Optional);
    let e_opt = spec_expand_input(opt);
    assert(e_opt->Path_segments[0].args->Angle_args =~= seq![GenArgV::TyArg { ty: handle }]);
    assert(e_opt->Path_segments[0] == opt_expanded->Path_segments[0]);
    assert(e_opt->Path_segments =~= opt_expanded->Path_segments);
    assert(e_opt == opt_expanded);

    let vnames = seg_names(vec_ty->Path_segments);
    assert(vnames.drop_last() =~= Seq::<Seq<char>>::empty());
    assert(vnames.last() == "Vec"@);
    assert(spec_classify(false, vec_ty->Path_segments) == PathShape::Sequence);
    let e_vec = spec_expand_input(vec_ty);
    assert(e_vec->Path_segments[0].args->Angle_args =~= seq![GenArgV::TyArg { ty: opt_expanded }]);
    let vec_expanded = TypeExprV::Path {
        leading_colon: false,
        segments: seq![
            PathSegV {
                name: "Vec"@,
                args: SegArgsV::Angle { args: seq![GenArgV::TyArg { ty: opt_expanded }] },
            },
        ],
    };
    assert(e_vec->Path_segments[0] == vec_expanded->Path_segments[0]);
    assert(e_vec->Path_segments =~= vec_expanded->Path_segments);
    assert(e_vec == vec_expanded);
}

/// An empty-tuple return type expands to the canonical handle-to-unit type,
/// with success.
pub proof fn lemma_output_unit()
    ensures
        spec_expand_output(TypeExprV::Tuple { elems: Seq::empty() }) == (spec_vc_unit(), true),
{
}

/// A result type wrapping a handle type expands to that handle type, with
/// success, whatever arguments the handle carries.
pub proof fn lemma_output_result_of_handle(handle_args: Seq<GenArgV>)
    ensures
        ({
            let handle = TypeExprV::Path {
                leading_colon: false,
                segments: seq![PathSegV { name: "Vc"@, args: SegArgsV::Angle { args: handle_args } }],
            };
            let result_ty = TypeExprV::Path {
                leading_colon: false,
                segments: seq![
                    PathSegV {
                        name: "Result"@,
                        args: SegArgsV::Angle { args: seq![GenArgV::TyArg { ty: handle }] },
                    },
                ],
            };
            spec_expand_output(result_ty) == (handle, true)
        }),
{
    lemma_known_names();
    reveal_with_fuel(spec_run_states, 3);
    reveal_with_fuel(spec_expand_output, 3);
}

} // verus!

