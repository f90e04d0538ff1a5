//! The crate's own model of the surface syntax the pass works on.
//!
//! Type expressions are modelled as qualified paths of named segments with
//! generic arguments, tuples, parenthesized groups, and an opaque remainder.
//! Shapes the pass never inspects are carried as opaque tokens: small handles
//! that the unverified frontend maps back to the original syntax nodes.

use vstd::prelude::*;

verus! {

/// An opaque handle to a syntax node (a pattern, a block, a source span, ...)
/// that the pass carries through without reading.
pub type SynToken = u64;

/// A path segment: an identifier with its generic arguments.
#[derive(Debug, PartialEq, Eq)]
pub struct PathSeg {
    pub name: String,
    pub args: SegArgs,
}

/// The generic arguments attached to one path segment.
#[derive(Debug, PartialEq, Eq)]
pub enum SegArgs {
    /// No arguments at all.
    NoArgs,
    /// Angle-bracketed arguments, in order.
    Angle(Vec<GenArg>),
    /// Some other argument form (parenthesized function arguments).
    OtherArgs(SynToken),
}

/// One angle-bracketed generic argument.
#[derive(Debug, PartialEq, Eq)]
pub enum GenArg {
    /// A type argument.
    TyArg(TypeExpr),
    /// A non-type argument (a lifetime, a const, a binding).
    OpaqueArg(SynToken),
}

/// A type expression, as far as the pass reads it.
#[derive(Debug, PartialEq, Eq)]
pub enum TypeExpr {
    /// A plain path type without a qualified-self prefix.
    Path { leading_colon: bool, segments: Vec<PathSeg> },
    /// A tuple type.
    Tuple { elems: Vec<TypeExpr> },
    /// A parenthesized (transparent) group around another type.
    Group { inner: Box<TypeExpr> },
    /// Any other type form, carried through untouched.
    Opaque { token: SynToken },
}

/// Mathematical model of a path segment.
#[verifier::ext_equal]
pub struct PathSegV {
    pub name: Seq<char>,
    pub args: SegArgsV,
}

/// Mathematical model of a segment's generic arguments.
#[verifier::ext_equal]
pub enum SegArgsV {
    NoArgs,
    Angle { args: Seq<GenArgV> },
    OtherArgs { token: SynToken },
}

/// Mathematical model of one generic argument.
#[verifier::ext_equal]
pub enum GenArgV {
    TyArg { ty: TypeExprV },
    OpaqueArg { token: SynToken },
}

/// Mathematical model of a type expression.
#[verifier::ext_equal]
pub enum TypeExprV {
    Path { leading_colon: bool, segments: Seq<PathSegV> },
    Tuple { elems: Seq<TypeExprV> },
    Group { inner: Box<TypeExprV> },
    Opaque { token: SynToken },
}

impl View for TypeExpr {
    type V = TypeExprV;

    open spec fn view(&self) -> TypeExprV {
        view_type(*self)
    }
}

impl View for PathSeg {
    type V = PathSegV;

    open spec fn view(&self) -> PathSegV {
        view_seg(*self)
    }
}

impl View for GenArg {
    type V = GenArgV;

    open spec fn view(&self) -> GenArgV {
        view_gen_arg(*self)
    }
}

impl View for SegArgs {
    type V = SegArgsV;

    open spec fn view(&self) -> SegArgsV {
        view_seg_args(*self)
    }
}

/// The model of a segment list.
pub open spec fn segs_view(segments: Vec<PathSeg>) -> Seq<PathSegV>
    decreases segments,
{
    Seq::new(
        segments@.len(),
        |i: int|
            if 0 <= i < segments@.len() {
                view_seg(segments@[i])
            } else {
                arbitrary()
            },
    )
}

/// The model of a generic-argument list.
pub open spec fn gen_args_view(args: Vec<GenArg>) -> Seq<GenArgV>
    decreases args,
{
    Seq::new(
        args@.len(),
        |i: int|
            if 0 <= i < args@.len() {
                view_gen_arg(args@[i])
            } else {
                arbitrary()
            },
    )
}

pub open spec fn view_type(t: TypeExpr) -> TypeExprV
    decreases t,
{
    match t {
        TypeExpr::Path { leading_colon, segments } => TypeExprV::Path {
            leading_colon,
            segments: segs_view(segments),
        },
        TypeExpr::Tuple { elems } => TypeExprV::Tuple {
            elems: Seq::new(
                elems@.len(),
                |i: int|
                    if 0 <= i < elems@.len() {
                        view_type(elems@[i])
                    } else {
                        arbitrary()
                    },
            ),
        },
        TypeExpr::Group { inner } => TypeExprV::Group { inner: Box::new(view_type(*inner)) },
        TypeExpr::Opaque { token } => TypeExprV::Opaque { token },
    }
}

pub open spec fn view_seg(s: PathSeg) -> PathSegV
    decreases s,
{
    PathSegV { name: s.name@, args: view_seg_args(s.args) }
}

pub open spec fn view_seg_args(a: SegArgs) -> SegArgsV
    decreases a,
{
    match a {
        SegArgs::NoArgs => SegArgsV::NoArgs,
        SegArgs::Angle(args) => SegArgsV::Angle { args: gen_args_view(args) },
        SegArgs::OtherArgs(token) => SegArgsV::OtherArgs { token },
    }
}

pub open spec fn view_gen_arg(a: GenArg) -> GenArgV
    decreases a,
{
    match a {
        GenArg::TyArg(t) => GenArgV::TyArg { ty: view_type(t) },
        GenArg::OpaqueArg(token) => GenArgV::OpaqueArg { token },
    }
}

/// Compares an identifier against a known name.
pub fn name_is(s: &String, lit: &str) -> (r: bool)
    ensures
        r == (s@ == lit@),
{
    let owned: String = lit.to_owned();
    *s == owned
}

/// Copies a type expression; the copy has the same model.
#[verifier::loop_isolation(false)]
pub fn copy_type(t: &TypeExpr) -> (r: TypeExpr)
    ensures
        r@ == t@,
    decreases *t,
{
    match t {
        TypeExpr::Path { leading_colon, segments } => {
            let segs = copy_segments(segments);
            proof {
                assert(segs_view(segs) =~= segs_view(*segments));
            }
            let r = TypeExpr::Path { leading_colon: *leading_colon, segments: segs };
            proof {
                assert(r@ =~~= (*t)@);
            }
            r
        },
        TypeExpr::Tuple { elems } => {
            let mut out: Vec<TypeExpr> = Vec::new();
            let mut i: usize = 0;
            while i < elems.len()
                invariant
                    i <= elems@.len(),
                    out@.len() == i as int,
                    forall|j: int| 0 <= j < i as int ==> out@[j]@ == elems@[j]@,
                decreases elems@.len() - i,
            {
                proof {
                    assert(decreases_to!(*t => (*t)->Tuple_elems));
                    assert(decreases_to!(*elems => elems@[i as int]));
                }
                let e = copy_type(&elems[i]);
                out.push(e);
                i = i + 1;
            }
            let r = TypeExpr::Tuple { elems: out };
            proof {
                assert(r@->Tuple_elems =~= (*t)@->Tuple_elems);
                assert(r@ =~~= (*t)@);
            }
            r
        },
        TypeExpr::Group { inner } => {
            let e = copy_type(&**inner);
            TypeExpr::Group { inner: Box::new(e) }
        },
        TypeExpr::Opaque { token } => TypeExpr::Opaque { token: *token },
    }
}

/// Copies a list of path segments; each copy has the same model.
pub fn copy_segments(segments: &Vec<PathSeg>) -> (r: Vec<PathSeg>)
    ensures
        r@.len() == segments@.len(),
        forall|j: int| 0 <= j < segments@.len() ==> r@[j]@ == segments@[j]@,
    decreases *segments,
{
    let mut out: Vec<PathSeg> = Vec::new();
    let mut i: usize = 0;
    while i < segments.len()
        invariant
            i <= segments@.len(),
            out@.len() == i as int,
            forall|j: int| 0 <= j < i as int ==> out@[j]@ == segments@[j]@,
        decreases segments@.len() - i,
    {
        let s = copy_seg(&segments[i]);
        out.push(s);
        i = i + 1;
    }
    out
}

/// Copies one path segment; the copy has the same model.
pub fn copy_seg(s: &PathSeg) -> (r: PathSeg)
    ensures
        r@ == s@,
    decreases *s,
{
    PathSeg { name: s.name.clone(), args: copy_seg_args(&s.args) }
}

/// Copies a segment's generic arguments; the copy has the same model.
#[verifier::loop_isolation(false)]
pub fn copy_seg_args(a: &SegArgs) -> (r: SegArgs)
    ensures
        r@ == a@,
    decreases *a,
{
    match a {
        SegArgs::NoArgs => SegArgs::NoArgs,
        SegArgs::Angle(args) => {
            let mut out: Vec<GenArg> = Vec::new();
            let mut i: usize = 0;
            while i < args.len()
                invariant
                    i <= args@.len(),
                    out@.len() == i as int,
                    forall|j: int| 0 <= j < i as int ==> out@[j]@ == args@[j]@,
                decreases args@.len() - i,
            {
                proof {
                    assert(decreases_to!(*a => (*a)->Angle_0));
                    assert(decreases_to!(*args => args@[i as int]));
                }
                let g = copy_gen_arg(&args[i]);
                out.push(g);
                i = i + 1;
            }
            proof {
                assert(gen_args_view(out) =~= gen_args_view(*args));
            }
            let r = SegArgs::Angle(out);
            proof {
                assert(r@ =~~= (*a)@);
            }
            r
        },
        SegArgs::OtherArgs(token) => SegArgs::OtherArgs(*token),
    }
}

/// Copies one generic argument; the copy has the same model.
pub fn copy_gen_arg(a: &GenArg) -> (r: GenArg)
    ensures
        r@ == a@,
    decreases *a,
{
    match a {
        GenArg::TyArg(t) => GenArg::TyArg(copy_type(t)),
        GenArg::OpaqueArg(token) => GenArg::OpaqueArg(*token),
    }
}

} // verus!
