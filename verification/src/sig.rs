//! The crate's model of an annotated function's signature.

use vstd::prelude::*;

use crate::ast::SynToken;
use crate::ast::TypeExpr;
use crate::ast::TypeExprV;
use crate::ast::copy_type;
use crate::ast::view_type;

verus! {

/// How a `self` receiver is taken.
#[derive(Debug, Clone, Copy, PartialEq, Eq, Structural)]
pub enum ReceiverShape {
    /// `self`, by value.
    ByValue,
    /// `&self`, by immutable reference without a lifetime.
    ByRef,
    /// `&'a self`: a reference with a custom lifetime, reported at that
    /// lifetime's span.
    ByRefLifetime { lifetime_span: SynToken },
}

/// A parameter's binding pattern, as far as the pass reads it.
#[derive(Debug, PartialEq, Eq)]
pub enum PatModel {
    /// A plain identifier binding. The token stands for the whole original
    /// pattern (it may carry `ref`, `mut` or a subpattern), which is re-emitted
    /// verbatim in the inline body.
    Ident { name: String, raw: SynToken },
    /// Any other pattern (destructuring), carried through as a token.
    Other { raw: SynToken },
}

/// Mathematical model of a binding pattern.
#[verifier::ext_equal]
pub enum PatModelV {
    Ident { name: Seq<char>, raw: SynToken },
    Other { raw: SynToken },
}

impl View for PatModel {
    type V = PatModelV;

    open spec fn view(&self) -> PatModelV {
        match self {
            PatModel::Ident { name, raw } => PatModelV::Ident { name: name@, raw: *raw },
            PatModel::Other { raw } => PatModelV::Other { raw: *raw },
        }
    }
}

/// One declared parameter.
#[derive(Debug, PartialEq, Eq)]
pub enum FnArgModel {
    /// A `self` receiver.
    Receiver { has_attrs: bool, shape: ReceiverShape, is_mut: bool, span: SynToken },
    /// An ordinary typed parameter (including an explicitly typed `self`).
    Typed { has_attrs: bool, pat: PatModel, ty: TypeExpr, span: SynToken },
}

/// Mathematical model of one declared parameter.
#[verifier::ext_equal]
pub enum FnArgModelV {
    Receiver { has_attrs: bool, shape: ReceiverShape, is_mut: bool, span: SynToken },
    Typed { has_attrs: bool, pat: PatModelV, ty: TypeExprV, span: SynToken },
}

impl View for FnArgModel {
    type V = FnArgModelV;

    open spec fn view(&self) -> FnArgModelV {
        match self {
            FnArgModel::Receiver { has_attrs, shape, is_mut, span } => FnArgModelV::Receiver {
                has_attrs: *has_attrs,
                shape: *shape,
                is_mut: *is_mut,
                span: *span,
            },
            FnArgModel::Typed { has_attrs, pat, ty, span } => FnArgModelV::Typed {
                has_attrs: *has_attrs,
                pat: pat@,
                ty: ty@,
                span: *span,
            },
        }
    }
}

/// Copies a parameter; the copy has the same model.
pub fn copy_fn_arg(a: &FnArgModel) -> (r: FnArgModel)
    ensures
        r@ == a@,
{
    match a {
        FnArgModel::Receiver { has_attrs, shape, is_mut, span } => FnArgModel::Receiver {
            has_attrs: *has_attrs,
            shape: *shape,
            is_mut: *is_mut,
            span: *span,
        },
        FnArgModel::Typed { has_attrs, pat, ty, span } => FnArgModel::Typed {
            has_attrs: *has_attrs,
            pat: copy_pat(pat),
            ty: copy_type(ty),
            span: *span,
        },
    }
}

/// Copies a pattern; the copy has the same model.
pub fn copy_pat(p: &PatModel) -> (r: PatModel)
    ensures
        r@ == p@,
{
    match p {
        PatModel::Ident { name, raw } => PatModel::Ident { name: name.clone(), raw: *raw },
        PatModel::Other { raw } => PatModel::Other { raw: *raw },
    }
}

/// A whole annotated signature.
#[derive(Debug, PartialEq, Eq)]
pub struct SigModel {
    /// The declared function name.
    pub ident: String,
    /// Whether the declaration has generic parameters, and where they are.
    pub has_generics: bool,
    pub generics_span: SynToken,
    /// Whether the declaration has a where-clause, and where it is.
    pub has_where_clause: bool,
    pub where_clause_span: SynToken,
    /// The declared parameters, in order.
    pub inputs: Vec<FnArgModel>,
    /// The declared return type; absent means the unit type.
    pub output: Option<TypeExpr>,
    /// The span of the return type (of the whole signature when absent).
    pub output_span: SynToken,
}

/// Mathematical model of a signature.
#[verifier::ext_equal]
pub struct SigModelV {
    pub ident: Seq<char>,
    pub has_generics: bool,
    pub generics_span: SynToken,
    pub has_where_clause: bool,
    pub where_clause_span: SynToken,
    pub inputs: Seq<FnArgModelV>,
    pub output: Option<TypeExprV>,
    pub output_span: SynToken,
}

/// The model of a parameter list.
pub open spec fn args_view(inputs: Vec<FnArgModel>) -> Seq<FnArgModelV> {
    Seq::new(
        inputs@.len(),
        |i: int|
            if 0 <= i < inputs@.len() {
                inputs@[i]@
            } else {
                arbitrary()
            },
    )
}

impl View for SigModel {
    type V = SigModelV;

    open spec fn view(&self) -> SigModelV {
        SigModelV {
            ident: self.ident@,
            has_generics: self.has_generics,
            generics_span: self.generics_span,
            has_where_clause: self.has_where_clause,
            where_clause_span: self.where_clause_span,
            inputs: args_view(self.inputs),
            output: match self.output {
                Option::None => None,
                Option::Some(t) => Some(view_type(t)),
            },
            output_span: self.output_span,
        }
    }
}

} // verus!
