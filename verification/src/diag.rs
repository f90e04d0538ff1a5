//! Diagnostics: every failure of the pass is a message attached to a source
//! span.

use vstd::prelude::*;

use crate::ast::SynToken;
use crate::context::DefinitionContext;
use crate::context::spec_function_type;

verus! {

/// What a declaration-shape diagnostic complains about; the full message
/// names the definition context and then states the violation.
#[derive(Debug, Clone, Copy, PartialEq, Eq, Structural)]
pub enum DiagKind {
    /// The declaration has generic parameters.
    GenericParams,
    /// The declaration has a where-clause.
    WhereClause,
    /// A receiver carries attributes.
    ReceiverAttributes,
    /// The receiver is taken by mutable reference.
    MutableSelf,
    /// The receiver is taken by value.
    SelfByValue,
    /// The receiver reference has a custom lifetime.
    SelfLifetime,
    /// A typed first parameter carries attributes.
    TypedArgAttributes,
    /// The context demands a receiver and the declaration has none.
    MissingReceiver,
}

/// The part of the message that follows the definition context's name.
pub open spec fn spec_kind_tail(k: DiagKind) -> Seq<char> {
    match k {
        DiagKind::GenericParams => " do not support generic parameters"@,
        DiagKind::WhereClause => " do not support where clauses"@,
        DiagKind::ReceiverAttributes => " do not support attributes on arguments"@,
        DiagKind::MutableSelf => " cannot take self by mutable reference, use &self or self: Vc<Self> instead"@,
        DiagKind::SelfByValue => " cannot take self by value, use &self or self: Vc<Self> instead"@,
        DiagKind::SelfLifetime => " cannot take self by reference with a custom lifetime, use &self or self: Vc<Self> instead"@,
        DiagKind::TypedArgAttributes => " does not support attributes on arguments"@,
        DiagKind::MissingReceiver => " must accept &self or self: Vc<Self> as the first argument"@,
    }
}

/// The full message of a declaration-shape diagnostic.
pub open spec fn spec_context_message(k: DiagKind, ctx: DefinitionContext) -> Seq<char> {
    spec_function_type(ctx) + spec_kind_tail(k)
}

/// The message reported when the return type never reaches the terminal
/// handle shape.
pub open spec fn spec_return_type_message() -> Seq<char> {
    "Expected return type to be `turbo_tasks::Vc<T>` or `anyhow::Result<Vc<T>>`. Unable to process type."@
}

/// The message reported for an unrecognized annotation argument.
pub open spec fn spec_unexpected_option_message() -> Seq<char> {
    "unexpected token, expected one of: \"fs\", \"network\", \"resolved\", \"local_cells\""@
}

/// An error message attached to the source span it is reported at.
#[derive(Debug, PartialEq, Eq)]
pub struct Diagnostic {
    /// The source span the message is reported at.
    pub span: SynToken,
    /// The message text.
    pub message: String,
}

fn kind_tail(k: DiagKind) -> (r: &'static str)
    ensures
        r@ == spec_kind_tail(k),
{
    match k {
        DiagKind::GenericParams => " do not support generic parameters",
        DiagKind::WhereClause => " do not support where clauses",
        DiagKind::ReceiverAttributes => " do not support attributes on arguments",
        DiagKind::MutableSelf => " cannot take self by mutable reference, use &self or self: Vc<Self> instead",
        DiagKind::SelfByValue => " cannot take self by value, use &self or self: Vc<Self> instead",
        DiagKind::SelfLifetime => " cannot take self by reference with a custom lifetime, use &self or self: Vc<Self> instead",
        DiagKind::TypedArgAttributes => " does not support attributes on arguments",
        DiagKind::MissingReceiver => " must accept &self or self: Vc<Self> as the first argument",
    }
}

impl Diagnostic {
    /// A declaration-shape diagnostic: the context's name followed by the
    /// violation.
    pub fn for_context(span: SynToken, k: DiagKind, ctx: &DefinitionContext) -> (d: Diagnostic)
        ensures
            d.span == span,
            d.message@ == spec_context_message(k, *ctx),
    {
        let mut message: String = ctx.function_type().to_owned();
        message.append(kind_tail(k));
        Diagnostic { span, message }
    }

    /// The return-type-shape diagnostic, at the return type's span.
    pub fn return_type_shape(span: SynToken) -> (d: Diagnostic)
        ensures
            d.span == span,
            d.message@ == spec_return_type_message(),
    {
        Diagnostic {
            span,
            message: "Expected return type to be `turbo_tasks::Vc<T>` or `anyhow::Result<Vc<T>>`. Unable to process type.".to_owned(),
        }
    }

    /// The unrecognized-annotation diagnostic, at the offending token's span.
    pub fn unexpected_option(span: SynToken) -> (d: Diagnostic)
        ensures
            d.span == span,
            d.message@ == spec_unexpected_option_message(),
    {
        Diagnostic {
            span,
            message: "unexpected token, expected one of: \"fs\", \"network\", \"resolved\", \"local_cells\"".to_owned(),
        }
    }
}

/// Why a declaration was rejected: with a reported diagnostic, or silently
/// where the surrounding compiler emits its own error.
#[derive(Debug, PartialEq, Eq)]
pub enum Rejection {
    /// A diagnostic was reported.
    Report(Diagnostic),
    /// No diagnostic: the surrounding compiler reports the problem itself.
    Silent,
}

} // verus!
