//! The signature analyzer: turns an annotated declaration into a task
//! function plan, or rejects it with a diagnostic.

use vstd::prelude::*;

use crate::ast::PathSeg;
use crate::ast::PathSegV;
use crate::ast::SegArgs;
use crate::ast::SegArgsV;
use crate::ast::GenArg;
use crate::ast::GenArgV;
use crate::ast::SynToken;
use crate::ast::TypeExpr;
use crate::ast::TypeExprV;
use crate::ast::gen_args_view;
use crate::ast::segs_view;
use crate::context::DefinitionContext;
use crate::diag::DiagKind;
use crate::diag::Diagnostic;
use crate::diag::Rejection;
use crate::diag::spec_context_message;
use crate::expand::spec_expand_input;
use crate::sig::FnArgModelV;
use crate::sig::PatModelV;
use crate::sig::ReceiverShape;
use crate::sig::SigModel;
use crate::sig::SigModelV;
use crate::sig::FnArgModel;
use crate::sig::PatModel;
use crate::sig::copy_fn_arg;
use crate::sig::copy_pat;
use crate::ast::copy_type;
use crate::ast::name_is;
use crate::options::FunctionArguments;

verus! {

/// An identifier of generated code.
#[derive(Debug, PartialEq, Eq)]
pub enum IdentName {
    /// A user-written identifier, kept as written.
    User(String),
    /// The synthesized placeholder `arg{index}`.
    Arg(u64),
    /// The mangled inline-function name derived from the original name.
    InlineSuffix(String),
}

/// Mathematical model of a generated identifier.
#[verifier::ext_equal]
pub enum IdentNameV {
    User { name: Seq<char> },
    Arg { index: u64 },
    InlineSuffix { base: Seq<char> },
}

impl View for IdentName {
    type V = IdentNameV;

    open spec fn view(&self) -> IdentNameV {
        match self {
            IdentName::User(name) => IdentNameV::User { name: name@ },
            IdentName::Arg(index) => IdentNameV::Arg { index: *index },
            IdentName::InlineSuffix(base) => IdentNameV::InlineSuffix { base: base@ },
        }
    }
}

/// A normalized parameter: a name bound to a type.
#[derive(Debug, PartialEq, Eq)]
pub struct Input {
    pub ident: IdentName,
    pub ty: TypeExpr,
}

/// Mathematical model of a normalized parameter.
#[verifier::ext_equal]
pub struct InputV {
    pub ident: IdentNameV,
    pub ty: TypeExprV,
}

impl View for Input {
    type V = InputV;

    open spec fn view(&self) -> InputV {
        InputV { ident: self.ident@, ty: self.ty@ }
    }
}

/// The model of a normalized parameter list.
pub open spec fn inputs_view(inputs: Vec<Input>) -> Seq<InputV> {
    Seq::new(
        inputs@.len(),
        |i: int|
            if 0 <= i < inputs@.len() {
                inputs@[i]@
            } else {
                arbitrary()
            },
    )
}

/// One parameter of the inline signature.
#[derive(Debug, PartialEq, Eq)]
pub enum InlineArg {
    /// A receiver or an explicitly typed `self`, kept as declared.
    Kept(crate::sig::FnArgModel),
    /// Any other parameter: rebound to `arg{index}` with its type normalized
    /// to the task-input form.
    Rebound { index: u64, ty: TypeExpr },
}

/// Mathematical model of one inline-signature parameter.
#[verifier::ext_equal]
pub enum InlineArgV {
    Kept { arg: FnArgModelV },
    Rebound { index: u64, ty: TypeExprV },
}

impl View for InlineArg {
    type V = InlineArgV;

    open spec fn view(&self) -> InlineArgV {
        match self {
            InlineArg::Kept(arg) => InlineArgV::Kept { arg: arg@ },
            InlineArg::Rebound { index, ty } => InlineArgV::Rebound { index: *index, ty: ty@ },
        }
    }
}

/// The signature of the inline function: the original signature under the
/// mangled name, with every non-receiver parameter rebound.
#[derive(Debug, PartialEq, Eq)]
pub struct InlineSignature {
    pub ident: IdentName,
    pub inputs: Vec<InlineArg>,
    pub output: Option<TypeExpr>,
    pub output_span: SynToken,
}

/// Mathematical model of the inline signature.
#[verifier::ext_equal]
pub struct InlineSignatureV {
    pub ident: IdentNameV,
    pub inputs: Seq<InlineArgV>,
    pub output: Option<TypeExprV>,
    pub output_span: SynToken,
}

impl View for InlineSignature {
    type V = InlineSignatureV;

    open spec fn view(&self) -> InlineSignatureV {
        InlineSignatureV {
            ident: self.ident@,
            inputs: Seq::new(
                self.inputs@.len(),
                |i: int|
                    if 0 <= i < self.inputs@.len() {
                        self.inputs@[i]@
                    } else {
                        arbitrary()
                    },
            ),
            output: match self.output {
                Option::None => None,
                Option::Some(t) => Some(t@),
            },
            output_span: self.output_span,
        }
    }
}

/// One binding of the inline body: the original pattern bound to the decoded
/// value of the synthesized `arg{index}` parameter, at the declared type.
#[derive(Debug, PartialEq, Eq)]
pub struct InlineBinding {
    pub pat: crate::sig::PatModel,
    pub ty: TypeExpr,
    pub index: u64,
}

/// Mathematical model of one inline-body binding.
#[verifier::ext_equal]
pub struct InlineBindingV {
    pub pat: PatModelV,
    pub ty: TypeExprV,
    pub index: u64,
}

impl View for InlineBinding {
    type V = InlineBindingV;

    open spec fn view(&self) -> InlineBindingV {
        InlineBindingV { pat: self.pat@, ty: self.ty@, index: self.index }
    }
}

/// The inline body: the parameter bindings followed by the original block.
#[derive(Debug, PartialEq, Eq)]
pub struct InlineBlock {
    pub bindings: Vec<InlineBinding>,
    /// The original function block, appended verbatim as the final expression.
    pub body: SynToken,
}

/// Mathematical model of the inline body.
#[verifier::ext_equal]
pub struct InlineBlockV {
    pub bindings: Seq<InlineBindingV>,
    pub body: SynToken,
}

impl View for InlineBlock {
    type V = InlineBlockV;

    open spec fn view(&self) -> InlineBlockV {
        InlineBlockV {
            bindings: Seq::new(
                self.bindings@.len(),
                |i: int|
                    if 0 <= i < self.bindings@.len() {
                        self.bindings@[i]@
                    } else {
                        arbitrary()
                    },
            ),
            body: self.body,
        }
    }
}

/// Mathematical model of a rejection.
#[verifier::ext_equal]
pub enum RejectionV {
    Report { span: SynToken, message: Seq<char> },
    Silent,
}

impl View for Rejection {
    type V = RejectionV;

    open spec fn view(&self) -> RejectionV {
        match self {
            Rejection::Report(d) => RejectionV::Report { span: d.span, message: d.message@ },
            Rejection::Silent => RejectionV::Silent,
        }
    }
}

/// The canonical handle-to-Self type a receiver is normalized to.
pub open spec fn spec_vc_self() -> TypeExprV {
    TypeExprV::Path {
        leading_colon: false,
        segments: seq![
            PathSegV { name: "turbo_tasks"@, args: SegArgsV::NoArgs },
            PathSegV {
                name: "Vc"@,
                args: SegArgsV::Angle {
                    args: seq![
                        GenArgV::TyArg {
                            ty: TypeExprV::Path {
                                leading_colon: false,
                                segments: seq![PathSegV { name: "Self"@, args: SegArgsV::NoArgs }],
                            },
                        },
                    ],
                },
            },
        ],
    }
}

/// Builds the canonical handle-to-Self type.
pub fn make_vc_self() -> (r: TypeExpr)
    ensures
        r@ == spec_vc_self(),
{
    let mut self_segments: Vec<PathSeg> = Vec::new();
    self_segments.push(PathSeg { name: "Self".to_owned(), args: SegArgs::NoArgs });
    proof {
        assert(segs_view(self_segments) =~= seq![
            PathSegV { name: "Self"@, args: SegArgsV::NoArgs },
        ]);
    }
    let self_ty = TypeExpr::Path { leading_colon: false, segments: self_segments };
    proof {
        assert(self_ty@ == (TypeExprV::Path {
            leading_colon: false,
            segments: seq![PathSegV { name: "Self"@, args: SegArgsV::NoArgs }],
        }));
        assert(self_ty@ == spec_vc_self()->Path_segments[1].args->Angle_args[0]->TyArg_ty);
    }
    let ghost sv = self_ty@;
    let mut args: Vec<GenArg> = Vec::new();
    args.push(GenArg::TyArg(self_ty));
    proof {
        assert(gen_args_view(args).len() == 1);
        assert(gen_args_view(args)[0] == (GenArgV::TyArg { ty: sv }));
        assert(gen_args_view(args) =~= spec_vc_self()->Path_segments[1].args->Angle_args);
    }
    let seg0 = PathSeg { name: "turbo_tasks".to_owned(), args: SegArgs::NoArgs };
    let seg1 = PathSeg { name: "Vc".to_owned(), args: SegArgs::Angle(args) };
    proof {
        assert(seg0@ == spec_vc_self()->Path_segments[0]);
        assert(seg1@.args == spec_vc_self()->Path_segments[1].args);
        assert(seg1@ == spec_vc_self()->Path_segments[1]);
    }
    let mut segments: Vec<PathSeg> = Vec::new();
    segments.push(seg0);
    segments.push(seg1);
    proof {
        assert(segs_view(segments).len() == 2);
        assert(segs_view(segments)[0] == spec_vc_self()->Path_segments[0]);
        assert(segs_view(segments)[1] == spec_vc_self()->Path_segments[1]);
        assert(segs_view(segments) =~= spec_vc_self()->Path_segments);
    }
    let r = TypeExpr::Path { leading_colon: false, segments };
    proof {
        assert(r@ =~~= spec_vc_self());
    }
    r
}

/// What the analyzer makes of the first declared parameter: an optional
/// receiver and the normalized non-receiver inputs the first slot yields, or
/// a rejection.
pub open spec fn spec_first_input(inputs: Seq<FnArgModelV>, ctx: DefinitionContext) -> Result<
    (Option<InputV>, Seq<InputV>),
    RejectionV,
> {
    if inputs.len() == 0 {
        Ok((None::<InputV>, Seq::<InputV>::empty()))
    } else {
        match inputs[0] {
            FnArgModelV::Receiver { has_attrs, shape, is_mut, span } => {
                if has_attrs {
                    Err(
                        RejectionV::Report {
                            span,
                            message: spec_context_message(DiagKind::ReceiverAttributes, ctx),
                        },
                    )
                } else if ctx == DefinitionContext::NakedFn {
                    Err(RejectionV::Silent)
                } else if is_mut {
                    Err(
                        RejectionV::Report {
                            span,
                            message: spec_context_message(DiagKind::MutableSelf, ctx),
                        },
                    )
                } else {
                    match shape {
                        ReceiverShape::ByValue => Err(
                            RejectionV::Report {
                                span,
                                message: spec_context_message(DiagKind::SelfByValue, ctx),
                            },
                        ),
                        ReceiverShape::ByRefLifetime { lifetime_span } => Err(
                            RejectionV::Report {
                                span: lifetime_span,
                                message: spec_context_message(DiagKind::SelfLifetime, ctx),
                            },
                        ),
                        ReceiverShape::ByRef => Ok(
                            (
                                Some(
                                    InputV {
                                        ident: IdentNameV::User { name: "self"@ },
                                        ty: spec_vc_self(),
                                    },
                                ),
                                Seq::<InputV>::empty(),
                            ),
                        ),
                    }
                }
            },
            FnArgModelV::Typed { has_attrs, pat, ty, span } => {
                if has_attrs {
                    Err(
                        RejectionV::Report {
                            span,
                            message: spec_context_message(DiagKind::TypedArgAttributes, ctx),
                        },
                    )
                } else {
                    match pat {
                        PatModelV::Ident { name, raw } => {
                            if name == "self"@ {
                                if ctx == DefinitionContext::NakedFn {
                                    Err(RejectionV::Silent)
                                } else {
                                    Ok(
                                        (
                                            Some(
                                                InputV {
                                                    ident: IdentNameV::User { name },
                                                    ty: spec_vc_self(),
                                                },
                                            ),
                                            Seq::<InputV>::empty(),
                                        ),
                                    )
                                }
                            } else {
                                match ctx {
                                    DefinitionContext::NakedFn
                                    | DefinitionContext::ValueInherentImpl => Ok(
                                        (
                                            None::<InputV>,
                                            seq![
                                                InputV { ident: IdentNameV::User { name }, ty },
                                            ],
                                        ),
                                    ),
                                    DefinitionContext::ValueTraitImpl
                                    | DefinitionContext::ValueTrait => Err(
                                        RejectionV::Report {
                                            span,
                                            message: spec_context_message(
                                                DiagKind::MissingReceiver,
                                                ctx,
                                            ),
                                        },
                                    ),
                                }
                            }
                        },
                        PatModelV::Other { raw } => Ok(
                            (
                                None::<InputV>,
                                seq![InputV { ident: IdentNameV::Arg { index: 1 }, ty }],
                            ),
                        ),
                    }
                }
            },
        }
    }
}

/// What the analyzer makes of the parameter at position `j` (j >= 1): a
/// normalized input, or a silent rejection for a misplaced receiver.
pub open spec fn spec_input_at(inputs: Seq<FnArgModelV>, j: int) -> Result<InputV, RejectionV> {
    match inputs[j] {
        FnArgModelV::Receiver { .. } => Err(RejectionV::Silent),
        FnArgModelV::Typed { has_attrs, pat, ty, span } => Ok(
            InputV {
                ident: match pat {
                    PatModelV::Ident { name, raw } => IdentNameV::User { name },
                    PatModelV::Other { raw } => IdentNameV::Arg { index: (j + 1) as u64 },
                },
                ty,
            },
        ),
    }
}

/// The normalized inputs of the parameters at positions 1 to `j` (exclusive),
/// or the first rejection among them.
pub open spec fn spec_rest_inputs_upto(inputs: Seq<FnArgModelV>, j: int) -> Result<
    Seq<InputV>,
    RejectionV,
>
    decreases j,
{
    if j <= 1 {
        Ok(Seq::<InputV>::empty())
    } else {
        match spec_rest_inputs_upto(inputs, j - 1) {
            Err(e) => Err(e),
            Ok(acc) => match spec_input_at(inputs, j - 1) {
                Err(e) => Err(e),
                Ok(x) => Ok(acc.push(x)),
            },
        }
    }
}

/// One parameter of the inline signature: receivers and explicitly typed
/// `self` parameters are kept; everything else is rebound to `arg{index}`
/// with its type normalized to the task-input form.
pub open spec fn spec_inline_arg(arg: FnArgModelV, idx: int) -> InlineArgV {
    match arg {
        FnArgModelV::Receiver { .. } => InlineArgV::Kept { arg },
        FnArgModelV::Typed { pat, ty, .. } => {
            if pat matches PatModelV::Ident { name, .. } && name == "self"@ {
                InlineArgV::Kept { arg }
            } else {
                InlineArgV::Rebound { index: idx as u64, ty: spec_expand_input(ty) }
            }
        },
    }
}

/// The inline-body bindings of the parameters at positions 0 to `i`
/// (exclusive): one binding per typed non-`self` parameter, in order.
pub open spec fn spec_inline_bindings_upto(inputs: Seq<FnArgModelV>, i: int) -> Seq<InlineBindingV>
    decreases i,
{
    if i <= 0 {
        Seq::<InlineBindingV>::empty()
    } else {
        let rest = spec_inline_bindings_upto(inputs, i - 1);
        match inputs[i - 1] {
            FnArgModelV::Receiver { .. } => rest,
            FnArgModelV::Typed { pat, ty, .. } => {
                if pat matches PatModelV::Ident { name, .. } && name == "self"@ {
                    rest
                } else {
                    rest.push(InlineBindingV { pat, ty, index: (i - 1) as u64 })
                }
            },
        }
    }
}


/// Mathematical model of a task function plan.
#[verifier::ext_equal]
pub struct TurboFnV {
    pub ident: Seq<char>,
    pub output: TypeExprV,
    pub output_span: SynToken,
    pub this: Option<InputV>,
    pub inputs: Seq<InputV>,
    pub resolved: Option<SynToken>,
    pub local_cells: bool,
    pub inline_signature: InlineSignatureV,
    pub inline_ident: IdentNameV,
    pub inline_block: InlineBlockV,
}

/// The full signature analysis: validates the declaration against its
/// context, classifies the receiver, normalizes the parameter list and the
/// return type, and assembles the plan — or rejects the declaration.
///
/// Rules, in order: generic parameters, then where-clauses, are rejected;
/// the first parameter decides the receiver (see `spec_first_input`); every
/// later parameter must be typed, a misplaced receiver being rejected
/// silently; an absent return annotation becomes the unit type.
pub open spec fn spec_analyze(
    sig: SigModelV,
    ctx: DefinitionContext,
    args: FunctionArguments,
    body: SynToken,
) -> Result<TurboFnV, RejectionV> {
    if sig.has_generics {
        Err(
            RejectionV::Report {
                span: sig.generics_span,
                message: spec_context_message(DiagKind::GenericParams, ctx),
            },
        )
    } else if sig.has_where_clause {
        Err(
            RejectionV::Report {
                span: sig.where_clause_span,
                message: spec_context_message(DiagKind::WhereClause, ctx),
            },
        )
    } else {
        match spec_first_input(sig.inputs, ctx) {
            Err(e) => Err(e),
            Ok((this, firsts)) => match spec_rest_inputs_upto(sig.inputs, sig.inputs.len() as int) {
                Err(e) => Err(e),
                Ok(rest) => Ok(
                    TurboFnV {
                        ident: sig.ident,
                        output: match sig.output {
                            Option::None => TypeExprV::Tuple { elems: Seq::empty() },
                            Option::Some(t) => t,
                        },
                        output_span: sig.output_span,
                        this,
                        inputs: firsts + rest,
                        resolved: args.resolved,
                        local_cells: args.local_cells is Some,
                        inline_signature: InlineSignatureV {
                            ident: IdentNameV::InlineSuffix { base: sig.ident },
                            inputs: Seq::new(
                                sig.inputs.len(),
                                |i: int| spec_inline_arg(sig.inputs[i], i),
                            ),
                            output: sig.output,
                            output_span: sig.output_span,
                        },
                        inline_ident: IdentNameV::InlineSuffix { base: sig.ident },
                        inline_block: InlineBlockV {
                            bindings: spec_inline_bindings_upto(
                                sig.inputs,
                                sig.inputs.len() as int,
                            ),
                            body,
                        },
                    },
                ),
            },
        }
    }
}

/// Once a later parameter is a misplaced receiver, the whole rest-parameter
/// walk is rejected with that rejection.
proof fn lemma_rest_inputs_err(inputs: Seq<FnArgModelV>, j: int, m: int)
    requires
        1 <= j < m,
        spec_rest_inputs_upto(inputs, j) is Ok,
        spec_input_at(inputs, j - 1 + 1) is Err,
    ensures
        spec_rest_inputs_upto(inputs, m) == Err::<Seq<InputV>, RejectionV>(
            spec_input_at(inputs, j)->Err_0,
        ),
    decreases m,
{
    if m == j + 1 {
    } else {
        lemma_rest_inputs_err(inputs, j, m - 1);
    }
}

/// The analyzer's plan, read by both code-generation paths.
#[derive(Debug, PartialEq, Eq)]
pub struct TurboFn {
    /// The exposed function's name: the original function's name.
    pub ident: String,
    /// The nominal return type (the unit type when none was declared).
    pub output: TypeExpr,
    /// The span of the declared return type, for diagnostics.
    pub output_span: SynToken,
    /// The receiver, when the declaration has one.
    pub this: Option<Input>,
    /// The non-receiver parameters, in declaration order.
    pub inputs: Vec<Input>,
    /// Set when the output must be checked to be a fully resolved value.
    pub resolved: Option<SynToken>,
    /// Whether this function uses the local-cells persistence mode.
    pub local_cells: bool,
    /// The inline function's signature.
    pub inline_signature: InlineSignature,
    /// The inline function's name.
    pub inline_ident: IdentName,
    /// The inline function's body.
    pub inline_block: InlineBlock,
}

/// The model of an optional parameter.
pub open spec fn opt_input_view(o: Option<Input>) -> Option<InputV> {
    match o {
        Option::None => None,
        Option::Some(i) => Some(i@),
    }
}

impl View for TurboFn {
    type V = TurboFnV;

    open spec fn view(&self) -> TurboFnV {
        TurboFnV {
            ident: self.ident@,
            output: self.output@,
            output_span: self.output_span,
            this: opt_input_view(self.this),
            inputs: inputs_view(self.inputs),
            resolved: self.resolved,
            local_cells: self.local_cells,
            inline_signature: self.inline_signature@,
            inline_ident: self.inline_ident@,
            inline_block: self.inline_block@,
        }
    }
}

impl TurboFn {
    /// Analyzes an annotated declaration in its context.
    ///
    /// The result is exactly what `spec_analyze` says: a plan, or the first
    /// rejection in rule order, with its diagnostic message and span.
    #[verifier::loop_isolation(false)]
    pub fn new(
        orig_signature: &SigModel,
        definition_context: DefinitionContext,
        args: FunctionArguments,
        orig_block: SynToken,
    ) -> (r: Result<TurboFn, Rejection>)
        ensures
            r is Ok <==> spec_analyze(orig_signature@, definition_context, args, orig_block)
                is Ok,
            r matches Ok(tf) ==> Ok::<TurboFnV, RejectionV>(tf@) == spec_analyze(
                orig_signature@,
                definition_context,
                args,
                orig_block,
            ),
            r matches Err(rej) ==> Err::<TurboFnV, RejectionV>(rej@) == spec_analyze(
                orig_signature@,
                definition_context,
                args,
                orig_block,
            ),
    {
        let ghost sv = orig_signature@;
        if orig_signature.has_generics {
            return Err(
                Rejection::Report(
                    Diagnostic::for_context(
                        orig_signature.generics_span,
                        DiagKind::GenericParams,
                        &definition_context,
                    ),
                ),
            );
        }
        if orig_signature.has_where_clause {
            return Err(
                Rejection::Report(
                    Diagnostic::for_context(
                        orig_signature.where_clause_span,
                        DiagKind::WhereClause,
                        &definition_context,
                    ),
                ),
            );
        }
        let n = orig_signature.inputs.len();
        let mut this: Option<Input> = None;
        let mut inputs: Vec<Input> = Vec::new();
        if n > 0 {
            match &orig_signature.inputs[0] {
                FnArgModel::Receiver { has_attrs, shape, is_mut, span } => {
                    if *has_attrs {
                        return Err(
                            Rejection::Report(
                                Diagnostic::for_context(
                                    *span,
                                    DiagKind::ReceiverAttributes,
                                    &definition_context,
                                ),
                            ),
                        );
                    }
                    match definition_context {
                        DefinitionContext::NakedFn => {
                            return Err(Rejection::Silent);
                        },
                        _ => {},
                    }
                    if *is_mut {
                        return Err(
                            Rejection::Report(
                                Diagnostic::for_context(
                                    *span,
                                    DiagKind::MutableSelf,
                                    &definition_context,
                                ),
                            ),
                        );
                    }
                    match shape {
                        ReceiverShape::ByValue => {
                            return Err(
                                Rejection::Report(
                                    Diagnostic::for_context(
                                        *span,
                                        DiagKind::SelfByValue,
                                        &definition_context,
                                    ),
                                ),
                            );
                        },
                        ReceiverShape::ByRefLifetime { lifetime_span } => {
                            return Err(
                                Rejection::Report(
                                    Diagnostic::for_context(
                                        *lifetime_span,
                                        DiagKind::SelfLifetime,
                                        &definition_context,
                                    ),
                                ),
                            );
                        },
                        ReceiverShape::ByRef => {
                            this = Some(
                                Input { ident: IdentName::User("self".to_owned()), ty: make_vc_self() },
                            );
                        },
                    }
                },
                FnArgModel::Typed { has_attrs, pat, ty, span } => {
                    if *has_attrs {
                        return Err(
                            Rejection::Report(
                                Diagnostic::for_context(
                                    *span,
                                    DiagKind::TypedArgAttributes,
                                    &definition_context,
                                ),
                            ),
                        );
                    }
                    match pat {
                        PatModel::Ident { name, raw } => {
                            if name_is(name, "self") {
                                match definition_context {
                                    DefinitionContext::NakedFn => {
                                        return Err(Rejection::Silent);
                                    },
                                    _ => {},
                                }
                                this = Some(
                                    Input { ident: IdentName::User(name.clone()), ty: make_vc_self() },
                                );
                            } else {
                                match definition_context {
                                    DefinitionContext::NakedFn
                                    | DefinitionContext::ValueInherentImpl => {
                                        inputs.push(
                                            Input {
                                                ident: IdentName::User(name.clone()),
                                                ty: copy_type(ty),
                                            },
                                        );
                                    },
                                    DefinitionContext::ValueTraitImpl
                                    | DefinitionContext::ValueTrait => {
                                        return Err(
                                            Rejection::Report(
                                                Diagnostic::for_context(
                                                    *span,
                                                    DiagKind::MissingReceiver,
                                                    &definition_context,
                                                ),
                                            ),
                                        );
                                    },
                                }
                            }
                        },
                        PatModel::Other { raw } => {
                            inputs.push(Input { ident: IdentName::Arg(1), ty: copy_type(ty) });
                        },
                    }
                },
            }
        }
        let ghost first = spec_first_input(sv.inputs, definition_context);
        proof {
            assert(first is Ok);
            assert(opt_input_view(this) == first->Ok_0.0);
            assert(inputs_view(inputs) =~= first->Ok_0.1);
        }
        let ghost n_first = inputs@.len() as int;
        if n > 0 {
            let mut j: usize = 1;
            proof {
                assert(spec_rest_inputs_upto(sv.inputs, 1) == Ok::<Seq<InputV>, RejectionV>(
                    Seq::<InputV>::empty(),
                ));
                assert forall|i: int| 0 <= i < inputs@.len() implies #[trigger] inputs@[i]@ == (
                first->Ok_0.1 + spec_rest_inputs_upto(sv.inputs, 1)->Ok_0)[i] by {
                    assert(inputs@[i]@ == inputs_view(inputs)[i]);
                }
            }
            while j < n
                invariant
                    1 <= j <= n,
                    inputs@.len() == n_first + j - 1,
                    n_first == first->Ok_0.1.len(),
                    spec_rest_inputs_upto(sv.inputs, j as int) is Ok,
                    spec_rest_inputs_upto(sv.inputs, j as int)->Ok_0.len() == j - 1,
                    forall|i: int|
                        0 <= i < inputs@.len() ==> #[trigger] inputs@[i]@ == (first->Ok_0.1
                            + spec_rest_inputs_upto(sv.inputs, j as int)->Ok_0)[i],
                decreases n - j,
            {
                match &orig_signature.inputs[j] {
                    FnArgModel::Receiver { .. } => {
                        proof {
                            lemma_rest_inputs_err(sv.inputs, j as int, sv.inputs.len() as int);
                        }
                        return Err(Rejection::Silent);
                    },
                    FnArgModel::Typed { has_attrs, pat, ty, span } => {
                        let ident = match pat {
                            PatModel::Ident { name, raw } => IdentName::User(name.clone()),
                            PatModel::Other { raw } => IdentName::Arg((j as u64) + 1),
                        };
                        let entry = Input { ident, ty: copy_type(ty) };
                        proof {
                            assert(sv.inputs[j as int] == orig_signature.inputs@[j as int]@);
                            assert(spec_input_at(sv.inputs, j as int) == Ok::<InputV, RejectionV>(
                                entry@,
                            ));
                        }
                        let ghost ev = entry@;
                        let ghost old_vec = inputs@;
                        let ghost entry_snap = entry;
                        inputs.push(entry);
                        proof {
                            let prev = spec_rest_inputs_upto(sv.inputs, j as int)->Ok_0;
                            assert(spec_input_at(sv.inputs, (j as int + 1) - 1) == Ok::<
                                InputV,
                                RejectionV,
                            >(ev));
                            assert(spec_rest_inputs_upto(sv.inputs, j as int + 1) == Ok::<
                                Seq<InputV>,
                                RejectionV,
                            >(prev.push(ev)));
                            assert forall|i: int| 0 <= i < inputs@.len() implies #[trigger] inputs@[i]@
                                == (first->Ok_0.1 + prev.push(ev))[i] by {
                                if i < inputs@.len() - 1 {
                                    assert(inputs@[i] == old_vec[i]);
                                } else {
                                    assert(inputs@[i] == entry_snap);
                                }
                            }
                        }
                    },
                }
                j = j + 1;
            }
        }
        proof {
            if n == 0 {
                assert(spec_rest_inputs_upto(sv.inputs, sv.inputs.len() as int) == Ok::<
                    Seq<InputV>,
                    RejectionV,
                >(Seq::<InputV>::empty()));
            }
            assert(inputs_view(inputs) =~= first->Ok_0.1 + spec_rest_inputs_upto(
                sv.inputs,
                sv.inputs.len() as int,
            )->Ok_0);
        }

        let output = crate::expand::return_type_to_type(&orig_signature.output);

        let mut inline_inputs: Vec<InlineArg> = Vec::new();
        let mut k: usize = 0;
        while k < n
            invariant
                k <= n,
                inline_inputs@.len() == k as int,
                forall|i: int|
                    0 <= i < k as int ==> inline_inputs@[i]@ == spec_inline_arg(sv.inputs[i], i),
            decreases n - k,
        {
            match &orig_signature.inputs[k] {
                FnArgModel::Receiver { .. } => {
                    inline_inputs.push(InlineArg::Kept(copy_fn_arg(&orig_signature.inputs[k])));
                },
                FnArgModel::Typed { pat, ty, .. } => {
                    let is_self = match pat {
                        PatModel::Ident { name, .. } => name_is(name, "self"),
                        PatModel::Other { .. } => false,
                    };
                    if is_self {
                        inline_inputs.push(
                            InlineArg::Kept(copy_fn_arg(&orig_signature.inputs[k])),
                        );
                    } else {
                        inline_inputs.push(
                            InlineArg::Rebound {
                                index: k as u64,
                                ty: crate::expand::expand_task_input_type(ty),
                            },
                        );
                    }
                },
            }
            k = k + 1;
        }

        let mut bindings: Vec<InlineBinding> = Vec::new();
        let mut b: usize = 0;
        while b < n
            invariant
                b <= n,
                Seq::new(
                    bindings@.len(),
                    |i: int|
                        if 0 <= i < bindings@.len() {
                            bindings@[i]@
                        } else {
                            arbitrary()
                        },
                ) =~= spec_inline_bindings_upto(sv.inputs, b as int),
            decreases n - b,
        {
            match &orig_signature.inputs[b] {
                FnArgModel::Receiver { .. } => {},
                FnArgModel::Typed { pat, ty, .. } => {
                    let is_self = match pat {
                        PatModel::Ident { name, .. } => name_is(name, "self"),
                        PatModel::Other { .. } => false,
                    };
                    if !is_self {
                        bindings.push(
                            InlineBinding {
                                pat: copy_pat(pat),
                                ty: copy_type(ty),
                                index: b as u64,
                            },
                        );
                    }
                },
            }
            proof {
                assert(Seq::new(
                    bindings@.len(),
                    |i: int|
                        if 0 <= i < bindings@.len() {
                            bindings@[i]@
                        } else {
                            arbitrary()
                        },
                ) =~= spec_inline_bindings_upto(sv.inputs, b as int + 1));
            }
            b = b + 1;
        }

        let inline_output = match &orig_signature.output {
            Option::None => None,
            Option::Some(t) => Some(copy_type(t)),
        };
        let inline_signature = InlineSignature {
            ident: IdentName::InlineSuffix(orig_signature.ident.clone()),
            inputs: inline_inputs,
            output: inline_output,
            output_span: orig_signature.output_span,
        };
        let inline_ident = IdentName::InlineSuffix(orig_signature.ident.clone());
        let inline_block = InlineBlock { bindings, body: orig_block };

        let tf = TurboFn {
            ident: orig_signature.ident.clone(),
            output,
            output_span: orig_signature.output_span,
            this,
            inputs,
            resolved: args.resolved,
            local_cells: args.local_cells.is_some(),
            inline_signature,
            inline_ident,
            inline_block,
        };
        proof {
            let spec_tf = spec_analyze(sv, definition_context, args, orig_block)->Ok_0;
            assert(tf@.inline_signature.inputs =~= spec_tf.inline_signature.inputs);
            assert(tf@.inline_signature =~~= spec_tf.inline_signature);
            assert(tf@.inline_block =~~= spec_tf.inline_block);
            assert(tf@ =~~= spec_tf);
        }
        Ok(tf)
    }
}

} // verus!
