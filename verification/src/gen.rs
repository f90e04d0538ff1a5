//! The dual-path generator: the exposed signature and the dispatch bodies
//! produced from one task function plan.
//!
//! Each product is a pure function of the plan, modelled as a structured code
//! fragment that the unverified frontend renders back into real syntax.

use vstd::prelude::*;

use crate::ast::SynToken;
use crate::ast::TypeExpr;
use crate::ast::TypeExprV;
use crate::ast::copy_type;
use crate::diag::Diagnostic;
use crate::diag::spec_return_type_message;
use crate::expand::expand_task_input_type;
use crate::expand::expand_vc_return_type;
use crate::expand::spec_expand_input;
use crate::expand::spec_expand_output;
use crate::turbo_fn::IdentName;
use crate::turbo_fn::InlineBlock;
use crate::turbo_fn::InlineSignature;
use crate::turbo_fn::IdentNameV;
use crate::turbo_fn::Input;
use crate::turbo_fn::InputV;
use crate::turbo_fn::TurboFn;
use crate::turbo_fn::TurboFnV;

verus! {

/// How the generated dispatch body computes the persistence mode.
#[derive(Debug, Clone, Copy, PartialEq, Eq, Structural)]
pub enum PersistenceExpr {
    /// The fixed local-cells mode.
    LocalCells,
    /// Inferred at the call site from the argument values alone.
    FromInputs,
    /// Inferred at the call site from the receiver and the argument values.
    FromInputsAndThis,
}

/// The generated compile-time assertion that the output type is a fully
/// resolved value, reported at the originating flag's span.
#[derive(Debug, PartialEq, Eq)]
pub struct ResolvedAssertion {
    pub span: SynToken,
    pub return_ty: TypeExpr,
}

/// Mathematical model of the resolved-value assertion.
#[verifier::ext_equal]
pub struct ResolvedAssertionV {
    pub span: SynToken,
    pub return_ty: TypeExprV,
}

impl View for ResolvedAssertion {
    type V = ResolvedAssertionV;

    open spec fn view(&self) -> ResolvedAssertionV {
        ResolvedAssertionV { span: self.span, return_ty: self.return_ty@ }
    }
}

/// The engine entry point a generated body dispatches through.
#[derive(Debug, PartialEq, Eq)]
pub enum DispatchCall {
    /// The trait-call entry point, keyed by a trait-type identifier and the
    /// method's textual name.
    TraitCall { trait_type_id: IdentName, method_name: IdentName },
    /// The call-by-function-id entry point, with a converted receiver.
    DynamicThisCall { native_function_id: IdentName },
    /// The call-by-function-id entry point, without a receiver.
    DynamicCall { native_function_id: IdentName },
}

/// Mathematical model of a dispatch entry point.
#[verifier::ext_equal]
pub enum DispatchCallV {
    TraitCall { trait_type_id: IdentNameV, method_name: IdentNameV },
    DynamicThisCall { native_function_id: IdentNameV },
    DynamicCall { native_function_id: IdentNameV },
}

impl View for DispatchCall {
    type V = DispatchCallV;

    open spec fn view(&self) -> DispatchCallV {
        match self {
            DispatchCall::TraitCall { trait_type_id, method_name } => DispatchCallV::TraitCall {
                trait_type_id: trait_type_id@,
                method_name: method_name@,
            },
            DispatchCall::DynamicThisCall { native_function_id } => DispatchCallV::DynamicThisCall {
                native_function_id: native_function_id@,
            },
            DispatchCall::DynamicCall { native_function_id } => DispatchCallV::DynamicCall {
                native_function_id: native_function_id@,
            },
        }
    }
}

/// A generated dispatch body: the optional resolved-value assertion, the
/// argument identifiers packed into the boxed tuple in order, the optional
/// converted receiver, the persistence mode, the declared output type the
/// result is decoded to, and the entry point called.
#[derive(Debug, PartialEq, Eq)]
pub struct CallBlock {
    pub assertion: Option<ResolvedAssertion>,
    pub input_idents: Vec<IdentName>,
    pub converted_this: Option<IdentName>,
    pub persistence: PersistenceExpr,
    pub output_ty: TypeExpr,
    pub call: DispatchCall,
}

/// Mathematical model of a generated dispatch body.
#[verifier::ext_equal]
pub struct CallBlockV {
    pub assertion: Option<ResolvedAssertionV>,
    pub input_idents: Seq<IdentNameV>,
    pub converted_this: Option<IdentNameV>,
    pub persistence: PersistenceExpr,
    pub output_ty: TypeExprV,
    pub call: DispatchCallV,
}

impl View for CallBlock {
    type V = CallBlockV;

    open spec fn view(&self) -> CallBlockV {
        CallBlockV {
            assertion: match self.assertion {
                Option::None => None,
                Option::Some(a) => Some(a@),
            },
            input_idents: Seq::new(
                self.input_idents@.len(),
                |i: int|
                    if 0 <= i < self.input_idents@.len() {
                        self.input_idents@[i]@
                    } else {
                        arbitrary()
                    },
            ),
            converted_this: match self.converted_this {
                Option::None => None,
                Option::Some(t) => Some(t@),
            },
            persistence: self.persistence,
            output_ty: self.output_ty@,
            call: self.call@,
        }
    }
}

/// The exposed body of a dynamic dispatch call: a real call block, or the
/// explicit unimplemented stub for a trait method without a receiver.
#[derive(Debug, PartialEq, Eq)]
pub enum ExposedBlock {
    /// `unimplemented!("trait methods without self are not yet supported")`.
    Unimplemented,
    Call(CallBlock),
}

/// Mathematical model of the exposed body.
#[verifier::ext_equal]
pub enum ExposedBlockV {
    Unimplemented,
    Call { block: CallBlockV },
}

impl View for ExposedBlock {
    type V = ExposedBlockV;

    open spec fn view(&self) -> ExposedBlockV {
        match self {
            ExposedBlock::Unimplemented => ExposedBlockV::Unimplemented,
            ExposedBlock::Call(b) => ExposedBlockV::Call { block: b@ },
        }
    }
}

/// The exposed function's signature: receiver first, then the parameters in
/// declaration order, every type in its task-input form, and the output in
/// its effective handle form.
#[derive(Debug, PartialEq, Eq)]
pub struct ExposedSignature {
    pub ident: String,
    pub inputs: Vec<Input>,
    pub output: TypeExpr,
}

/// Mathematical model of the exposed signature.
#[verifier::ext_equal]
pub struct ExposedSignatureV {
    pub ident: Seq<char>,
    pub inputs: Seq<InputV>,
    pub output: TypeExprV,
}

impl View for ExposedSignature {
    type V = ExposedSignatureV;

    open spec fn view(&self) -> ExposedSignatureV {
        ExposedSignatureV {
            ident: self.ident@,
            inputs: Seq::new(
                self.inputs@.len(),
                |i: int|
                    if 0 <= i < self.inputs@.len() {
                        self.inputs@[i]@
                    } else {
                        arbitrary()
                    },
            ),
            output: self.output@,
        }
    }
}

/// The exposed signature as it appears in a trait declaration: the same
/// signature, rendered with a `Self: Sized` bound in its where-clause.
#[derive(Debug, PartialEq, Eq)]
pub struct TraitSignature {
    pub sig: ExposedSignature,
}

/// The receiver (if any) followed by the non-receiver parameters.
pub open spec fn spec_all_inputs(tf: TurboFnV) -> Seq<InputV> {
    (match tf.this {
        Option::None => Seq::<InputV>::empty(),
        Option::Some(t) => seq![t],
    }) + tf.inputs
}

/// The exposed signature of a plan: the original name over the normalized
/// parameter and output types.
pub open spec fn spec_signature(tf: TurboFnV) -> ExposedSignatureV {
    ExposedSignatureV {
        ident: tf.ident,
        inputs: spec_all_inputs(tf).map_values(
            |i: InputV| InputV { ident: i.ident, ty: spec_expand_input(i.ty) },
        ),
        output: spec_expand_output(tf.output).0,
    }
}

/// The persistence expression of a body that has no receiver available.
pub open spec fn spec_persistence(tf: TurboFnV) -> PersistenceExpr {
    if tf.local_cells {
        PersistenceExpr::LocalCells
    } else {
        PersistenceExpr::FromInputs
    }
}

/// The persistence expression of a body that converts the receiver.
pub open spec fn spec_persistence_with_this(tf: TurboFnV) -> PersistenceExpr {
    if tf.local_cells {
        PersistenceExpr::LocalCells
    } else {
        PersistenceExpr::FromInputsAndThis
    }
}

/// The optional resolved-value assertion of a plan.
pub open spec fn spec_assertion(tf: TurboFnV) -> Option<ResolvedAssertionV> {
    match tf.resolved {
        Option::None => None,
        Option::Some(span) => Some(ResolvedAssertionV { span, return_ty: tf.output }),
    }
}

/// The argument identifiers packed into the boxed tuple, in order.
pub open spec fn spec_input_idents(tf: TurboFnV) -> Seq<IdentNameV> {
    tf.inputs.map_values(|i: InputV| i.ident)
}

/// The dynamic dispatch body of a plan: a trait call keyed by the trait-type
/// identifier and the function's own name, or the unimplemented stub when the
/// plan has no receiver.
pub open spec fn spec_dynamic_block(tf: TurboFnV, trait_type_id: Seq<char>) -> ExposedBlockV {
    match tf.this {
        Option::None => ExposedBlockV::Unimplemented,
        Option::Some(this) => ExposedBlockV::Call {
            block: CallBlockV {
                assertion: spec_assertion(tf),
                input_idents: spec_input_idents(tf),
                converted_this: Some(this.ident),
                persistence: spec_persistence_with_this(tf),
                output_ty: tf.output,
                call: DispatchCallV::TraitCall {
                    trait_type_id: IdentNameV::User { name: trait_type_id },
                    method_name: IdentNameV::User { name: tf.ident },
                },
            },
        },
    }
}

/// The static dispatch body of a plan: a call by function id, with the
/// converted receiver when there is one.
pub open spec fn spec_static_block(tf: TurboFnV, native_function_id: Seq<char>) -> CallBlockV {
    match tf.this {
        Option::None => CallBlockV {
            assertion: spec_assertion(tf),
            input_idents: spec_input_idents(tf),
            converted_this: None,
            persistence: spec_persistence(tf),
            output_ty: tf.output,
            call: DispatchCallV::DynamicCall {
                native_function_id: IdentNameV::User { name: native_function_id },
            },
        },
        Option::Some(this) => CallBlockV {
            assertion: spec_assertion(tf),
            input_idents: spec_input_idents(tf),
            converted_this: Some(this.ident),
            persistence: spec_persistence_with_this(tf),
            output_ty: tf.output,
            call: DispatchCallV::DynamicThisCall {
                native_function_id: IdentNameV::User { name: native_function_id },
            },
        },
    }
}

/// Copies a generated identifier; the copy has the same model.
pub fn copy_ident_name(i: &IdentName) -> (r: IdentName)
    ensures
        r@ == i@,
{
    match i {
        IdentName::User(name) => IdentName::User(name.clone()),
        IdentName::Arg(index) => IdentName::Arg(*index),
        IdentName::InlineSuffix(base) => IdentName::InlineSuffix(base.clone()),
    }
}

impl TurboFn {
    /// The signature of the exposed function: the original signature with
    /// every parameter type in its task-input form and the return type in its
    /// effective handle form.
    ///
    /// When the return type never reaches the terminal handle shape, the
    /// return-type diagnostic is produced alongside, at the declared return
    /// type's span, and the best-effort type is used.
    #[verifier::loop_isolation(false)]
    pub fn signature(&self) -> (r: (ExposedSignature, Option<Diagnostic>))
        ensures
            r.0@ == spec_signature(self@),
            r.1 is None <==> spec_expand_output(self@.output).1,
            r.1 matches Some(d) ==> d.span == self@.output_span && d.message@
                == spec_return_type_message(),
    {
        let ghost all = spec_all_inputs(self@);
        let mut exposed_inputs: Vec<Input> = Vec::new();
        match &self.this {
            Option::Some(t) => {
                exposed_inputs.push(
                    Input { ident: copy_ident_name(&t.ident), ty: expand_task_input_type(&t.ty) },
                );
            },
            Option::None => {},
        }
        let ghost n_this = exposed_inputs@.len() as int;
        let mut i: usize = 0;
        proof {
            assert(all.len() == n_this + self@.inputs.len());
        }
        while i < self.inputs.len()
            invariant
                i <= self@.inputs.len(),
                exposed_inputs@.len() == n_this + i as int,
                forall|k: int|
                    0 <= k < exposed_inputs@.len() ==> #[trigger] exposed_inputs@[k]@ == (InputV {
                        ident: all[k].ident,
                        ty: spec_expand_input(all[k].ty),
                    }),
            decreases self@.inputs.len() - i,
        {
            let input = &self.inputs[i];
            exposed_inputs.push(
                Input {
                    ident: copy_ident_name(&input.ident),
                    ty: expand_task_input_type(&input.ty),
                },
            );
            proof {
                assert(self@.inputs[i as int] == self.inputs@[i as int]@);
                assert(all[n_this + i as int] == self@.inputs[i as int]);
            }
            i = i + 1;
        }
        let (new_output, found) = expand_vc_return_type(&self.output);
        let diag = if found {
            None
        } else {
            Some(Diagnostic::return_type_shape(self.output_span))
        };
        let ident: String = self.ident.clone();
        let r = ExposedSignature { ident, inputs: exposed_inputs, output: new_output };
        proof {
            assert(r@.inputs =~= spec_signature(self@).inputs);
            assert(r@ =~~= spec_signature(self@));
        }
        (r, diag)
    }

    /// The exposed signature as it appears in a trait declaration, with its
    /// implicit `Self: Sized` bound; the return-type diagnostic comes along
    /// exactly as for `signature`.
    pub fn trait_signature(&self) -> (r: (TraitSignature, Option<Diagnostic>))
        ensures
            r.0.sig@ == spec_signature(self@),
            r.1 is None <==> spec_expand_output(self@.output).1,
            r.1 matches Some(d) ==> d.span == self@.output_span && d.message@
                == spec_return_type_message(),
    {
        let (sig, diag) = self.signature();
        (TraitSignature { sig }, diag)
    }

    /// The inline function's signature.
    pub fn inline_signature(&self) -> (r: &InlineSignature)
        ensures
            r@ == self@.inline_signature,
    {
        &self.inline_signature
    }

    /// The inline function's name.
    pub fn inline_ident(&self) -> (r: &IdentName)
        ensures
            r@ == self@.inline_ident,
    {
        &self.inline_ident
    }

    /// The inline function's body.
    pub fn inline_block(&self) -> (r: &InlineBlock)
        ensures
            r@ == self@.inline_block,
    {
        &self.inline_block
    }

    /// The declared types of the non-receiver parameters, in order.
    pub fn input_types(&self) -> (r: Vec<&TypeExpr>)
        ensures
            r@.len() == self@.inputs.len(),
            forall|k: int| 0 <= k < r@.len() ==> #[trigger] r@[k]@ == self@.inputs[k].ty,
    {
        let mut out: Vec<&TypeExpr> = Vec::new();
        let mut i: usize = 0;
        while i < self.inputs.len()
            invariant
                i <= self@.inputs.len(),
                out@.len() == i as int,
                forall|k: int| 0 <= k < i as int ==> #[trigger] out@[k]@ == self@.inputs[k].ty,
            decreases self@.inputs.len() - i,
        {
            out.push(&self.inputs[i].ty);
            i = i + 1;
        }
        out
    }

    /// The persistence expression used when no receiver is available.
    pub fn persistence(&self) -> (r: PersistenceExpr)
        ensures
            r == spec_persistence(self@),
    {
        if self.local_cells {
            PersistenceExpr::LocalCells
        } else {
            PersistenceExpr::FromInputs
        }
    }

    /// The persistence expression used when the receiver is converted.
    pub fn persistence_with_this(&self) -> (r: PersistenceExpr)
        ensures
            r == spec_persistence_with_this(self@),
    {
        if self.local_cells {
            PersistenceExpr::LocalCells
        } else {
            PersistenceExpr::FromInputsAndThis
        }
    }

    /// The receiver identifier the dispatch bodies convert to a raw handle,
    /// when the plan has a receiver.
    fn converted_this(&self) -> (r: Option<IdentName>)
        ensures
            (match r {
                Option::None => self@.this is None,
                Option::Some(id) => self@.this matches Some(t) && id@ == t.ident,
            }),
    {
        match &self.this {
            Option::None => None,
            Option::Some(t) => Some(copy_ident_name(&t.ident)),
        }
    }

    /// The optional resolved-value assertion prefixed to both dispatch
    /// bodies.
    fn get_assertions(&self) -> (r: Option<ResolvedAssertion>)
        ensures
            (match r {
                Option::None => spec_assertion(self@) is None,
                Option::Some(a) => spec_assertion(self@) matches Some(av) && a@ == av,
            }),
    {
        match self.resolved {
            Option::None => None,
            Option::Some(span) => Some(
                ResolvedAssertion { span, return_ty: copy_type(&self.output) },
            ),
        }
    }

    /// The argument identifiers packed into the boxed argument tuple.
    fn input_idents(&self) -> (r: Vec<IdentName>)
        ensures
            Seq::new(
                r@.len(),
                |i: int|
                    if 0 <= i < r@.len() {
                        r@[i]@
                    } else {
                        arbitrary()
                    },
            ) =~= spec_input_idents(self@),
    {
        let mut out: Vec<IdentName> = Vec::new();
        let mut i: usize = 0;
        while i < self.inputs.len()
            invariant
                i <= self@.inputs.len(),
                out@.len() == i as int,
                forall|k: int| 0 <= k < i as int ==> #[trigger] out@[k]@ == self@.inputs[k].ident,
            decreases self@.inputs.len() - i,
        {
            out.push(copy_ident_name(&self.inputs[i].ident));
            i = i + 1;
        }
        out
    }

    /// The exposed body for a dynamic dispatch call through the given trait:
    /// a trait call keyed by the trait-type identifier and the function's
    /// textual name. A trait method without a receiver gets the explicit
    /// unimplemented stub, never a call expression.
    pub fn dynamic_block(&self, trait_type_id_ident: &String) -> (r: ExposedBlock)
        ensures
            r@ == spec_dynamic_block(self@, trait_type_id_ident@),
            r@ is Unimplemented <==> self@.this is None,
    {
        let converted_this = match self.converted_this() {
            Option::None => {
                proof {
                    assert(ExposedBlockV::Unimplemented =~~= spec_dynamic_block(
                        self@,
                        trait_type_id_ident@,
                    ));
                }
                return ExposedBlock::Unimplemented;
            },
            Option::Some(t) => t,
        };
        let assertion = self.get_assertions();
        let input_idents = self.input_idents();
        let persistence = self.persistence_with_this();
        let b = CallBlock {
            assertion,
            input_idents,
            converted_this: Some(converted_this),
            persistence,
            output_ty: copy_type(&self.output),
            call: DispatchCall::TraitCall {
                trait_type_id: IdentName::User(trait_type_id_ident.clone()),
                method_name: IdentName::User(self.ident.clone()),
            },
        };
        let r = ExposedBlock::Call(b);
        proof {
            assert(r@->Call_block.input_idents =~= spec_dynamic_block(
                self@,
                trait_type_id_ident@,
            )->Call_block.input_idents);
            assert(r@ =~~= spec_dynamic_block(self@, trait_type_id_ident@));
        }
        r
    }

    /// The exposed body for a static dispatch call to the given native
    /// function: a call by function id, with the converted receiver when the
    /// plan has one.
    pub fn static_block(&self, native_function_id_ident: &String) -> (r: CallBlock)
        ensures
            r@ == spec_static_block(self@, native_function_id_ident@),
    {
        let assertion = self.get_assertions();
        let input_idents = self.input_idents();
        let r = match self.converted_this() {
            Option::Some(t) => CallBlock {
                assertion,
                input_idents,
                converted_this: Some(t),
                persistence: self.persistence_with_this(),
                output_ty: copy_type(&self.output),
                call: DispatchCall::DynamicThisCall {
                    native_function_id: IdentName::User(native_function_id_ident.clone()),
                },
            },
            Option::None => CallBlock {
                assertion,
                input_idents,
                converted_this: None,
                persistence: self.persistence(),
                output_ty: copy_type(&self.output),
                call: DispatchCall::DynamicCall {
                    native_function_id: IdentName::User(native_function_id_ident.clone()),
                },
            },
        };
        proof {
            assert(r@.input_idents =~= spec_static_block(
                self@,
                native_function_id_ident@,
            ).input_idents);
            assert(r@ =~~= spec_static_block(self@, native_function_id_ident@));
        }
        r
    }

    /// Whether the plan has a receiver.
    pub fn is_method(&self) -> (r: bool)
        ensures
            r == (self@.this is Some),
    {
        self.this.is_some()
    }
}

} // verus!
