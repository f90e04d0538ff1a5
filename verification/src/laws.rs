//! Laws of the analyzer and the generator, stated over the same spec
//! functions their contracts use.

use vstd::prelude::*;

use crate::context::DefinitionContext;
use crate::diag::DiagKind;
use crate::diag::spec_context_message;
use crate::expand::MatchState;
use crate::expand::PathShape;
use crate::expand::lemma_known_names;
use crate::expand::lemma_step_vc_dead;
use crate::expand::seg_names;
use crate::expand::spec_classify;
use crate::expand::spec_expand_input;
use crate::expand::spec_run_states;
use crate::gen::spec_all_inputs;
use crate::gen::spec_signature;
use crate::options::FunctionArguments;
use crate::sig::FnArgModelV;
use crate::sig::PatModelV;
use crate::sig::SigModelV;
use crate::ast::SynToken;
use crate::turbo_fn::IdentNameV;
use crate::turbo_fn::InputV;
use crate::turbo_fn::RejectionV;
use crate::turbo_fn::TurboFnV;
use crate::turbo_fn::spec_analyze;
use crate::turbo_fn::spec_inline_bindings_upto;
use crate::turbo_fn::spec_vc_self;

verus! {

/// The canonical handle-to-Self type is already in task-input form: input
/// normalization leaves it unchanged.
pub proof fn lemma_expand_vc_self()
    ensures
        spec_expand_input(spec_vc_self()) == spec_vc_self(),
{
    lemma_known_names();
    reveal_with_fuel(spec_run_states, 3);
    let segs = spec_vc_self()->Path_segments;
    let names = seg_names(segs);
    assert(names.len() == 2);
    assert(names.drop_last().drop_last() =~= Seq::<Seq<char>>::empty());
    assert(names.drop_last().last() == "turbo_tasks"@);
    assert(names.last() == "Vc"@);
    lemma_step_vc_dead(false, MatchState::StTurboMod);
    assert(spec_run_states(false, names) == MatchState::StDead);
    assert(spec_classify(false, segs) == PathShape::Unrecognized);
}

/// No binding of the inline body converts the first parameter when that
/// parameter is a receiver: every binding's index is at least one.
proof fn lemma_bindings_skip_receiver(inputs: Seq<FnArgModelV>, i: int)
    requires
        0 < inputs.len(),
        inputs.len() <= u64::MAX,
        inputs[0] is Receiver,
        i <= inputs.len(),
    ensures
        forall|k: int|
            0 <= k < spec_inline_bindings_upto(inputs, i).len()
                ==> #[trigger] spec_inline_bindings_upto(inputs, i)[k].index >= 1,
    decreases i,
{
    if i > 0 {
        lemma_bindings_skip_receiver(inputs, i - 1);
        let rest = spec_inline_bindings_upto(inputs, i - 1);
        let cur = spec_inline_bindings_upto(inputs, i);
        match inputs[i - 1] {
            FnArgModelV::Receiver { .. } => {
                assert(cur == rest);
            },
            FnArgModelV::Typed { pat, ty, .. } => {
                if pat matches PatModelV::Ident { name, .. } && name == "self"@ {
                    assert(cur == rest);
                } else {
                    assert(i - 1 >= 1);
                    assert(cur == rest.push(
                        crate::turbo_fn::InlineBindingV { pat, ty, index: (i - 1) as u64 },
                    ));
                    assert(cur[cur.len() - 1].index == (i - 1) as u64);
                    assert(forall|k: int| 0 <= k < rest.len() ==> cur[k] == rest[k]);
                }
            },
        }
    }
}

/// Every accepted declaration whose first parameter is a plain `&self`
/// receiver gets the canonical handle-to-Self receiver: the plan's receiver
/// is `self` at that type; the exposed signature's first parameter is exactly
/// that type; the inline signature keeps the receiver as declared; and the
/// inline body never converts the receiver (every binding rebinds a later
/// parameter).
pub proof fn lemma_ref_receiver_canonical(
    sig: SigModelV,
    ctx: DefinitionContext,
    args: FunctionArguments,
    body: SynToken,
)
    requires
        spec_analyze(sig, ctx, args, body) is Ok,
        sig.inputs.len() > 0,
        sig.inputs.len() <= u64::MAX,
        sig.inputs[0] is Receiver,
    ensures
        ({
            let tf = spec_analyze(sig, ctx, args, body)->Ok_0;
            &&& tf.this == Some(
                InputV { ident: IdentNameV::User { name: "self"@ }, ty: spec_vc_self() },
            )
            &&& spec_signature(tf).inputs.len() > 0
            &&& spec_signature(tf).inputs[0] == (InputV {
                ident: IdentNameV::User { name: "self"@ },
                ty: spec_vc_self(),
            })
            &&& tf.inline_signature.inputs[0] is Kept
            &&& forall|k: int|
                0 <= k < tf.inline_block.bindings.len()
                    ==> #[trigger] tf.inline_block.bindings[k].index >= 1
        }),
{
    let tf = spec_analyze(sig, ctx, args, body)->Ok_0;
    lemma_expand_vc_self();
    assert(spec_all_inputs(tf)[0] == tf.this->Some_0);
    lemma_bindings_skip_receiver(sig.inputs, sig.inputs.len() as int);
}

/// A declaration without a receiver in a free-function or inherent-method
/// context yields a plan without one: no receiver input is produced.
pub proof fn lemma_no_receiver_accepted(
    sig: SigModelV,
    ctx: DefinitionContext,
    args: FunctionArguments,
    body: SynToken,
)
    requires
        spec_analyze(sig, ctx, args, body) is Ok,
        ctx == DefinitionContext::NakedFn || ctx == DefinitionContext::ValueInherentImpl,
        sig.inputs.len() == 0 || !(sig.inputs[0] is Receiver),
        sig.inputs.len() == 0 || !(sig.inputs[0] matches FnArgModelV::Typed {
            pat: PatModelV::Ident { name, .. },
            ..
        } && name == "self"@),
    ensures
        spec_analyze(sig, ctx, args, body)->Ok_0.this is None,
{
}

/// The same omission in a trait-implementation or trait-default context is
/// always rejected, whatever else the declaration looks like, with the
/// must-accept-a-receiver diagnostic at the offending parameter — provided
/// the declaration got past the generics and where-clause checks and the
/// first parameter is an ordinary named, attribute-free parameter.
pub proof fn lemma_trait_method_needs_receiver(
    sig: SigModelV,
    ctx: DefinitionContext,
    args: FunctionArguments,
    body: SynToken,
)
    requires
        !sig.has_generics,
        !sig.has_where_clause,
        ctx == DefinitionContext::ValueTraitImpl || ctx == DefinitionContext::ValueTrait,
        sig.inputs.len() > 0,
        sig.inputs[0] matches FnArgModelV::Typed { has_attrs, pat, .. } && !has_attrs && (
        pat matches PatModelV::Ident { name, .. } && name != "self"@),
    ensures
        spec_analyze(sig, ctx, args, body) == Err::<TurboFnV, RejectionV>(
            RejectionV::Report {
                span: sig.inputs[0]->Typed_span,
                message: spec_context_message(DiagKind::MissingReceiver, ctx),
            },
        ),
{
}

/// A declaration with generic parameters is always rejected, regardless of
/// everything else, with the no-generics diagnostic at the generics' span.
pub proof fn lemma_generics_always_rejected(
    sig: SigModelV,
    ctx: DefinitionContext,
    args: FunctionArguments,
    body: SynToken,
)
    requires
        sig.has_generics,
    ensures
        spec_analyze(sig, ctx, args, body) == Err::<TurboFnV, RejectionV>(
            RejectionV::Report {
                span: sig.generics_span,
                message: spec_context_message(DiagKind::GenericParams, ctx),
            },
        ),
{
}

} // verus!
