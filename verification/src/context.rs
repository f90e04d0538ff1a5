//! The kind of declaration a task function is being defined in.

use vstd::prelude::*;

verus! {

/// The context in which the annotated function is being defined.
#[derive(Debug, Clone, Copy, PartialEq, Eq, Structural)]
pub enum DefinitionContext {
    /// The function is defined as a naked `#[turbo_tasks::function]`.
    NakedFn,
    /// The function is a `#[turbo_tasks::value_impl]` inherent implementation
    /// method.
    ValueInherentImpl,
    /// The function is a `#[turbo_tasks::value_impl]` trait implementation
    /// method.
    ValueTraitImpl,
    /// The function is a `#[turbo_tasks::value_trait]` default method.
    ValueTrait,
}

/// The phrase diagnostics use to name declarations of this context.
pub open spec fn spec_function_type(ctx: DefinitionContext) -> Seq<char> {
    match ctx {
        DefinitionContext::NakedFn => "#[turbo_tasks::function] naked functions"@,
        DefinitionContext::ValueInherentImpl => "#[turbo_tasks::value_impl] inherent methods"@,
        DefinitionContext::ValueTraitImpl => "#[turbo_tasks::value_impl] trait methods"@,
        DefinitionContext::ValueTrait => "#[turbo_tasks::value_trait] methods"@,
    }
}

impl DefinitionContext {
    /// The phrase diagnostics use to name declarations of this context.
    pub fn function_type(&self) -> (r: &'static str)
        ensures
            r@ == spec_function_type(*self),
    {
        match self {
            DefinitionContext::NakedFn => "#[turbo_tasks::function] naked functions",
            DefinitionContext::ValueInherentImpl => "#[turbo_tasks::value_impl] inherent methods",
            DefinitionContext::ValueTraitImpl => "#[turbo_tasks::value_impl] trait methods",
            DefinitionContext::ValueTrait => "#[turbo_tasks::value_trait] methods",
        }
    }
}

} // verus!
