use crate::context::{EvaluationContext, StructValue};
use crate::details::ResolutionDetails;
use crate::error::EvaluationError;
use vstd::prelude::*;

verus! {

/// A backing implementation that resolves typed flag values.
///
/// An implementation returns `Err` with `TypeMismatch` when the stored value
/// cannot be represented in the requested type, `FlagNotFound` when the key is
/// absent, `ProviderNotReady` before it has finished initializing, and
/// `InvalidContext` or `TargetingKeyMissing` when the context falls short of
/// its requirements. Any other failure is reported as `General`.
pub trait FeatureProvider {
    /// Resolve a boolean flag.
    fn resolve_bool(
        &self,
        flag_key: String,
        default_value: bool,
        context: EvaluationContext,
    ) -> Result<ResolutionDetails<bool>, EvaluationError>;

    /// Resolve an integer flag.
    fn resolve_int(
        &self,
        flag_key: String,
        default_value: i64,
        context: EvaluationContext,
    ) -> Result<ResolutionDetails<i64>, EvaluationError>;

    /// Resolve a string flag.
    fn resolve_string(
        &self,
        flag_key: String,
        default_value: String,
        context: EvaluationContext,
    ) -> Result<ResolutionDetails<String>, EvaluationError>;

    /// Resolve a structured flag.
    fn resolve_struct(
        &self,
        flag_key: String,
        default_value: StructValue,
        context: EvaluationContext,
    ) -> Result<ResolutionDetails<StructValue>, EvaluationError>;
}

/// A type that a flag can resolve to; it selects the provider's matching
/// resolution method.
pub trait FlagValue: Sized + Clone {
    /// Ask `provider` for this type's resolution of `flag_key`.
    fn resolve_with<P: FeatureProvider>(
        provider: &P,
        flag_key: String,
        default_value: Self,
        context: EvaluationContext,
    ) -> Result<ResolutionDetails<Self>, EvaluationError>;
}

impl FlagValue for bool {
    fn resolve_with<P: FeatureProvider>(
        provider: &P,
        flag_key: String,
        default_value: bool,
        context: EvaluationContext,
    ) -> Result<ResolutionDetails<bool>, EvaluationError> {
        provider.resolve_bool(flag_key, default_value, context)
    }
}

impl FlagValue for i64 {
    fn resolve_with<P: FeatureProvider>(
        provider: &P,
        flag_key: String,
        default_value: i64,
        context: EvaluationContext,
    ) -> Result<ResolutionDetails<i64>, EvaluationError> {
        provider.resolve_int(flag_key, default_value, context)
    }
}

impl FlagValue for String {
    fn resolve_with<P: FeatureProvider>(
        provider: &P,
        flag_key: String,
        default_value: String,
        context: EvaluationContext,
    ) -> Result<ResolutionDetails<String>, EvaluationError> {
        provider.resolve_string(flag_key, default_value, context)
    }
}

impl FlagValue for StructValue {
    fn resolve_with<P: FeatureProvider>(
        provider: &P,
        flag_key: String,
        default_value: StructValue,
        context: EvaluationContext,
    ) -> Result<ResolutionDetails<StructValue>, EvaluationError> {
        provider.resolve_struct(flag_key, default_value, context)
    }
}

} // verus!
