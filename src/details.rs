use crate::error::EvaluationError;
use crate::error::EvaluationErrorCode;
use vstd::prelude::*;

verus! {

/// What a provider resolved for a flag: the value and optional metadata.
#[derive(PartialEq, Debug)]
pub struct ResolutionDetails<T> {
    /// The resolved value.
    pub value: T,
    /// The variant of the flag that was selected, if the provider names one.
    pub variant: Option<String>,
    /// Why the value was resolved as it was, if the provider says.
    pub reason: Option<String>,
}

impl<T> ResolutionDetails<T> {
    /// A resolution of `value` without variant or reason.
    pub fn new(value: T) -> (r: ResolutionDetails<T>)
        ensures
            r.value == value,
            r.variant is None,
            r.reason is None,
    {
        ResolutionDetails { value, variant: None, reason: None }
    }
}

/// The result of evaluating a flag, as handed to the caller.
#[derive(PartialEq, Debug)]
pub struct EvaluationDetails<T> {
    /// The resolved value, or the caller's default when resolution failed.
    pub value: T,
    /// The key of the evaluated flag.
    pub flag_key: String,
    /// The variant the provider selected, if any.
    pub variant: Option<String>,
    /// Why the value was resolved as it was, if known.
    pub reason: Option<String>,
    /// The error code, present exactly when resolution failed.
    pub error_code: Option<EvaluationErrorCode>,
    /// The error message that came with a failed resolution.
    pub error_message: Option<String>,
}

/// The details and the outcome that an evaluation of `flag_key` with
/// `default_value` yields when the provider's answer is `resolution`.
pub open spec fn evaluation_outcome<T>(
    flag_key: String,
    default_value: T,
    resolution: Result<ResolutionDetails<T>, EvaluationError>,
) -> (EvaluationDetails<T>, Result<(), EvaluationError>) {
    match resolution {
        Ok(d) => (
            EvaluationDetails {
                value: d.value,
                flag_key,
                variant: d.variant,
                reason: d.reason,
                error_code: None,
                error_message: None,
            },
            Ok(()),
        ),
        Err(e) => (
            EvaluationDetails {
                value: default_value,
                flag_key,
                variant: None,
                reason: None,
                error_code: Some(e.code),
                error_message: e.message,
            },
            Err(e),
        ),
    }
}

/// Package a provider's answer for `flag_key`: a resolved value with its
/// metadata, or the caller's default with the error's code and message.
/// The outcome reports the error, if any, beside the details.
pub fn details_from_resolution<T>(
    flag_key: String,
    default_value: T,
    resolution: Result<ResolutionDetails<T>, EvaluationError>,
) -> (r: (EvaluationDetails<T>, Result<(), EvaluationError>))
    ensures
        r == evaluation_outcome(flag_key, default_value, resolution),
        r.0.error_code is Some <==> r.1 is Err,
        r.0.error_code is Some ==> r.0.value == default_value,
{
    match resolution {
        Ok(d) => (
            EvaluationDetails {
                value: d.value,
                flag_key,
                variant: d.variant,
                reason: d.reason,
                error_code: None,
                error_message: None,
            },
            Ok(()),
        ),
        Err(e) => {
            let code = e.code.clone();
            let message = e.message.clone();
            (
                EvaluationDetails {
                    value: default_value,
                    flag_key,
                    variant: None,
                    reason: None,
                    error_code: Some(code),
                    error_message: message,
                },
                Err(e),
            )
        },
    }
}

/// A failed resolution always hands back the caller's default value, with
/// the error's code and message; a successful one carries no error.
pub proof fn lemma_failure_keeps_default<T>(
    flag_key: String,
    default_value: T,
    resolution: Result<ResolutionDetails<T>, EvaluationError>,
)
    ensures
        evaluation_outcome(flag_key, default_value, resolution).0.error_code is Some
            ==> evaluation_outcome(flag_key, default_value, resolution).0.value == default_value,
        resolution is Err <==> evaluation_outcome(flag_key, default_value, resolution).0.error_code is Some,
        resolution is Err ==> evaluation_outcome(flag_key, default_value, resolution).0.error_message
            == resolution->Err_0.message,
{
}

/// Evaluation is deterministic: the same flag, default and provider answer
/// give equal details and outcomes, whichever of two evaluations produced them.
pub proof fn lemma_evaluation_deterministic<T>(
    flag_key: String,
    default_value: T,
    first: Result<ResolutionDetails<T>, EvaluationError>,
    second: Result<ResolutionDetails<T>, EvaluationError>,
)
    requires
        first == second,
    ensures
        evaluation_outcome(flag_key, default_value, first) == evaluation_outcome(
            flag_key,
            default_value,
            second,
        ),
{
}

} // verus!
