use crate::context::{same_context, EvaluationContext};
use crate::details::{details_from_resolution, evaluation_outcome, EvaluationDetails, ResolutionDetails};
use crate::error::EvaluationError;
use crate::provider::{FeatureProvider, FlagValue};
use vstd::prelude::*;

verus! {

/// Identifies a client instance for diagnostics.
#[derive(PartialEq, Debug)]
pub struct ClientMetaData {
    pub name: String,
}

/// The outcome of `value_details`: `Ok(true)` when the provider resolved
/// the flag, else the error it gave.
pub open spec fn resolution_reported(outcome: Result<(), EvaluationError>) -> Result<
    bool,
    EvaluationError,
> {
    match outcome {
        Ok(()) => Ok(true),
        Err(e) => Err(e),
    }
}

/// The client surface: it holds a provider and a default context, and
/// evaluates flags so that the caller always receives a usable value.
pub trait ClientTraits<C: FeatureProvider>: Sized {
    /// The client's name.
    spec fn name_spec(&self) -> Seq<char>;

    /// The context held by the client, merged under every evaluation's own.
    spec fn context_spec(&self) -> EvaluationContext;

    /// A client named `name` over `provider`, with an empty context.
    fn new(name: String, provider: C) -> (r: Self)
        ensures
            r.name_spec() == name@,
            r.context_spec().targeting_key_spec() is None,
            r.context_spec().attributes_spec() == Map::<Seq<char>, crate::context::Value>::empty(),
    ;

    /// The client's metadata.
    fn meta_data(&self) -> (r: ClientMetaData)
        ensures
            r.name@ == self.name_spec(),
    ;

    /// Replace the context held by the client.
    fn set_evaluation_context(&mut self, eval_ctx: EvaluationContext)
        ensures
            final(self).context_spec() == eval_ctx,
            final(self).name_spec() == old(self).name_spec(),
    ;

    /// The context held by the client.
    fn evaluation_context(&self) -> (r: EvaluationContext)
        ensures
            same_context(self.context_spec(), r),
    ;

    /// Evaluate `flag` under `eval_ctx` merged over the client's context.
    /// The details carry the resolved value, or `default_value` with the
    /// error's code and message; the outcome reports the error beside them.
    fn evaluate<T: FlagValue>(
        &self,
        flag: String,
        default_value: T,
        eval_ctx: EvaluationContext,
    ) -> (r: (EvaluationDetails<T>, Result<(), EvaluationError>))
        ensures
            exists|res: Result<ResolutionDetails<T>, EvaluationError>|
                r == #[trigger] evaluation_outcome(flag, default_value, res),
            r.0.flag_key == flag,
            r.0.error_code is Some <==> r.1 is Err,
            r.0.error_code is Some ==> r.0.value == default_value,
    ;

    /// Evaluate `flag` and keep only the value, with the outcome.
    fn value<T: FlagValue>(&self, flag: String, default_value: T, eval_ctx: EvaluationContext) -> (r:
        (T, Result<(), EvaluationError>))
        ensures
            exists|res: Result<ResolutionDetails<T>, EvaluationError>|
                r.0 == (#[trigger] evaluation_outcome(flag, default_value, res)).0.value && r.1
                    == evaluation_outcome(flag, default_value, res).1,
            r.1 is Err ==> r.0 == default_value,
    ;

    /// Evaluate `flag`; the outcome says whether the provider resolved it.
    fn value_details<T: FlagValue>(
        &self,
        flag: String,
        default_value: T,
        eval_ctx: EvaluationContext,
    ) -> (r: (EvaluationDetails<T>, Result<bool, EvaluationError>))
        ensures
            exists|res: Result<ResolutionDetails<T>, EvaluationError>|
                r.0 == (#[trigger] evaluation_outcome(flag, default_value, res)).0 && r.1
                    == resolution_reported(evaluation_outcome(flag, default_value, res).1),
            r.0.flag_key == flag,
            r.1 is Ok ==> r.1 == Ok::<bool, EvaluationError>(true),
            r.0.error_code is Some <==> r.1 is Err,
            r.0.error_code is Some ==> r.0.value == default_value,
    ;
}

/// A client bound to a provider of type `C`.
pub struct Client<C: FeatureProvider> {
    name: String,
    provider: C,
    evaluation_context: EvaluationContext,
}

impl<C: FeatureProvider> ClientTraits<C> for Client<C> {
    closed spec fn name_spec(&self) -> Seq<char> {
        self.name@
    }

    closed spec fn context_spec(&self) -> EvaluationContext {
        self.evaluation_context
    }

    fn new(name: String, provider: C) -> (r: Self) {
        Client { name, provider, evaluation_context: EvaluationContext::new() }
    }

    fn meta_data(&self) -> (r: ClientMetaData) {
        ClientMetaData { name: self.name.clone() }
    }

    fn set_evaluation_context(&mut self, eval_ctx: EvaluationContext) {
        self.evaluation_context = eval_ctx;
    }

    fn evaluation_context(&self) -> (r: EvaluationContext) {
        self.evaluation_context.clone()
    }

    fn evaluate<T: FlagValue>(
        &self,
        flag: String,
        default_value: T,
        eval_ctx: EvaluationContext,
    ) -> (r: (EvaluationDetails<T>, Result<(), EvaluationError>)) {
        let merged = EvaluationContext::merge(self.evaluation_context.clone(), eval_ctx);
        let res = T::resolve_with(&self.provider, flag.clone(), default_value.clone(), merged);
        let ghost g = res;
        let r = details_from_resolution(flag, default_value, res);
        assert(r == evaluation_outcome(flag, default_value, g));
        r
    }

    fn value<T: FlagValue>(&self, flag: String, default_value: T, eval_ctx: EvaluationContext) -> (r:
        (T, Result<(), EvaluationError>)) {
        let (details, outcome) = self.evaluate(flag, default_value, eval_ctx);
        (details.value, outcome)
    }

    fn value_details<T: FlagValue>(
        &self,
        flag: String,
        default_value: T,
        eval_ctx: EvaluationContext,
    ) -> (r: (EvaluationDetails<T>, Result<bool, EvaluationError>)) {
        let (details, outcome) = self.evaluate(flag, default_value, eval_ctx);
        let reported = match outcome {
            Ok(()) => Ok(true),
            Err(e) => Err(e),
        };
        (details, reported)
    }
}

} // verus!
