use open_feature::{
    details_from_resolution, Client, ClientTraits, EvaluationContext, EvaluationDetails,
    EvaluationError, EvaluationErrorCode, FeatureProvider, ResolutionDetails, StructValue, Value,
};

/// A provider that never finishes initializing.
struct NotReadyProvider;

impl FeatureProvider for NotReadyProvider {
    fn resolve_bool(&self, _: String, _: bool, _: EvaluationContext) -> Result<ResolutionDetails<bool>, EvaluationError> {
        Err(EvaluationError::new(EvaluationErrorCode::ProviderNotReady))
    }
    fn resolve_int(&self, _: String, _: i64, _: EvaluationContext) -> Result<ResolutionDetails<i64>, EvaluationError> {
        Err(EvaluationError::new(EvaluationErrorCode::ProviderNotReady))
    }
    fn resolve_string(&self, _: String, _: String, _: EvaluationContext) -> Result<ResolutionDetails<String>, EvaluationError> {
        Err(EvaluationError::new(EvaluationErrorCode::ProviderNotReady))
    }
    fn resolve_struct(&self, _: String, _: StructValue, _: EvaluationContext) -> Result<ResolutionDetails<StructValue>, EvaluationError> {
        Err(EvaluationError::new(EvaluationErrorCode::ProviderNotReady))
    }
}

/// A provider that knows the flags "enabled" (bool true), "limit" (int 10)
/// and "greeting" (a string that names the region of the context).
struct FixedProvider;

fn not_found() -> EvaluationError {
    EvaluationError::new(EvaluationErrorCode::FlagNotFound)
}

impl FeatureProvider for FixedProvider {
    fn resolve_bool(&self, flag: String, _: bool, _: EvaluationContext) -> Result<ResolutionDetails<bool>, EvaluationError> {
        if flag == "enabled" {
            Ok(ResolutionDetails { value: true, variant: Some("on".to_string()), reason: Some("STATIC".to_string()) })
        } else if flag == "limit" {
            Err(EvaluationError::new(EvaluationErrorCode::TypeMismatch))
        } else {
            Err(not_found())
        }
    }
    fn resolve_int(&self, flag: String, _: i64, _: EvaluationContext) -> Result<ResolutionDetails<i64>, EvaluationError> {
        if flag == "limit" { Ok(ResolutionDetails::new(10)) } else { Err(not_found()) }
    }
    fn resolve_string(&self, flag: String, _: String, ctx: EvaluationContext) -> Result<ResolutionDetails<String>, EvaluationError> {
        if flag != "greeting" {
            return Err(not_found());
        }
        match ctx.custom_field(&"region".to_string()) {
            Some(Value::String(r)) => Ok(ResolutionDetails::new(format!("hello {}", r))),
            _ => Err(EvaluationError::new_with_message(
                EvaluationErrorCode::InvalidContext,
                Some("region required".to_string()),
            )),
        }
    }
    fn resolve_struct(&self, _: String, _: StructValue, _: EvaluationContext) -> Result<ResolutionDetails<StructValue>, EvaluationError> {
        Err(EvaluationError::new(EvaluationErrorCode::General("no structured flags".to_string())))
    }
}

fn region(r: &str) -> EvaluationContext {
    EvaluationContext::new().with_custom_field("region".to_string(), Value::String(r.to_string()))
}

#[test]
fn not_ready_provider_falls_back_to_default() {
    let client = Client::new("app".to_string(), NotReadyProvider);
    let (details, outcome) = client.evaluate("my-flag".to_string(), false, EvaluationContext::default());
    assert_eq!(details.value, false);
    assert_eq!(details.flag_key, "my-flag".to_string());
    assert_eq!(details.error_code, Some(EvaluationErrorCode::ProviderNotReady));
    assert_eq!(
        details.error_message,
        Some("The value was resolved before the provider was initialized.".to_string())
    );
    assert_eq!(outcome, Err(EvaluationError::new(EvaluationErrorCode::ProviderNotReady)));
}

#[test]
fn unknown_flag_returns_default_forty_two() {
    let client = Client::new("app".to_string(), FixedProvider);
    let (details, outcome) = client.evaluate("missing".to_string(), 42i64, EvaluationContext::default());
    assert_eq!(details.error_code, Some(EvaluationErrorCode::FlagNotFound));
    assert_eq!(details.value, 42);
    assert!(outcome.is_err());
}

#[test]
fn resolved_flag_carries_metadata() {
    let client = Client::new("app".to_string(), FixedProvider);
    let (details, outcome) = client.evaluate("enabled".to_string(), false, EvaluationContext::new());
    assert_eq!(
        details,
        EvaluationDetails {
            value: true,
            flag_key: "enabled".to_string(),
            variant: Some("on".to_string()),
            reason: Some("STATIC".to_string()),
            error_code: None,
            error_message: None,
        }
    );
    assert_eq!(outcome, Ok(()));
}

#[test]
fn type_mismatch_keeps_default() {
    let client = Client::new("app".to_string(), FixedProvider);
    let (details, _) = client.evaluate("limit".to_string(), true, EvaluationContext::new());
    assert_eq!(details.value, true);
    assert_eq!(details.error_code, Some(EvaluationErrorCode::TypeMismatch));
}

#[test]
fn invocation_context_overrides_client_context() {
    let mut client = Client::new("app".to_string(), FixedProvider);
    client.set_evaluation_context(region("us"));
    let (details, _) = client.evaluate("greeting".to_string(), "hi".to_string(), region("eu"));
    assert_eq!(details.value, "hello eu".to_string());
    let (details, _) = client.evaluate("greeting".to_string(), "hi".to_string(), EvaluationContext::new());
    assert_eq!(details.value, "hello us".to_string());
}

#[test]
fn missing_context_attribute_reports_invalid_context() {
    let client = Client::new("app".to_string(), FixedProvider);
    let (details, outcome) = client.evaluate("greeting".to_string(), "hi".to_string(), EvaluationContext::new());
    assert_eq!(details.value, "hi".to_string());
    assert_eq!(details.error_code, Some(EvaluationErrorCode::InvalidContext));
    assert_eq!(details.error_message, Some("region required".to_string()));
    assert!(outcome.is_err());
}

#[test]
fn general_error_keeps_struct_default() {
    let client = Client::new("app".to_string(), FixedProvider);
    let default = StructValue { fields: vec![("a".to_string(), Value::Int(1))] };
    let (details, _) = client.evaluate("shape".to_string(), default.clone(), EvaluationContext::new());
    assert_eq!(details.value, default);
    assert_eq!(
        details.error_code,
        Some(EvaluationErrorCode::General("no structured flags".to_string()))
    );
    assert_eq!(details.error_message, Some("no structured flags".to_string()));
}

#[test]
fn evaluating_twice_gives_equal_details() {
    let mut client = Client::new("app".to_string(), FixedProvider);
    client.set_evaluation_context(region("us"));
    let first = client.evaluate("greeting".to_string(), "hi".to_string(), region("eu"));
    let second = client.evaluate("greeting".to_string(), "hi".to_string(), region("eu"));
    assert_eq!(first, second);
    let first = client.evaluate("missing".to_string(), 5i64, EvaluationContext::new());
    let second = client.evaluate("missing".to_string(), 5i64, EvaluationContext::new());
    assert_eq!(first, second);
}

#[test]
fn value_returns_only_the_value() {
    let client = Client::new("app".to_string(), FixedProvider);
    assert_eq!(client.value("limit".to_string(), 0i64, EvaluationContext::new()), (10, Ok(())));
    let (v, outcome) = client.value("nope".to_string(), 3i64, EvaluationContext::new());
    assert_eq!(v, 3);
    assert_eq!(outcome, Err(not_found()));
}

#[test]
fn value_details_reports_success_as_true() {
    let client = Client::new("app".to_string(), FixedProvider);
    let (details, outcome) = client.value_details("enabled".to_string(), false, EvaluationContext::new());
    assert_eq!(details.value, true);
    assert_eq!(outcome, Ok(true));
    let (details, outcome) = client.value_details("nope".to_string(), false, EvaluationContext::new());
    assert_eq!(details.value, false);
    assert_eq!(outcome, Err(not_found()));
}

#[test]
fn meta_data_and_context_accessors() {
    let mut client = Client::new("checkout".to_string(), NotReadyProvider);
    assert_eq!(client.meta_data().name, "checkout".to_string());
    assert_eq!(client.evaluation_context(), EvaluationContext::new());
    client.set_evaluation_context(region("us"));
    assert_eq!(client.evaluation_context(), region("us"));
}

#[test]
fn packaging_a_resolution() {
    let (details, outcome) = details_from_resolution(
        "f".to_string(),
        1i64,
        Ok(ResolutionDetails { value: 9, variant: Some("v".to_string()), reason: None }),
    );
    assert_eq!(details.value, 9);
    assert_eq!(details.variant, Some("v".to_string()));
    assert_eq!(details.error_code, None);
    assert_eq!(outcome, Ok(()));
    let err = EvaluationError::new(EvaluationErrorCode::ParseError);
    let (details, outcome) = details_from_resolution("f".to_string(), 1i64, Err(err.clone()));
    assert_eq!(details.value, 1);
    assert_eq!(details.flag_key, "f".to_string());
    assert_eq!(details.error_code, Some(EvaluationErrorCode::ParseError));
    assert_eq!(details.error_message, err.message.clone());
    assert_eq!(outcome, Err(err));
}
