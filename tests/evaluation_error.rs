use open_feature::{EvaluationError, EvaluationErrorCode};

/// nothing change to keep compatibility with builder pattern
#[test]
fn test_evaluation_error_builder() {
    let error = EvaluationError::builder()
        .code(EvaluationErrorCode::ProviderNotReady)
        .message("No-op provider is never ready".to_string())
        .build();

    assert_eq!(error.code, EvaluationErrorCode::ProviderNotReady);
    assert_eq!(
        error.message,
        Some("No-op provider is never ready".to_string())
    );
}

#[test]
fn test_new_with_code_evaluation_error() {
    let error = EvaluationError::new(EvaluationErrorCode::ProviderNotReady);

    assert_eq!(error.code, EvaluationErrorCode::ProviderNotReady);
    assert_eq!(
        error.message,
        Some("The value was resolved before the provider was initialized.".to_string())
    );

    let error = EvaluationError::new(EvaluationErrorCode::FlagNotFound);
    assert_eq!(error.code, EvaluationErrorCode::FlagNotFound);
    assert_eq!(
        error.message,
        Some("The flag could not be found.".to_string())
    );

    let error = EvaluationError::new(EvaluationErrorCode::ParseError);
    assert_eq!(error.code, EvaluationErrorCode::ParseError);
    assert_eq!(
        error.message,
        Some("An error was encountered parsing data, such as a flag configuration.".to_string())
    );

    let error = EvaluationError::new(EvaluationErrorCode::TypeMismatch);
    assert_eq!(error.code, EvaluationErrorCode::TypeMismatch);
    assert_eq!(
        error.message,
        Some("The type of the flag value does not match the expected type.".to_string())
    );

    let error = EvaluationError::new(EvaluationErrorCode::TargetingKeyMissing);
    assert_eq!(error.code, EvaluationErrorCode::TargetingKeyMissing);
    assert_eq!(
        error.message,
        Some("The provider requires a targeting key and one was not provided in the evaluation context.".to_string())
    );

    let error = EvaluationError::new(EvaluationErrorCode::InvalidContext);
    assert_eq!(error.code, EvaluationErrorCode::InvalidContext);
    assert_eq!(
        error.message,
        Some("The evaluation context does not meet provider requirements.".to_string())
    );

    let error = EvaluationError::new(EvaluationErrorCode::General("Custom error".to_string()));
    assert_eq!(
        error.code,
        EvaluationErrorCode::General("Custom error".to_string())
    );
    assert_eq!(error.message, Some("Custom error".to_string()));
}

#[test]
fn test_new_with_message_evaluation_error() {
    let error = EvaluationError::new_with_message(
        EvaluationErrorCode::ProviderNotReady,
        Some("No-op provider is never ready".to_string()),
    );

    assert_eq!(error.code, EvaluationErrorCode::ProviderNotReady);
    assert_eq!(
        error.message,
        Some("No-op provider is never ready".to_string())
    );

    let error = EvaluationError::new_with_message(
        EvaluationErrorCode::FlagNotFound,
        Some("Flag not found".to_string()),
    );
    assert_eq!(error.code, EvaluationErrorCode::FlagNotFound);
    assert_eq!(error.message, Some("Flag not found".to_string()));

    let error = EvaluationError::new_with_message(
        EvaluationErrorCode::ParseError,
        Some("Parse error".to_string()),
    );
    assert_eq!(error.code, EvaluationErrorCode::ParseError);
    assert_eq!(error.message, Some("Parse error".to_string()));

    let error = EvaluationError::new_with_message(
        EvaluationErrorCode::TypeMismatch,
        Some("Type mismatch".to_string()),
    );
    assert_eq!(error.code, EvaluationErrorCode::TypeMismatch);
    assert_eq!(error.message, Some("Type mismatch".to_string()));

    let error = EvaluationError::new_with_message(
        EvaluationErrorCode::TargetingKeyMissing,
        Some("Targeting key missing".to_string()),
    );
    assert_eq!(error.code, EvaluationErrorCode::TargetingKeyMissing);
    assert_eq!(error.message, Some("Targeting key missing".to_string()));

    let error = EvaluationError::new_with_message(
        EvaluationErrorCode::InvalidContext,
        Some("Invalid context".to_string()),
    );
    assert_eq!(error.code, EvaluationErrorCode::InvalidContext);
    assert_eq!(error.message, Some("Invalid context".to_string()));

    let error = EvaluationError::new_with_message(
        EvaluationErrorCode::General("Custom error".to_string()),
        Some("Custom error message".to_string()),
    );
    assert_eq!(
        error.code,
        EvaluationErrorCode::General("Custom error".to_string())
    );
    assert_eq!(error.message, Some("Custom error message".to_string()));
}

fn all_codes() -> Vec<EvaluationErrorCode> {
    vec![
        EvaluationErrorCode::ProviderNotReady,
        EvaluationErrorCode::FlagNotFound,
        EvaluationErrorCode::ParseError,
        EvaluationErrorCode::TypeMismatch,
        EvaluationErrorCode::TargetingKeyMissing,
        EvaluationErrorCode::InvalidContext,
        EvaluationErrorCode::General("backend unreachable".to_string()),
    ]
}

#[test]
fn wire_tokens_match_the_table() {
    let tokens: Vec<String> = all_codes().iter().map(|c| c.to_string()).collect();
    assert_eq!(
        tokens,
        vec![
            "PROVIDER_NOT_READY",
            "FLAG_NOT_FOUND",
            "PARSE_ERROR",
            "TYPE_MISMATCH",
            "TARGETING_KEY_MISSING",
            "INVALID_CONTEXT",
            "backend unreachable",
        ]
    );
}

#[test]
fn absent_message_is_the_same_as_new() {
    for code in all_codes() {
        let a = EvaluationError::new(code.clone());
        let b = EvaluationError::new_with_message(code.clone(), None);
        assert_eq!(a, b);
        assert_eq!(a.message, Some(code.default_message()));
    }
}

#[test]
fn custom_message_wins_for_every_code() {
    for code in all_codes() {
        let e = EvaluationError::new_with_message(code.clone(), Some("custom".to_string()));
        assert_eq!(e.code, code);
        assert_eq!(e.message, Some("custom".to_string()));
    }
}

#[test]
fn builder_without_message_uses_default() {
    let error = EvaluationError::builder()
        .code(EvaluationErrorCode::FlagNotFound)
        .build();
    assert_eq!(error.message, Some("The flag could not be found.".to_string()));
}

#[test]
fn builder_message_before_code() {
    let error = EvaluationError::builder()
        .message("early".to_string())
        .code(EvaluationErrorCode::ParseError)
        .build();
    assert_eq!(error.code, EvaluationErrorCode::ParseError);
    assert_eq!(error.message, Some("early".to_string()));
}

#[test]
fn getters_read_the_fields() {
    let error = EvaluationError::new(EvaluationErrorCode::TypeMismatch);
    assert_eq!(error.code(), &EvaluationErrorCode::TypeMismatch);
    assert_eq!(
        error.message(),
        Some("The type of the flag value does not match the expected type.")
    );
    let bare = EvaluationError { code: EvaluationErrorCode::ParseError, message: None };
    assert_eq!(bare.message(), None);
}

#[test]
fn cloned_error_is_equal() {
    let error = EvaluationError::new(EvaluationErrorCode::General("x".to_string()));
    assert_eq!(error.clone(), error);
}
