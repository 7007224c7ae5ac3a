use vstd::prelude::*;

verus! {

/// An enumerated error code for an abnormal evaluation.
#[derive(Eq, PartialEq, Debug)]
pub enum EvaluationErrorCode {
    /// The value was resolved before the provider was initialized.
    ProviderNotReady,
    /// The flag could not be found.
    FlagNotFound,
    /// An error was encountered parsing data, such as a flag configuration.
    ParseError,
    /// The type of the flag value does not match the expected type.
    TypeMismatch,
    /// The provider requires a targeting key and one was not provided in the evaluation context.
    TargetingKeyMissing,
    /// The evaluation context does not meet provider requirements.
    InvalidContext,
    /// The error was for a reason not enumerated above; the string is its message.
    General(String),
}

/// The canonical wire token of a code. `General` carries its own message as its token.
pub open spec fn wire_token(code: EvaluationErrorCode) -> Seq<char> {
    match code {
        EvaluationErrorCode::ProviderNotReady => "PROVIDER_NOT_READY"@,
        EvaluationErrorCode::FlagNotFound => "FLAG_NOT_FOUND"@,
        EvaluationErrorCode::ParseError => "PARSE_ERROR"@,
        EvaluationErrorCode::TypeMismatch => "TYPE_MISMATCH"@,
        EvaluationErrorCode::TargetingKeyMissing => "TARGETING_KEY_MISSING"@,
        EvaluationErrorCode::InvalidContext => "INVALID_CONTEXT"@,
        EvaluationErrorCode::General(m) => m@,
    }
}

/// The default human-readable message of a code. `General` uses its own message.
pub open spec fn default_message(code: EvaluationErrorCode) -> Seq<char> {
    match code {
        EvaluationErrorCode::ProviderNotReady =>
            "The value was resolved before the provider was initialized."@,
        EvaluationErrorCode::FlagNotFound => "The flag could not be found."@,
        EvaluationErrorCode::ParseError =>
            "An error was encountered parsing data, such as a flag configuration."@,
        EvaluationErrorCode::TypeMismatch =>
            "The type of the flag value does not match the expected type."@,
        EvaluationErrorCode::TargetingKeyMissing =>
            "The provider requires a targeting key and one was not provided in the evaluation context."@,
        EvaluationErrorCode::InvalidContext =>
            "The evaluation context does not meet provider requirements."@,
        EvaluationErrorCode::General(m) => m@,
    }
}

impl Clone for EvaluationErrorCode {
    fn clone(&self) -> (r: Self)
        ensures
            r == *self,
    {
        match self {
            EvaluationErrorCode::ProviderNotReady => EvaluationErrorCode::ProviderNotReady,
            EvaluationErrorCode::FlagNotFound => EvaluationErrorCode::FlagNotFound,
            EvaluationErrorCode::ParseError => EvaluationErrorCode::ParseError,
            EvaluationErrorCode::TypeMismatch => EvaluationErrorCode::TypeMismatch,
            EvaluationErrorCode::TargetingKeyMissing => EvaluationErrorCode::TargetingKeyMissing,
            EvaluationErrorCode::InvalidContext => EvaluationErrorCode::InvalidContext,
            EvaluationErrorCode::General(m) => EvaluationErrorCode::General(m.clone()),
        }
    }
}

impl EvaluationErrorCode {
    /// The canonical wire token of this code.
    pub fn to_string(&self) -> (r: String)
        ensures
            r@ == wire_token(*self),
            *self is General ==> r == self->General_0,
    {
        match self {
            EvaluationErrorCode::ProviderNotReady => "PROVIDER_NOT_READY".to_owned(),
            EvaluationErrorCode::FlagNotFound => "FLAG_NOT_FOUND".to_owned(),
            EvaluationErrorCode::ParseError => "PARSE_ERROR".to_owned(),
            EvaluationErrorCode::TypeMismatch => "TYPE_MISMATCH".to_owned(),
            EvaluationErrorCode::TargetingKeyMissing => "TARGETING_KEY_MISSING".to_owned(),
            EvaluationErrorCode::InvalidContext => "INVALID_CONTEXT".to_owned(),
            EvaluationErrorCode::General(m) => m.clone(),
        }
    }

    /// The default human-readable message of this code.
    pub fn default_message(&self) -> (r: String)
        ensures
            r@ == default_message(*self),
            *self is General ==> r == self->General_0,
    {
        match self {
            EvaluationErrorCode::ProviderNotReady =>
                "The value was resolved before the provider was initialized.".to_owned(),
            EvaluationErrorCode::FlagNotFound => "The flag could not be found.".to_owned(),
            EvaluationErrorCode::ParseError =>
                "An error was encountered parsing data, such as a flag configuration.".to_owned(),
            EvaluationErrorCode::TypeMismatch =>
                "The type of the flag value does not match the expected type.".to_owned(),
            EvaluationErrorCode::TargetingKeyMissing =>
                "The provider requires a targeting key and one was not provided in the evaluation context.".to_owned(),
            EvaluationErrorCode::InvalidContext =>
                "The evaluation context does not meet provider requirements.".to_owned(),
            EvaluationErrorCode::General(m) => m.clone(),
        }
    }
}

/// An evaluation error: a code and the message that describes it.
#[derive(Eq, PartialEq, Debug)]
pub struct EvaluationError {
    /// The error code of abnormal evaluation.
    pub code: EvaluationErrorCode,
    /// The error message; the code's default message unless one was given.
    pub message: Option<String>,
}

/// The message an error built from `code` and an optional `message` carries.
pub open spec fn resolved_message(code: EvaluationErrorCode, message: Option<String>) -> Seq<char> {
    match message {
        Some(m) => m@,
        None => default_message(code),
    }
}

/// Building without a message is the same as building with the code alone:
/// both carry the code's default message.
pub proof fn lemma_absent_message_is_default(code: EvaluationErrorCode)
    ensures
        resolved_message(code, None) == default_message(code),
        code is General ==> default_message(code) == code->General_0@,
{
}

impl Clone for EvaluationError {
    fn clone(&self) -> (r: Self)
        ensures
            r == *self,
    {
        EvaluationError { code: self.code.clone(), message: self.message.clone() }
    }
}

impl EvaluationError {
    /// Create an evaluation error that carries the code's default message.
    pub fn new(code: EvaluationErrorCode) -> (r: EvaluationError)
        ensures
            r.code == code,
            r.message is Some,
            r.message.unwrap()@ == default_message(code),
            code is General ==> r.message == Some(code->General_0),
    {
        Self::new_with_message(code, None)
    }

    /// Create an evaluation error with a custom message, falling back to the
    /// code's default message when none is given.
    pub fn new_with_message(code: EvaluationErrorCode, message: Option<String>) -> (r:
        EvaluationError)
        ensures
            r.code == code,
            r.message is Some,
            r.message.unwrap()@ == resolved_message(code, message),
            message is Some ==> r.message == message,
            message is None && code is General ==> r.message == Some(code->General_0),
    {
        let message = match message {
            Some(m) => Some(m),
            None => Some(code.default_message()),
        };
        EvaluationError { code, message }
    }

    /// Start building an evaluation error field by field.
    pub fn builder() -> (r: EvaluationErrorBuilder)
        ensures
            r.message_spec() is None,
    {
        EvaluationErrorBuilder { message: None }
    }

    /// The error code.
    pub fn code(&self) -> (r: &EvaluationErrorCode)
        ensures
            *r == self.code,
    {
        &self.code
    }

    /// The error message, or `None` if the error carries none.
    pub fn message(&self) -> (r: Option<&str>)
        ensures
            r is Some <==> self.message is Some,
            r is Some ==> r.unwrap()@ == self.message.unwrap()@,
    {
        match &self.message {
            Some(m) => Some(m.as_str()),
            None => None,
        }
    }
}

/// A builder for `EvaluationError` that has no code yet.
pub struct EvaluationErrorBuilder {
    message: Option<String>,
}

/// A builder for `EvaluationError` whose code is set; it can build.
pub struct EvaluationErrorCodedBuilder {
    code: EvaluationErrorCode,
    message: Option<String>,
}

impl EvaluationErrorBuilder {
    /// The message set so far.
    pub closed spec fn message_spec(&self) -> Option<String> {
        self.message
    }

    /// Set the error code.
    pub fn code(self, code: EvaluationErrorCode) -> (r: EvaluationErrorCodedBuilder)
        ensures
            r.code_spec() == code,
            r.message_spec() == self.message_spec(),
    {
        EvaluationErrorCodedBuilder { code, message: self.message }
    }

    /// Set the error message.
    pub fn message(self, message: String) -> (r: EvaluationErrorBuilder)
        ensures
            r.message_spec() == Some(message),
    {
        EvaluationErrorBuilder { message: Some(message) }
    }
}

impl EvaluationErrorCodedBuilder {
    /// The code set so far.
    pub closed spec fn code_spec(&self) -> EvaluationErrorCode {
        self.code
    }

    /// The message set so far.
    pub closed spec fn message_spec(&self) -> Option<String> {
        self.message
    }

    /// Set the error message.
    pub fn message(self, message: String) -> (r: EvaluationErrorCodedBuilder)
        ensures
            r.code_spec() == self.code_spec(),
            r.message_spec() == Some(message),
    {
        EvaluationErrorCodedBuilder { code: self.code, message: Some(message) }
    }

    /// Build the error; without a message it carries the code's default message.
    pub fn build(self) -> (r: EvaluationError)
        ensures
            r.code == self.code_spec(),
            r.message is Some,
            r.message.unwrap()@ == resolved_message(self.code_spec(), self.message_spec()),
            self.message_spec() is Some ==> r.message == self.message_spec(),
    {
        EvaluationError::new_with_message(self.code, self.message)
    }
}

} // verus!
