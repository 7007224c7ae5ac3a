//! Typed feature-flag evaluation: error taxonomy, evaluation contexts,
//! result envelopes, the provider interface and the client that turns
//! provider failures into usable fallback results.
pub mod client;
pub mod context;
pub mod details;
pub mod error;
pub mod provider;

pub use client::{Client, ClientMetaData, ClientTraits};
pub use context::{EvaluationContext, StructValue, Value};
pub use details::{details_from_resolution, EvaluationDetails, ResolutionDetails};
pub use error::{EvaluationError, EvaluationErrorBuilder, EvaluationErrorCode, EvaluationErrorCodedBuilder};
pub use provider::{FeatureProvider, FlagValue};
