//! A resilience and diagnostics library: a circuit breaker that gates
//! operations and opens on sustained failure, a structured error model with
//! categories and rich context, an autocorrection engine that inspects an
//! error and proposes a fix, and a formatted error reporter.

pub mod circuitbreaker;
pub mod decrust;
pub mod error;
pub mod reporter;
pub mod sys;
pub mod types;

pub use circuitbreaker::AdmissionDecision;
pub use circuitbreaker::CircuitBreaker;
pub use circuitbreaker::CircuitBreakerConfig;
pub use circuitbreaker::CircuitMetrics;
pub use circuitbreaker::CircuitOperationType;
pub use circuitbreaker::CircuitState;
pub use circuitbreaker::CircuitTransitionEvent;
pub use circuitbreaker::WindowRate;
pub use decrust::AutocorrectableError;
pub use decrust::Decrust;
pub use error::AklypseError;
pub use error::IoErrorInfo;
pub use error::IoErrorKind;
pub use error::OptionExt;
pub use error::ResultExt;
pub use reporter::ErrorReportConfig;
pub use reporter::ErrorReporter;
pub use types::Autocorrection;
pub use types::DiagnosticResult;
pub use types::ErrorCategory;
pub use types::ErrorContext;
pub use types::ErrorLocation;
pub use types::ErrorReportFormat;
pub use types::ErrorSeverity;
pub use types::ErrorSource;
pub use types::FixDetails;
pub use types::FixType;
pub use types::MacroExpansion;
