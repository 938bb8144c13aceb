//! The unified error type: a closed sum of categorized variants, each built
//! by a constructor that captures a backtrace, with context layering and a
//! category projection that sees through context wrappers.

use vstd::prelude::*;

use crate::sys;
use crate::types::DiagnosticResult;
use crate::types::ErrorCategory;
use crate::types::ErrorContext;
use crate::types::ErrorSeverity;

verus! {

/// The kinds of foreign I/O failure the library distinguishes. Everything
/// else is carried as [`IoErrorKind::Other`].
#[derive(Debug, Clone, Copy, PartialEq, Eq, Structural)]
pub enum IoErrorKind {
    NotFound,
    PermissionDenied,
    InvalidData,
    Other,
}

/// What the library keeps of a foreign I/O error: its kind and its display
/// text. A clone of the foreign object is materialized from exactly these
/// two, so nothing else of it is observable here.
#[derive(Debug)]
pub struct IoErrorInfo {
    pub kind: IoErrorKind,
    pub message: String,
}

impl Clone for IoErrorInfo {
    /// An exact copy of the record.
    fn clone(&self) -> (r: Self)
        ensures
            r == *self,
    {
        IoErrorInfo { kind: self.kind, message: self.message.clone() }
    }
}

/// A copy of an optional string, equal to the original.
pub(crate) fn clone_opt_string(o: &Option<String>) -> (r: Option<String>)
    ensures
        r == *o,
{
    let r = o.clone();
    proof {
        crate::types::lemma_cloned_opt_string(*o, r);
    }
    r
}

/// Unified error type of the library. Foreign error objects are carried as
/// their display text (and, for I/O, their kind); every variant holds a
/// backtrace captured when it was constructed, optional only for the
/// generic wrapper.
#[derive(Debug)]
pub enum AklypseError {
    /// I/O related errors.
    Io { source: IoErrorInfo, path: Option<String>, operation: String, backtrace: String },
    /// Parsing errors (JSON, YAML, and the like).
    Parse { source_message: String, kind: String, context_info: String, backtrace: String },
    /// Network related errors.
    Network { source_message: String, url: Option<String>, kind: String, backtrace: String },
    /// Configuration related errors.
    Config {
        message: String,
        path: Option<String>,
        source_message: Option<String>,
        backtrace: String,
    },
    /// Validation errors.
    Validation { field: String, message: String, backtrace: String },
    /// Internal errors.
    Internal { message: String, source_message: Option<String>, backtrace: String },
    /// The named circuit breaker rejected the operation.
    CircuitBreakerOpen { name: String, retry_after_ms: Option<u64>, backtrace: String },
    /// The operation ran longer than its budget, in milliseconds.
    Timeout { operation: String, duration_ms: u64, backtrace: String },
    /// Resource exhaustion.
    ResourceExhausted { resource: String, limit: String, current: String, backtrace: String },
    /// Resource not found.
    NotFound { resource_type: String, identifier: String, backtrace: String },
    /// State conflict.
    StateConflict { message: String, backtrace: String },
    /// Concurrency related errors.
    Concurrency { message: String, source_message: Option<String>, backtrace: String },
    /// External service errors.
    ExternalService {
        service_name: String,
        message: String,
        source_message: Option<String>,
        backtrace: String,
    },
    /// A value that should have been present was absent.
    MissingValue { item_description: String, backtrace: String },
    /// Several errors reported together, in order.
    MultipleErrors { errors: Vec<AklypseError>, backtrace: String },
    /// An error wrapped with rich context; the inner error is owned and
    /// never mutated.
    WithRichContext { context: ErrorContext, source: Box<AklypseError>, backtrace: String },
    /// General purpose wrapper.
    Whatever { message: String, source_message: Option<String>, backtrace: Option<String> },
}

impl AklypseError {
    /// The fixed category of each variant; a context wrapper delegates to
    /// the error it wraps, transitively.
    pub open spec fn spec_category(&self) -> ErrorCategory
        decreases self,
    {
        match self {
            AklypseError::Io { .. } => ErrorCategory::Io,
            AklypseError::Parse { .. } => ErrorCategory::Parsing,
            AklypseError::Network { .. } => ErrorCategory::Network,
            AklypseError::Config { .. } => ErrorCategory::Configuration,
            AklypseError::Validation { .. } => ErrorCategory::Validation,
            AklypseError::Internal { .. } => ErrorCategory::Internal,
            AklypseError::CircuitBreakerOpen { .. } => ErrorCategory::CircuitBreaker,
            AklypseError::Timeout { .. } => ErrorCategory::Timeout,
            AklypseError::ResourceExhausted { .. } => ErrorCategory::ResourceExhaustion,
            AklypseError::NotFound { .. } => ErrorCategory::NotFound,
            AklypseError::StateConflict { .. } => ErrorCategory::StateConflict,
            AklypseError::Concurrency { .. } => ErrorCategory::Concurrency,
            AklypseError::ExternalService { .. } => ErrorCategory::ExternalService,
            AklypseError::MissingValue { .. } => ErrorCategory::Validation,
            AklypseError::MultipleErrors { .. } => ErrorCategory::Multiple,
            AklypseError::WithRichContext { source, .. } => source.spec_category(),
            AklypseError::Whatever { .. } => ErrorCategory::Unspecified,
        }
    }

    /// The severity of the outermost context wrapper, or `Error` when the
    /// outermost variant carries no context.
    pub open spec fn spec_severity(&self) -> ErrorSeverity {
        match self {
            AklypseError::WithRichContext { context, .. } => context.severity,
            _ => ErrorSeverity::Error,
        }
    }

    /// The rich context of the outermost variant, when it has one.
    pub open spec fn spec_rich_context(&self) -> Option<ErrorContext> {
        match self {
            AklypseError::WithRichContext { context, .. } => Some(*context),
            _ => None,
        }
    }

    /// The diagnostic result embedded in the outermost rich context, when
    /// there is one.
    pub open spec fn spec_diagnostic_info(&self) -> Option<DiagnosticResult> {
        match self {
            AklypseError::WithRichContext { context, .. } => context.diagnostic_info,
            _ => None,
        }
    }

    /// Get the error category.
    pub fn category(&self) -> (r: ErrorCategory)
        ensures
            r == self.spec_category(),
        decreases *self,
    {
        match self {
            AklypseError::Io { .. } => ErrorCategory::Io,
            AklypseError::Parse { .. } => ErrorCategory::Parsing,
            AklypseError::Network { .. } => ErrorCategory::Network,
            AklypseError::Config { .. } => ErrorCategory::Configuration,
            AklypseError::Validation { .. } => ErrorCategory::Validation,
            AklypseError::Internal { .. } => ErrorCategory::Internal,
            AklypseError::CircuitBreakerOpen { .. } => ErrorCategory::CircuitBreaker,
            AklypseError::Timeout { .. } => ErrorCategory::Timeout,
            AklypseError::ResourceExhausted { .. } => ErrorCategory::ResourceExhaustion,
            AklypseError::NotFound { .. } => ErrorCategory::NotFound,
            AklypseError::StateConflict { .. } => ErrorCategory::StateConflict,
            AklypseError::Concurrency { .. } => ErrorCategory::Concurrency,
            AklypseError::ExternalService { .. } => ErrorCategory::ExternalService,
            AklypseError::MissingValue { .. } => ErrorCategory::Validation,
            AklypseError::MultipleErrors { .. } => ErrorCategory::Multiple,
            AklypseError::WithRichContext { source, .. } => source.category(),
            AklypseError::Whatever { .. } => ErrorCategory::Unspecified,
        }
    }

    /// Get the error severity.
    pub fn severity(&self) -> (r: ErrorSeverity)
        ensures
            r == self.spec_severity(),
    {
        match self {
            AklypseError::WithRichContext { context, .. } => context.severity,
            _ => ErrorSeverity::Error,
        }
    }

    /// Get the rich context if available.
    pub fn get_rich_context(&self) -> (r: Option<&ErrorContext>)
        ensures
            match self.spec_rich_context() {
                Some(c) => r matches Some(rc) && *rc == c,
                None => r is None,
            },
    {
        match self {
            AklypseError::WithRichContext { context, .. } => Some(context),
            _ => None,
        }
    }

    /// Retrieves the diagnostic information embedded in the outermost rich
    /// context, if there is any.
    pub fn get_diagnostic_info(&self) -> (r: Option<&DiagnosticResult>)
        ensures
            match self.spec_diagnostic_info() {
                Some(d) => r matches Some(rd) && *rd == d,
                None => r is None,
            },
    {
        match self {
            AklypseError::WithRichContext { context, .. } => context.diagnostic_info.as_ref(),
            _ => None,
        }
    }

    /// Build an `Io` error, capturing a backtrace.
    pub fn io(source: IoErrorInfo, path: Option<String>, operation: String) -> (r: Self)
        ensures
            r matches AklypseError::Io { source: s, path: p, operation: o, .. } && s == source && p
                == path && o == operation,
    {
        AklypseError::Io { source, path, operation, backtrace: sys::capture_backtrace() }
    }

    /// Build a `Parse` error, capturing a backtrace.
    pub fn parse_error(source_message: String, kind: String, context_info: String) -> (r: Self)
        ensures
            r matches AklypseError::Parse { source_message: s, kind: k, context_info: c, .. } && s
                == source_message && k == kind && c == context_info,
    {
        AklypseError::Parse {
            source_message,
            kind,
            context_info,
            backtrace: sys::capture_backtrace(),
        }
    }

    /// Build a `Network` error, capturing a backtrace.
    pub fn network(source_message: String, url: Option<String>, kind: String) -> (r: Self)
        ensures
            r matches AklypseError::Network { source_message: s, url: u, kind: k, .. } && s
                == source_message && u == url && k == kind,
    {
        AklypseError::Network { source_message, url, kind, backtrace: sys::capture_backtrace() }
    }

    /// Build a `Config` error, capturing a backtrace.
    pub fn config(message: String, path: Option<String>, source_message: Option<String>) -> (r:
        Self)
        ensures
            r matches AklypseError::Config { message: m, path: p, source_message: s, .. } && m
                == message && p == path && s == source_message,
    {
        AklypseError::Config { message, path, source_message, backtrace: sys::capture_backtrace() }
    }

    /// Build a `Validation` error, capturing a backtrace.
    pub fn validation(field: String, message: String) -> (r: Self)
        ensures
            r matches AklypseError::Validation { field: f, message: m, .. } && f == field && m
                == message,
    {
        AklypseError::Validation { field, message, backtrace: sys::capture_backtrace() }
    }

    /// Build an `Internal` error, capturing a backtrace.
    pub fn internal(message: String, source_message: Option<String>) -> (r: Self)
        ensures
            r matches AklypseError::Internal { message: m, source_message: s, .. } && m == message
                && s == source_message,
    {
        AklypseError::Internal { message, source_message, backtrace: sys::capture_backtrace() }
    }

    /// Build a `CircuitBreakerOpen` error, capturing a backtrace.
    pub fn circuit_breaker_open(name: String, retry_after_ms: Option<u64>) -> (r: Self)
        ensures
            r matches AklypseError::CircuitBreakerOpen { name: n, retry_after_ms: t, .. } && n
                == name && t == retry_after_ms,
    {
        AklypseError::CircuitBreakerOpen {
            name,
            retry_after_ms,
            backtrace: sys::capture_backtrace(),
        }
    }

    /// Build a `Timeout` error, capturing a backtrace.
    pub fn timeout(operation: String, duration_ms: u64) -> (r: Self)
        ensures
            r matches AklypseError::Timeout { operation: o, duration_ms: d, .. } && o == operation
                && d == duration_ms,
    {
        AklypseError::Timeout { operation, duration_ms, backtrace: sys::capture_backtrace() }
    }

    /// Build a `ResourceExhausted` error, capturing a backtrace.
    pub fn resource_exhausted(resource: String, limit: String, current: String) -> (r: Self)
        ensures
            r matches AklypseError::ResourceExhausted { resource: re, limit: l, current: c, .. }
                && re == resource && l == limit && c == current,
    {
        AklypseError::ResourceExhausted {
            resource,
            limit,
            current,
            backtrace: sys::capture_backtrace(),
        }
    }

    /// Build a `NotFound` error, capturing a backtrace.
    pub fn not_found(resource_type: String, identifier: String) -> (r: Self)
        ensures
            r matches AklypseError::NotFound { resource_type: t, identifier: i, .. } && t
                == resource_type && i == identifier,
    {
        AklypseError::NotFound { resource_type, identifier, backtrace: sys::capture_backtrace() }
    }

    /// Build a `StateConflict` error, capturing a backtrace.
    pub fn state_conflict(message: String) -> (r: Self)
        ensures
            r matches AklypseError::StateConflict { message: m, .. } && m == message,
    {
        AklypseError::StateConflict { message, backtrace: sys::capture_backtrace() }
    }

    /// Build a `Concurrency` error, capturing a backtrace.
    pub fn concurrency(message: String, source_message: Option<String>) -> (r: Self)
        ensures
            r matches AklypseError::Concurrency { message: m, source_message: s, .. } && m
                == message && s == source_message,
    {
        AklypseError::Concurrency { message, source_message, backtrace: sys::capture_backtrace() }
    }

    /// Build an `ExternalService` error, capturing a backtrace.
    pub fn external_service(
        service_name: String,
        message: String,
        source_message: Option<String>,
    ) -> (r: Self)
        ensures
            r matches AklypseError::ExternalService {
                service_name: n,
                message: m,
                source_message: s,
                ..
            } && n == service_name && m == message && s == source_message,
    {
        AklypseError::ExternalService {
            service_name,
            message,
            source_message,
            backtrace: sys::capture_backtrace(),
        }
    }

    /// Build a `MissingValue` error, capturing a backtrace.
    pub fn missing_value(item_description: String) -> (r: Self)
        ensures
            r matches AklypseError::MissingValue { item_description: d, .. } && d
                == item_description,
    {
        AklypseError::MissingValue { item_description, backtrace: sys::capture_backtrace() }
    }

    /// Build a `MultipleErrors` error, capturing a backtrace.
    pub fn multiple_errors(errors: Vec<AklypseError>) -> (r: Self)
        ensures
            r matches AklypseError::MultipleErrors { errors: e, .. } && e == errors,
    {
        AklypseError::MultipleErrors { errors, backtrace: sys::capture_backtrace() }
    }

    /// Build a `Whatever` error, capturing a backtrace.
    pub fn whatever(message: String, source_message: Option<String>) -> (r: Self)
        ensures
            r matches AklypseError::Whatever { message: m, source_message: s, backtrace: b } && m
                == message && s == source_message && b is Some,
    {
        AklypseError::Whatever {
            message,
            source_message,
            backtrace: Some(sys::capture_backtrace()),
        }
    }

    /// Add rich context to an error: the result wraps `self` unchanged.
    pub fn add_context(self, context: ErrorContext) -> (r: Self)
        ensures
            r matches AklypseError::WithRichContext { context: c, source: s, .. } && c == context
                && *s == self,
    {
        AklypseError::WithRichContext {
            context,
            source: Box::new(self),
            backtrace: sys::capture_backtrace(),
        }
    }

    /// Add a simple message context to an error: a minimal context with the
    /// given message and default severity wraps `self` unchanged.
    pub fn add_context_msg(self, message: &str) -> (r: Self)
        ensures
            r matches AklypseError::WithRichContext { context: c, source: s, .. } && c.message@
                == message@ && c.severity == ErrorSeverity::Error && c.diagnostic_info is None && *s
                == self,
    {
        let context = ErrorContext::new(message);
        self.add_context(context)
    }
}

/// What cloning preserves: `b` holds the same user-visible content as `a`
/// in the same variant — every path, string and number agrees, a wrapped
/// list element for element — while the backtrace of `b` is freshly
/// captured and therefore unconstrained.
pub open spec fn clone_follows(a: AklypseError, b: AklypseError) -> bool
    decreases a,
{
    match a {
        AklypseError::Io { source, path, operation, .. } => b matches AklypseError::Io {
            source: s2,
            path: p2,
            operation: o2,
            ..
        } && s2 == source && p2 == path && o2 == operation,
        AklypseError::Parse { source_message, kind, context_info, .. } => b matches AklypseError::Parse {
            source_message: s2,
            kind: k2,
            context_info: c2,
            ..
        } && s2 == source_message && k2 == kind && c2 == context_info,
        AklypseError::Network { source_message, url, kind, .. } => b matches AklypseError::Network {
            source_message: s2,
            url: u2,
            kind: k2,
            ..
        } && s2 == source_message && u2 == url && k2 == kind,
        AklypseError::Config { message, path, source_message, .. } => b matches AklypseError::Config {
            message: m2,
            path: p2,
            source_message: s2,
            ..
        } && m2 == message && p2 == path && s2 == source_message,
        AklypseError::Validation { field, message, .. } => b matches AklypseError::Validation {
            field: f2,
            message: m2,
            ..
        } && f2 == field && m2 == message,
        AklypseError::Internal { message, source_message, .. } => b matches AklypseError::Internal {
            message: m2,
            source_message: s2,
            ..
        } && m2 == message && s2 == source_message,
        AklypseError::CircuitBreakerOpen { name, retry_after_ms, .. } => b matches AklypseError::CircuitBreakerOpen {
            name: n2,
            retry_after_ms: t2,
            ..
        } && n2 == name && t2 == retry_after_ms,
        AklypseError::Timeout { operation, duration_ms, .. } => b matches AklypseError::Timeout {
            operation: o2,
            duration_ms: d2,
            ..
        } && o2 == operation && d2 == duration_ms,
        AklypseError::ResourceExhausted { resource, limit, current, .. } => b matches AklypseError::ResourceExhausted {
            resource: r2,
            limit: l2,
            current: c2,
            ..
        } && r2 == resource && l2 == limit && c2 == current,
        AklypseError::NotFound { resource_type, identifier, .. } => b matches AklypseError::NotFound {
            resource_type: t2,
            identifier: i2,
            ..
        } && t2 == resource_type && i2 == identifier,
        AklypseError::StateConflict { message, .. } => b matches AklypseError::StateConflict {
            message: m2,
            ..
        } && m2 == message,
        AklypseError::Concurrency { message, source_message, .. } => b matches AklypseError::Concurrency {
            message: m2,
            source_message: s2,
            ..
        } && m2 == message && s2 == source_message,
        AklypseError::ExternalService { service_name, message, source_message, .. } => b matches AklypseError::ExternalService {
            service_name: n2,
            message: m2,
            source_message: s2,
            ..
        } && n2 == service_name && m2 == message && s2 == source_message,
        AklypseError::MissingValue { item_description, .. } => b matches AklypseError::MissingValue {
            item_description: d2,
            ..
        } && d2 == item_description,
        AklypseError::MultipleErrors { errors, .. } => b matches AklypseError::MultipleErrors {
            errors: e2,
            ..
        } && e2@.len() == errors@.len() && (forall|i: int|
            0 <= i < errors@.len() ==> clone_follows(errors@[i], #[trigger] e2@[i])),
        AklypseError::WithRichContext { context, source, .. } => b matches AklypseError::WithRichContext {
            context: c2,
            source: s2,
            ..
        } && c2.content_eq(&context) && clone_follows(*source, *s2),
        AklypseError::Whatever { message, source_message, .. } => b matches AklypseError::Whatever {
            message: m2,
            source_message: s2,
            ..
        } && m2 == message && s2 == source_message,
    }
}

/// The category of a context-wrapped error is the category of the error
/// it wraps, whatever that inner error is.
pub proof fn lemma_category_sees_through_context(e: AklypseError)
    ensures
        e matches AklypseError::WithRichContext { source, .. } ==> e.spec_category()
            == source.spec_category(),
{
}

/// Cloning preserves the category: a value related to `a` as its clone has
/// the category of `a`.
pub proof fn lemma_clone_preserves_category(a: AklypseError, b: AklypseError)
    requires
        clone_follows(a, b),
    ensures
        b.spec_category() == a.spec_category(),
    decreases a,
{
    match a {
        AklypseError::WithRichContext { context, source, .. } => {
            match b {
                AklypseError::WithRichContext { context: c2, source: s2, .. } => {
                    lemma_clone_preserves_category(*source, *s2);
                },
                _ => {},
            }
        },
        _ => {},
    }
}

/// Clone idempotence for the category: the clone of a clone of `a` still
/// has the category of `a`.
pub proof fn lemma_clone_of_clone_category(a: AklypseError, b: AklypseError, c: AklypseError)
    requires
        clone_follows(a, b),
        clone_follows(b, c),
    ensures
        c.spec_category() == a.spec_category(),
{
    lemma_clone_preserves_category(a, b);
    lemma_clone_preserves_category(b, c);
}

impl AklypseError {
    /// A deep copy by behavioral approximation: user-visible content is
    /// preserved exactly (the foreign error of an `Io` variant is carried
    /// as its kind and display text, so its surrogate is exact here), and
    /// every backtrace is freshly captured.
    pub fn deep_clone(&self) -> (res: Self)
        ensures
            clone_follows(*self, res),
        decreases *self,
    {
        match self {
            AklypseError::Io { source, path, operation, .. } => AklypseError::io(
                source.clone(),
                clone_opt_string(path),
                operation.clone(),
            ),
            AklypseError::Parse { source_message, kind, context_info, .. } => {
                AklypseError::parse_error(
                    source_message.clone(),
                    kind.clone(),
                    context_info.clone(),
                )
            },
            AklypseError::Network { source_message, url, kind, .. } => AklypseError::network(
                source_message.clone(),
                clone_opt_string(url),
                kind.clone(),
            ),
            AklypseError::Config { message, path, source_message, .. } => AklypseError::config(
                message.clone(),
                clone_opt_string(path),
                clone_opt_string(source_message),
            ),
            AklypseError::Validation { field, message, .. } => AklypseError::validation(
                field.clone(),
                message.clone(),
            ),
            AklypseError::Internal { message, source_message, .. } => AklypseError::internal(
                message.clone(),
                clone_opt_string(source_message),
            ),
            AklypseError::CircuitBreakerOpen { name, retry_after_ms, .. } => {
                AklypseError::circuit_breaker_open(name.clone(), *retry_after_ms)
            },
            AklypseError::Timeout { operation, duration_ms, .. } => AklypseError::timeout(
                operation.clone(),
                *duration_ms,
            ),
            AklypseError::ResourceExhausted { resource, limit, current, .. } => {
                AklypseError::resource_exhausted(resource.clone(), limit.clone(), current.clone())
            },
            AklypseError::NotFound { resource_type, identifier, .. } => AklypseError::not_found(
                resource_type.clone(),
                identifier.clone(),
            ),
            AklypseError::StateConflict { message, .. } => AklypseError::state_conflict(
                message.clone(),
            ),
            AklypseError::Concurrency { message, source_message, .. } => AklypseError::concurrency(
                message.clone(),
                clone_opt_string(source_message),
            ),
            AklypseError::ExternalService { service_name, message, source_message, .. } => {
                AklypseError::external_service(
                    service_name.clone(),
                    message.clone(),
                    clone_opt_string(source_message),
                )
            },
            AklypseError::MissingValue { item_description, .. } => AklypseError::missing_value(
                item_description.clone(),
            ),
            AklypseError::MultipleErrors { errors, .. } => {
                let mut cloned_errors: Vec<AklypseError> = Vec::new();
                let n = errors.len();
                let mut j: usize = 0;
                while j < n
                    invariant
                        n == errors@.len(),
                        j <= n,
                        cloned_errors@.len() == j as int,
                        *self matches AklypseError::MultipleErrors { errors: e0, .. } && e0
                            == *errors,
                        forall|k: int|
                            0 <= k < j ==> clone_follows(errors@[k], #[trigger] cloned_errors@[k]),
                    decreases n - j,
                {
                    let item = &errors[j];
                    cloned_errors.push(item.deep_clone());
                    j = j + 1;
                }
                AklypseError::multiple_errors(cloned_errors)
            },
            AklypseError::WithRichContext { context, source, .. } => {
                let inner = source.deep_clone();
                inner.add_context(context.clone())
            },
            AklypseError::Whatever { message, source_message, .. } => AklypseError::whatever(
                message.clone(),
                clone_opt_string(source_message),
            ),
        }
    }
}

impl Clone for AklypseError {
    /// Cloning by behavioral approximation: see [`AklypseError::deep_clone`].
    fn clone(&self) -> (res: Self)
        ensures
            clone_follows(*self, res),
    {
        self.deep_clone()
    }
}

/// Extension for `Result`: attach a message or a rich context to the error
/// of a failed outcome, leaving a success untouched.
pub trait ResultExt<T>: Sized {
    /// Wrap the error, if any, in a minimal context with this message.
    fn context_msg(self, message: &str) -> Result<T, AklypseError>;

    /// Wrap the error, if any, in this rich context.
    fn context_rich(self, context: ErrorContext) -> Result<T, AklypseError>;
}

impl<T> ResultExt<T> for Result<T, AklypseError> {
    fn context_msg(self, message: &str) -> (r: Result<T, AklypseError>)
        ensures
            self matches Ok(v) ==> r matches Ok(rv) && rv == v,
            self matches Err(e) ==> r matches Err(
                AklypseError::WithRichContext { context: c, source: s, .. },
            ) && c.message@ == message@ && c.severity == ErrorSeverity::Error && *s == e,
    {
        match self {
            Ok(value) => Ok(value),
            Err(err) => Err(err.add_context_msg(message)),
        }
    }

    fn context_rich(self, context: ErrorContext) -> (r: Result<T, AklypseError>)
        ensures
            self matches Ok(v) ==> r matches Ok(rv) && rv == v,
            self matches Err(e) ==> r matches Err(
                AklypseError::WithRichContext { context: c, source: s, .. },
            ) && c == context && *s == e,
    {
        match self {
            Ok(value) => Ok(value),
            Err(err) => Err(err.add_context(context)),
        }
    }
}

/// Extension for `Option`: lift an absent value into an error.
pub trait OptionExt<T>: Sized {
    /// Whether the value is absent, so that lifting must build an error.
    spec fn is_absent(&self) -> bool;

    /// Lift an absent value into the error a caller-supplied builder makes.
    fn ok_or_snafu_<E, C: FnOnce() -> E>(self, context_builder: C) -> Result<T, E>
        requires
            self.is_absent() ==> call_requires(context_builder, ()),
    ;

    /// Lift an absent value into a `MissingValue` error with the given
    /// description.
    fn ok_or_missing_value(self, item_description: &str) -> Result<T, AklypseError>;
}

impl<T> OptionExt<T> for Option<T> {
    open spec fn is_absent(&self) -> bool {
        *self is None
    }

    fn ok_or_snafu_<E, C: FnOnce() -> E>(self, context_builder: C) -> (r: Result<T, E>)
        ensures
            self matches Some(v) ==> r matches Ok(rv) && rv == v,
            self is None ==> (r matches Err(e) && call_ensures(context_builder, (), e)),
    {
        match self {
            Some(v) => Ok(v),
            None => Err(context_builder()),
        }
    }

    fn ok_or_missing_value(self, item_description: &str) -> (r: Result<T, AklypseError>)
        ensures
            self matches Some(v) ==> r matches Ok(rv) && rv == v,
            self is None ==> (r matches Err(AklypseError::MissingValue { item_description: d, .. })
                && d@ == item_description@),
    {
        match self {
            Some(v) => Ok(v),
            None => Err(AklypseError::missing_value(item_description.to_owned())),
        }
    }
}

} // verus!
