//! Core data types of the error model: severity and category enumerations,
//! source locations, diagnostic records, rich error context, and the
//! autocorrection record proposed by the engine.

use vstd::prelude::*;

verus! {

/// Severity level for errors.
#[derive(Debug, Clone, Copy, PartialEq, Eq, PartialOrd, Ord, Structural)]
pub enum ErrorSeverity {
    Debug,
    Info,
    Warning,
    Error,
    Critical,
}

/// Categorization of errors.
#[derive(Debug, Clone, Copy, PartialEq, Eq, Structural)]
pub enum ErrorCategory {
    Io,
    Parsing,
    Network,
    Configuration,
    Validation,
    Internal,
    CircuitBreaker,
    Timeout,
    ResourceExhaustion,
    NotFound,
    Concurrency,
    ExternalService,
    Authentication,
    Authorization,
    StateConflict,
    Multiple,
    Unspecified,
}

/// Output formats for error reports.
#[derive(Debug, Clone, Copy, PartialEq, Eq, Structural)]
pub enum ErrorReportFormat {
    Plain,
    Json,
    Markdown,
    Html,
}

/// Nature of a proposed autocorrection fix.
#[derive(Debug, Clone, Copy, PartialEq, Eq, Structural)]
pub enum FixType {
    TextReplacement,
    AstModification,
    AddImport,
    AddDependency,
    ConfigurationChange,
    ExecuteCommand,
    Refactor,
    ManualInterventionRequired,
    Information,
    UpdateCargoToml,
    RunCargoCommand,
    SuggestAlternativeMethod,
}

/// Describes the source location of an error.
#[derive(Debug)]
pub struct ErrorSource {
    pub file: String,
    pub line: u32,
    pub module: String,
    pub column: Option<u32>,
    pub function: Option<String>,
}

impl ErrorSource {
    /// A location with the mandatory fields; column and function start absent.
    pub fn new(file: &str, line: u32, module: &str) -> (r: Self)
        ensures
            r.file@ == file@,
            r.line == line,
            r.module@ == module@,
            r.column is None,
            r.function is None,
    {
        Self {
            file: file.to_owned(),
            line,
            module: module.to_owned(),
            column: None,
            function: None,
        }
    }

    /// The same location with the column set.
    pub fn with_column(self, column: u32) -> (r: Self)
        ensures
            r == (Self { column: Some(column), ..self }),
    {
        Self { column: Some(column), ..self }
    }

    /// The same location with the enclosing function named.
    pub fn with_function(self, function: &str) -> (r: Self)
        ensures
            r.file == self.file,
            r.line == self.line,
            r.module == self.module,
            r.column == self.column,
            r.function matches Some(f) && f@ == function@,
    {
        Self { function: Some(function.to_owned()), ..self }
    }
}

/// Specific location for diagnostic purposes.
#[derive(Debug)]
pub struct ErrorLocation {
    pub file: String,
    pub line: u32,
    pub column: u32,
    pub function_context: String,
    pub variant_tag: Option<String>,
}

impl ErrorLocation {
    /// A diagnostic location; the variant tag starts absent.
    pub fn new(file: &str, line: u32, column: u32, function_context: &str) -> (r: Self)
        ensures
            r.file@ == file@,
            r.line == line,
            r.column == column,
            r.function_context@ == function_context@,
            r.variant_tag is None,
    {
        Self {
            file: file.to_owned(),
            line,
            column,
            function_context: function_context.to_owned(),
            variant_tag: None,
        }
    }

    /// The same location with the error-variant tag recorded.
    pub fn with_snafu_variant(self, variant: &str) -> (r: Self)
        ensures
            r.file == self.file,
            r.line == self.line,
            r.column == self.column,
            r.function_context == self.function_context,
            r.variant_tag matches Some(v) && v@ == variant@,
    {
        Self { variant_tag: Some(variant.to_owned()), ..self }
    }
}

/// What the metadata mapping of an [`ErrorContext`] associates with a key:
/// the value of the latest entry for that key, or `None`. Later entries
/// shadow earlier ones, so an insertion for an existing key overwrites it.
pub open spec fn metadata_lookup(entries: Seq<(String, String)>, key: Seq<char>) -> Option<String>
    decreases entries.len(),
{
    if entries.len() == 0 {
        None
    } else if entries.last().0@ == key {
        Some(entries.last().1)
    } else {
        metadata_lookup(entries.drop_last(), key)
    }
}

/// A step in a macro expansion trace.
#[derive(Debug)]
pub struct MacroExpansion {
    pub macro_name: String,
    pub expansion_site: ErrorLocation,
    pub generated_code_snippet: String,
}

/// Holds detailed diagnostic information, in the style of a compiler or
/// linter report.
#[derive(Debug)]
pub struct DiagnosticResult {
    pub primary_location: Option<ErrorLocation>,
    pub expansion_trace: Vec<MacroExpansion>,
    pub suggested_fixes: Vec<String>,
    pub original_message: Option<String>,
    pub diagnostic_code: Option<String>,
}

/// Additional structured context for an error, attached by wrapping the
/// error rather than replacing it.
#[derive(Debug)]
pub struct ErrorContext {
    pub message: String,
    pub source_location: Option<ErrorSource>,
    pub recovery_suggestion: Option<String>,
    /// Key-to-value mapping; later entries shadow earlier ones for the same
    /// key (see [`metadata_lookup`]).
    pub metadata: Vec<(String, String)>,
    pub severity: ErrorSeverity,
    /// Wall-clock milliseconds since the Unix epoch, captured at creation.
    pub timestamp_ms: Option<u64>,
    pub correlation_id: Option<String>,
    pub component: Option<String>,
    pub tags: Vec<String>,
    pub diagnostic_info: Option<DiagnosticResult>,
}

impl ErrorContext {
    /// A context with the given message, default severity `Error`, a
    /// freshly captured timestamp, and every other field absent or empty.
    pub fn new(message: &str) -> (r: Self)
        ensures
            r.message@ == message@,
            r.source_location is None,
            r.recovery_suggestion is None,
            r.metadata@.len() == 0,
            r.severity == ErrorSeverity::Error,
            r.timestamp_ms is Some,
            r.correlation_id is None,
            r.component is None,
            r.tags@.len() == 0,
            r.diagnostic_info is None,
    {
        Self {
            message: message.to_owned(),
            source_location: None,
            recovery_suggestion: None,
            metadata: Vec::new(),
            severity: ErrorSeverity::Error,
            timestamp_ms: Some(crate::sys::wall_clock_ms()),
            correlation_id: None,
            component: None,
            tags: Vec::new(),
            diagnostic_info: None,
        }
    }

    /// The same context with the severity set.
    pub fn with_severity(self, severity: ErrorSeverity) -> (r: Self)
        ensures
            r == (Self { severity, ..self }),
    {
        Self { severity, ..self }
    }

    /// The same context with the source location set.
    pub fn with_source_location(self, source_location: ErrorSource) -> (r: Self)
        ensures
            r == (Self { source_location: Some(source_location), ..self }),
    {
        Self { source_location: Some(source_location), ..self }
    }

    /// The same context with the recovery suggestion set.
    pub fn with_recovery_suggestion(self, suggestion: &str) -> (r: Self)
        ensures
            r.recovery_suggestion matches Some(s) && s@ == suggestion@,
            r == (Self { recovery_suggestion: r.recovery_suggestion, ..self }),
    {
        Self { recovery_suggestion: Some(suggestion.to_owned()), ..self }
    }

    /// The same context with one more metadata entry; for an existing key
    /// the new entry shadows the old one.
    pub fn with_metadata(self, key: &str, value: &str) -> (r: Self)
        ensures
            r.metadata@.len() == self.metadata@.len() + 1,
            r.metadata@.last().0@ == key@ && r.metadata@.last().1@ == value@,
            r.metadata@.drop_last() == self.metadata@,
            r == (Self { metadata: r.metadata, ..self }),
    {
        let mut metadata = self.metadata;
        metadata.push((key.to_owned(), value.to_owned()));
        Self { metadata, ..self }
    }

    /// The same context with the correlation id set.
    pub fn with_correlation_id(self, id: &str) -> (r: Self)
        ensures
            r.correlation_id matches Some(s) && s@ == id@,
            r == (Self { correlation_id: r.correlation_id, ..self }),
    {
        Self { correlation_id: Some(id.to_owned()), ..self }
    }

    /// The same context with the component name set.
    pub fn with_component(self, component: &str) -> (r: Self)
        ensures
            r.component matches Some(s) && s@ == component@,
            r == (Self { component: r.component, ..self }),
    {
        Self { component: Some(component.to_owned()), ..self }
    }

    /// The same context with one more tag appended.
    pub fn add_tag(self, tag: &str) -> (r: Self)
        ensures
            r.tags@.len() == self.tags@.len() + 1,
            r.tags@.last()@ == tag@,
            r.tags@.drop_last() == self.tags@,
            r == (Self { tags: r.tags, ..self }),
    {
        let mut tags = self.tags;
        tags.push(tag.to_owned());
        Self { tags, ..self }
    }

    /// The same context with the diagnostic information set.
    pub fn with_diagnostic_info(self, diagnostic: DiagnosticResult) -> (r: Self)
        ensures
            r == (Self { diagnostic_info: Some(diagnostic), ..self }),
    {
        Self { diagnostic_info: Some(diagnostic), ..self }
    }

    /// The value the metadata mapping associates with `key`: the latest
    /// entry for it, or `None`.
    pub fn metadata_get(&self, key: &str) -> (r: Option<String>)
        ensures
            r == metadata_lookup(self.metadata@, key@),
    {
        let key_owned: String = key.to_owned();
        let mut i: usize = self.metadata.len();
        proof {
            assert(self.metadata@.subrange(0, i as int) =~= self.metadata@);
        }
        while i > 0
            invariant
                i <= self.metadata@.len(),
                key_owned@ == key@,
                metadata_lookup(self.metadata@, key@) == metadata_lookup(
                    self.metadata@.subrange(0, i as int),
                    key@,
                ),
            decreases i,
        {
            i = i - 1;
            let pair = &self.metadata[i];
            proof {
                assert(self.metadata@.subrange(0, i + 1).drop_last() =~= self.metadata@.subrange(
                    0,
                    i as int,
                ));
                assert(self.metadata@.subrange(0, i + 1).last() == self.metadata@[i as int]);
            }
            if pair.0 == key_owned {
                return Some(pair.1.clone());
            }
        }
        proof {
            assert(self.metadata@.subrange(0, 0).len() == 0);
        }
        None
    }
}

/// A clone of a `String` equals the original.
pub proof fn lemma_cloned_string(a: String, b: String)
    requires
        cloned::<String>(a, b),
    ensures
        a == b,
{
}

/// A clone of an `Option<String>` equals the original.
pub proof fn lemma_cloned_opt_string(a: Option<String>, b: Option<String>)
    requires
        cloned::<Option<String>>(a, b),
    ensures
        a == b,
{
}

impl Clone for ErrorSource {
    /// An exact copy of the location.
    fn clone(&self) -> (res: Self)
        ensures
            res == *self,
    {
        let function = self.function.clone();
        proof {
            lemma_cloned_opt_string(self.function, function);
        }
        ErrorSource {
            file: self.file.clone(),
            line: self.line,
            module: self.module.clone(),
            column: self.column,
            function,
        }
    }
}

impl Clone for ErrorLocation {
    /// An exact copy of the location.
    fn clone(&self) -> (res: Self)
        ensures
            res == *self,
    {
        let variant_tag = self.variant_tag.clone();
        proof {
            lemma_cloned_opt_string(self.variant_tag, variant_tag);
        }
        ErrorLocation {
            file: self.file.clone(),
            line: self.line,
            column: self.column,
            function_context: self.function_context.clone(),
            variant_tag,
        }
    }
}

impl Clone for MacroExpansion {
    /// An exact copy of the expansion step.
    fn clone(&self) -> (res: Self)
        ensures
            res == *self,
    {
        MacroExpansion {
            macro_name: self.macro_name.clone(),
            expansion_site: self.expansion_site.clone(),
            generated_code_snippet: self.generated_code_snippet.clone(),
        }
    }
}

impl DiagnosticResult {
    /// The two records hold the same content: every field agrees, the
    /// list-valued ones element for element.
    pub open spec fn content_eq(&self, other: &DiagnosticResult) -> bool {
        &&& self.primary_location == other.primary_location
        &&& self.expansion_trace@ == other.expansion_trace@
        &&& self.suggested_fixes@ == other.suggested_fixes@
        &&& self.original_message == other.original_message
        &&& self.diagnostic_code == other.diagnostic_code
    }
}

/// The two optional diagnostic records hold the same content.
pub open spec fn opt_diag_content_eq(a: Option<DiagnosticResult>, b: Option<DiagnosticResult>) -> bool {
    match a {
        Some(da) => b matches Some(db) && da.content_eq(&db),
        None => b is None,
    }
}

impl Clone for DiagnosticResult {
    /// A copy of the diagnostic record with the same content.
    fn clone(&self) -> (res: Self)
        ensures
            res.content_eq(self),
    {
        let primary_location = self.primary_location.clone();
        let expansion_trace = self.expansion_trace.clone();
        let suggested_fixes = self.suggested_fixes.clone();
        let original_message = self.original_message.clone();
        let diagnostic_code = self.diagnostic_code.clone();
        proof {
            if self.primary_location is Some {
                assert(primary_location->Some_0 == self.primary_location->Some_0);
            }
            assert(primary_location == self.primary_location);
            assert forall|i: int| 0 <= i < self.expansion_trace@.len() implies expansion_trace@[i]
                == self.expansion_trace@[i] by {}
            assert(expansion_trace@ =~= self.expansion_trace@);
            assert forall|i: int|
                0 <= i < self.suggested_fixes@.len() implies #[trigger] suggested_fixes@[i]
                == self.suggested_fixes@[i] by {
                lemma_cloned_string(self.suggested_fixes@[i], suggested_fixes@[i]);
            }
            assert(suggested_fixes@ =~= self.suggested_fixes@);
            lemma_cloned_opt_string(self.original_message, original_message);
            lemma_cloned_opt_string(self.diagnostic_code, diagnostic_code);
        }
        DiagnosticResult {
            primary_location,
            expansion_trace,
            suggested_fixes,
            original_message,
            diagnostic_code,
        }
    }
}

impl ErrorContext {
    /// The two contexts hold the same content: every field agrees, the
    /// list-valued ones element for element.
    pub open spec fn content_eq(&self, other: &ErrorContext) -> bool {
        &&& self.message == other.message
        &&& self.source_location == other.source_location
        &&& self.recovery_suggestion == other.recovery_suggestion
        &&& self.metadata@ == other.metadata@
        &&& self.severity == other.severity
        &&& self.timestamp_ms == other.timestamp_ms
        &&& self.correlation_id == other.correlation_id
        &&& self.component == other.component
        &&& self.tags@ == other.tags@
        &&& opt_diag_content_eq(self.diagnostic_info, other.diagnostic_info)
    }
}

impl Clone for ErrorContext {
    /// A copy of the context with the same content.
    fn clone(&self) -> (res: Self)
        ensures
            res.content_eq(self),
    {
        let source_location = self.source_location.clone();
        let recovery_suggestion = self.recovery_suggestion.clone();
        let correlation_id = self.correlation_id.clone();
        let component = self.component.clone();
        let tags = self.tags.clone();
        let diagnostic_info = self.diagnostic_info.clone();
        proof {
            if self.source_location is Some {
                assert(source_location->Some_0 == self.source_location->Some_0);
            }
            assert(source_location == self.source_location);
            lemma_cloned_opt_string(self.recovery_suggestion, recovery_suggestion);
            lemma_cloned_opt_string(self.correlation_id, correlation_id);
            lemma_cloned_opt_string(self.component, component);
            assert forall|i: int| 0 <= i < self.tags@.len() implies #[trigger] tags@[i]
                == self.tags@[i] by {
                lemma_cloned_string(self.tags@[i], tags@[i]);
            }
            assert(tags@ =~= self.tags@);
            if self.diagnostic_info is Some {
                assert(diagnostic_info->Some_0.content_eq(&self.diagnostic_info->Some_0));
            }
            assert(opt_diag_content_eq(self.diagnostic_info, diagnostic_info));
        }
        let mut metadata: Vec<(String, String)> = Vec::new();
        let mut i: usize = 0;
        while i < self.metadata.len()
            invariant
                i <= self.metadata@.len(),
                metadata@.len() == i as int,
                forall|j: int| 0 <= j < i ==> metadata@[j] == self.metadata@[j],
            decreases self.metadata@.len() - i,
        {
            let pair = &self.metadata[i];
            metadata.push((pair.0.clone(), pair.1.clone()));
            i = i + 1;
        }
        proof {
            assert(metadata@ =~= self.metadata@);
        }
        ErrorContext {
            message: self.message.clone(),
            source_location,
            recovery_suggestion,
            metadata,
            severity: self.severity,
            timestamp_ms: self.timestamp_ms,
            correlation_id,
            component,
            tags,
            diagnostic_info,
        }
    }
}

/// Detailed information for specific fix types.
#[derive(Debug, Clone)]
pub enum FixDetails {
    TextReplace {
        file_path: String,
        line_start: usize,
        column_start: usize,
        line_end: usize,
        column_end: usize,
        original_text_snippet: Option<String>,
        replacement_text: String,
    },
    AddImport {
        file_path: String,
        import: String,
    },
    AddCargoDependency {
        dependency: String,
        version: String,
        features: Vec<String>,
        is_dev_dependency: bool,
    },
    ExecuteCommand {
        command: String,
        args: Vec<String>,
        working_directory: Option<String>,
    },
    SuggestCodeChange {
        file_path: String,
        line_hint: usize,
        suggested_code_snippet: String,
        explanation: String,
    },
}

/// A proposed autocorrection for an error. The engine only proposes; nothing
/// here is executed by the library.
#[derive(Debug, Clone)]
pub struct Autocorrection {
    pub description: String,
    pub fix_type: FixType,
    /// Confidence in the proposal, in hundredths: 0 is none, 100 is certain.
    pub confidence: u32,
    pub details: Option<FixDetails>,
    pub diff_suggestion: Option<String>,
    pub commands_to_apply: Vec<String>,
    pub targets_error_code: Option<String>,
}

impl Autocorrection {
    /// A proposal with the given description, fix type and confidence, and
    /// every other field absent or empty.
    pub fn new(description: &str, fix_type: FixType, confidence: u32) -> (r: Self)
        ensures
            r.description@ == description@,
            r.fix_type == fix_type,
            r.confidence == confidence,
            r.details is None,
            r.diff_suggestion is None,
            r.commands_to_apply@.len() == 0,
            r.targets_error_code is None,
    {
        Self {
            description: description.to_owned(),
            fix_type,
            confidence,
            details: None,
            diff_suggestion: None,
            commands_to_apply: Vec::new(),
            targets_error_code: None,
        }
    }

    /// The same proposal with the structured details set.
    pub fn with_details(self, details: FixDetails) -> (r: Self)
        ensures
            r == (Self { details: Some(details), ..self }),
    {
        Self { details: Some(details), ..self }
    }

    /// The same proposal with a unified-diff suggestion set.
    pub fn with_diff_suggestion(self, diff: &str) -> (r: Self)
        ensures
            r.diff_suggestion matches Some(s) && s@ == diff@,
            r == (Self { diff_suggestion: r.diff_suggestion, ..self }),
    {
        Self { diff_suggestion: Some(diff.to_owned()), ..self }
    }

    /// The same proposal with one more command appended.
    pub fn add_command(self, command: &str) -> (r: Self)
        ensures
            r.commands_to_apply@.len() == self.commands_to_apply@.len() + 1,
            r.commands_to_apply@.last()@ == command@,
            r.commands_to_apply@.drop_last() == self.commands_to_apply@,
            r == (Self { commands_to_apply: r.commands_to_apply, ..self }),
    {
        let mut commands_to_apply = self.commands_to_apply;
        commands_to_apply.push(command.to_owned());
        Self { commands_to_apply, ..self }
    }

    /// The same proposal with the targeted error code set.
    pub fn with_target_error_code(self, code: &str) -> (r: Self)
        ensures
            r.targets_error_code matches Some(s) && s@ == code@,
            r == (Self { targets_error_code: r.targets_error_code, ..self }),
    {
        Self { targets_error_code: Some(code.to_owned()), ..self }
    }
}

} // verus!
