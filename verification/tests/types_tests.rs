use decrust::Autocorrection;
use decrust::ErrorContext;
use decrust::ErrorSeverity;
use decrust::ErrorSource;
use decrust::FixDetails;
use decrust::FixType;

#[test]
fn test_error_severity_ordering() {
    assert!(ErrorSeverity::Critical > ErrorSeverity::Error);
    assert!(ErrorSeverity::Error > ErrorSeverity::Warning);
    assert!(ErrorSeverity::Warning > ErrorSeverity::Info);
    assert!(ErrorSeverity::Info > ErrorSeverity::Debug);
}

#[test]
fn test_error_context_building() {
    let context = ErrorContext::new("Test error")
        .with_severity(ErrorSeverity::Warning)
        .with_recovery_suggestion("Try again")
        .with_metadata("request_id", "123456")
        .with_correlation_id("corr-789")
        .with_component("auth_service")
        .add_tag("security");

    assert_eq!(context.message, "Test error");
    assert_eq!(context.severity, ErrorSeverity::Warning);
    assert_eq!(context.recovery_suggestion, Some("Try again".to_string()));
    assert_eq!(context.metadata_get("request_id"), Some("123456".to_string()));
    assert_eq!(context.correlation_id, Some("corr-789".to_string()));
    assert_eq!(context.component, Some("auth_service".to_string()));
    assert_eq!(context.tags.len(), 1);
    assert_eq!(context.tags[0], "security");
}

#[test]
fn test_error_source() {
    let source = ErrorSource::new("src/main.rs", 42, "main")
        .with_column(10)
        .with_function("process_data");

    assert_eq!(source.file, "src/main.rs");
    assert_eq!(source.line, 42);
    assert_eq!(source.module, "main");
    assert_eq!(source.column, Some(10));
    assert_eq!(source.function, Some("process_data".to_string()));
}

#[test]
fn test_fix_details_variants() {
    // Test TextReplace variant
    let text_replace = FixDetails::TextReplace {
        file_path: "src/main.rs".to_string(),
        line_start: 10,
        column_start: 5,
        line_end: 10,
        column_end: 15,
        original_text_snippet: Some("foo(bar)".to_string()),
        replacement_text: "foo(baz)".to_string(),
    };

    // Test ExecuteCommand variant
    let exec_command = FixDetails::ExecuteCommand {
        command: "cargo".to_string(),
        args: vec!["fix".to_string(), "--allow-dirty".to_string()],
        working_directory: Some(".".to_string()),
    };

    // Test SuggestCodeChange variant
    let suggest_code = FixDetails::SuggestCodeChange {
        file_path: "src/lib.rs".to_string(),
        line_hint: 42,
        suggested_code_snippet: "impl Clone for MyStruct {}".to_string(),
        explanation: "Add Clone implementation".to_string(),
    };

    // Verify they're different variants
    assert!(matches!(text_replace, FixDetails::TextReplace { .. }));
    assert!(matches!(exec_command, FixDetails::ExecuteCommand { .. }));
    assert!(matches!(suggest_code, FixDetails::SuggestCodeChange { .. }));
}

#[test]
fn test_autocorrection_building() {
    let autocorrection = Autocorrection::new("Fix parse error", FixType::TextReplacement, 85)
        .with_details(FixDetails::TextReplace {
            file_path: "src/main.rs".to_string(),
            line_start: 10,
            column_start: 5,
            line_end: 10,
            column_end: 15,
            original_text_snippet: Some("foo(bar)".to_string()),
            replacement_text: "foo(baz)".to_string(),
        })
        .with_diff_suggestion("@@ -10,5 +10,5 @@\n-foo(bar)\n+foo(baz)")
        .add_command("cargo check")
        .with_target_error_code("E0001");

    assert_eq!(autocorrection.description, "Fix parse error");
    assert_eq!(autocorrection.fix_type, FixType::TextReplacement);
    assert_eq!(autocorrection.confidence, 85);
    assert!(autocorrection.details.is_some());
    assert_eq!(
        autocorrection.diff_suggestion,
        Some("@@ -10,5 +10,5 @@\n-foo(bar)\n+foo(baz)".to_string())
    );
    assert_eq!(autocorrection.commands_to_apply.len(), 1);
    assert_eq!(autocorrection.commands_to_apply[0], "cargo check");
    assert_eq!(autocorrection.targets_error_code, Some("E0001".to_string()));
}

#[test]
fn test_metadata_later_entry_shadows() {
    let context = ErrorContext::new("shadowing")
        .with_metadata("key", "first")
        .with_metadata("key", "second");
    assert_eq!(context.metadata_get("key"), Some("second".to_string()));
    assert_eq!(context.metadata_get("absent"), None);
}

#[test]
fn test_context_clone_keeps_content() {
    let context = ErrorContext::new("original")
        .with_metadata("a", "1")
        .add_tag("t1")
        .with_component("svc");
    let copy = context.clone();
    assert_eq!(copy.message, "original");
    assert_eq!(copy.metadata_get("a"), Some("1".to_string()));
    assert_eq!(copy.tags, vec!["t1".to_string()]);
    assert_eq!(copy.component, Some("svc".to_string()));
    assert_eq!(copy.timestamp_ms, context.timestamp_ms);
}
