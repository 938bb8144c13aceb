use decrust::AklypseError;
use decrust::AutocorrectableError;
use decrust::Decrust;
use decrust::DiagnosticResult;
use decrust::ErrorContext;
use decrust::ErrorLocation;
use decrust::FixDetails;
use decrust::FixType;
use decrust::IoErrorInfo;
use decrust::IoErrorKind;

#[test]
fn test_decrust_suggest_autocorrection_for_notfound() {
    // Create an engine
    let decrust = Decrust::new();

    // Create a NotFound error
    let error =
        AklypseError::not_found("file".to_string(), "/path/to/missing_file.txt".to_string());

    // Use the error via the AutocorrectableError trait
    let autocorrection = error.suggest_autocorrection(&decrust, None);

    // Verify the autocorrection
    assert!(autocorrection.is_some(), "Expected autocorrection for NotFound error");

    if let Some(correction) = autocorrection {
        assert_eq!(correction.fix_type, FixType::ExecuteCommand);
        assert!(correction.description.contains("Resource type 'file'"));
        assert!(correction.description.contains("/path/to/missing_file.txt"));
        assert!(correction.commands_to_apply.iter().any(|cmd| cmd.contains("touch")));
    }
}

#[test]
fn test_decrust_get_diagnostic_info() {
    // Create a diagnostic result
    let diagnostic = DiagnosticResult {
        primary_location: Some(ErrorLocation::new("src/main.rs", 42, 10, "main")),
        expansion_trace: Vec::new(),
        suggested_fixes: vec!["Replace `foo` with `bar`".to_string()],
        original_message: Some("Invalid syntax".to_string()),
        diagnostic_code: Some("E0001".to_string()),
    };

    // Create context with the diagnostic info
    let context = ErrorContext::new("Error with diagnostic info").with_diagnostic_info(diagnostic);

    // Create a base error
    let base_error = AklypseError::io(
        IoErrorInfo { kind: IoErrorKind::InvalidData, message: "Invalid data".to_string() },
        Some("src/main.rs".to_string()),
        "parse".to_string(),
    );

    // Add rich context with diagnostic info
    let error = base_error.add_context(context);

    // Get diagnostic info via the trait
    let diagnostic_info = error.get_diagnostic_info();

    // Verify diagnostic info
    assert!(diagnostic_info.is_some(), "Expected diagnostic info");

    if let Some(info) = diagnostic_info {
        assert_eq!(info.suggested_fixes.len(), 1);
        assert_eq!(info.suggested_fixes[0], "Replace `foo` with `bar`");
        assert_eq!(info.diagnostic_code, Some("E0001".to_string()));

        if let Some(location) = &info.primary_location {
            assert_eq!(location.file, "src/main.rs");
            assert_eq!(location.line, 42);
        } else {
            panic!("Expected primary location in diagnostic info");
        }
    }
}

#[test]
fn test_autocorrection_for_embedded_diagnostic() {
    // Create an engine
    let decrust = Decrust::new();

    // Create a diagnostic result with suggested fixes
    let diagnostic = DiagnosticResult {
        primary_location: Some(ErrorLocation::new("src/main.rs", 42, 10, "main")),
        expansion_trace: Vec::new(),
        suggested_fixes: vec!["Fix: add semicolon".to_string()],
        original_message: Some("Missing semicolon".to_string()),
        diagnostic_code: Some("E0001".to_string()),
    };

    // Create context with the diagnostic info
    let context = ErrorContext::new("Syntax error").with_diagnostic_info(diagnostic);

    // Create a base error
    let base_error = AklypseError::io(
        IoErrorInfo { kind: IoErrorKind::InvalidData, message: "Parser error".to_string() },
        Some("src/main.rs".to_string()),
        "parse".to_string(),
    );

    // Add rich context with diagnostic info
    let error = base_error.add_context(context);

    // Get autocorrection via the trait
    let autocorrection = error.suggest_autocorrection(&decrust, None);

    // Verify autocorrection uses diagnostic info
    assert!(autocorrection.is_some(), "Expected autocorrection from diagnostic info");

    if let Some(correction) = autocorrection {
        assert_eq!(correction.fix_type, FixType::TextReplacement);
        assert!(correction.description.contains("Apply fix suggested by diagnostic tool"));
        assert_eq!(correction.targets_error_code, Some("E0001".to_string()));
        assert_eq!(correction.confidence, 85);

        // The replacement is anchored at the primary location; the span is
        // one character per non-newline character of the fix text
        if let Some(FixDetails::TextReplace {
            file_path,
            line_start,
            column_start,
            line_end,
            column_end,
            original_text_snippet,
            replacement_text,
        }) = correction.details
        {
            assert_eq!(file_path, "src/main.rs");
            assert_eq!(line_start, 42);
            assert_eq!(column_start, 10);
            assert_eq!(line_end, 42);
            assert_eq!(column_end, 10 + "Fix: add semicolon".len());
            assert_eq!(original_text_snippet, Some("Missing semicolon".to_string()));
            assert_eq!(replacement_text, "Fix: add semicolon");
        } else {
            panic!("Expected TextReplace details");
        }
    }
}

#[test]
fn test_io_not_found_suggests_creation_commands() {
    let decrust = Decrust::new();
    let error = AklypseError::io(
        IoErrorInfo {
            kind: IoErrorKind::NotFound,
            message: "No such file or directory".to_string(),
        },
        Some("/nonexistent_dir_for_this_suite/file.txt".to_string()),
        "open".to_string(),
    );

    let correction = decrust
        .suggest_autocorrection(&error, None)
        .expect("Expected autocorrection for an Io NotFound error");
    assert_eq!(correction.fix_type, FixType::ExecuteCommand);
    assert_eq!(correction.confidence, 65);
    assert!(correction
        .commands_to_apply
        .iter()
        .any(|cmd| cmd == "mkdir -p \"/nonexistent_dir_for_this_suite\""));
    assert!(correction
        .commands_to_apply
        .iter()
        .any(|cmd| cmd == "touch \"/nonexistent_dir_for_this_suite/file.txt\""));
    assert_eq!(correction.targets_error_code, Some("Io".to_string()));
}

#[test]
fn test_io_permission_denied_suggests_review() {
    let decrust = Decrust::new();
    let error = AklypseError::io(
        IoErrorInfo { kind: IoErrorKind::PermissionDenied, message: "denied".to_string() },
        Some("/etc/protected".to_string()),
        "write".to_string(),
    );

    let correction = decrust.suggest_autocorrection(&error, None).expect("Expected a proposal");
    assert_eq!(correction.fix_type, FixType::ConfigurationChange);
    assert!(correction.commands_to_apply.is_empty());
    if let Some(FixDetails::SuggestCodeChange { file_path, .. }) = correction.details {
        assert_eq!(file_path, "/etc/protected");
    } else {
        panic!("Expected SuggestCodeChange details");
    }
}

#[test]
fn test_config_error_suggests_review() {
    let decrust = Decrust::new();
    let error = AklypseError::config("missing key 'port'".to_string(), None, None);

    let correction = decrust.suggest_autocorrection(&error, None).expect("Expected a proposal");
    assert_eq!(correction.fix_type, FixType::ConfigurationChange);
    assert_eq!(correction.confidence, 70);
    if let Some(FixDetails::SuggestCodeChange { file_path, line_hint, .. }) = correction.details {
        assert_eq!(file_path, "config.toml");
        assert_eq!(line_hint, 1);
    } else {
        panic!("Expected SuggestCodeChange details");
    }
}

#[test]
fn test_no_suggestion_for_other_categories() {
    let decrust = Decrust::new();
    let error = AklypseError::validation("name".to_string(), "too short".to_string());
    assert!(decrust.suggest_autocorrection(&error, None).is_none());

    let error = AklypseError::timeout("call".to_string(), 100);
    assert!(decrust.suggest_autocorrection(&error, None).is_none());
}

#[test]
fn test_not_found_other_resource_is_manual() {
    let decrust = Decrust::new();
    let error = AklypseError::not_found("user".to_string(), "alice".to_string());
    let correction = decrust.suggest_autocorrection(&error, None).expect("Expected a proposal");
    assert_eq!(correction.fix_type, FixType::ManualInterventionRequired);
    assert!(correction.commands_to_apply.is_empty());
    assert!(correction.details.is_none());
    assert!(correction.description.contains("Resource type 'user'"));
}
