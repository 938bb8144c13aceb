use decrust::ErrorReportConfig;
use decrust::ErrorReportFormat;
use decrust::ErrorReporter;

#[test]
fn test_error_reporter_plain_format() {
    // The display chain of a test error with no cause
    let chain = vec!["Test error message".to_string()];

    // Create reporter and config
    let reporter = ErrorReporter::new();
    let config = ErrorReportConfig {
        include_message: true,
        include_source_chain: true,
        include_backtrace: false,
        include_rich_context: false,
        include_source_location: false,
        include_severity: false,
        format: ErrorReportFormat::Plain,
        max_chain_depth: None,
        pretty_print_json: false,
        include_diagnostics: false,
    };

    // Generate report as string
    let report = reporter.report_to_string(&chain, &config);

    // Verify report contains error message
    assert!(report.contains("Test error message"));
}

#[test]
fn test_error_reporter_with_source() {
    // The display chain of a nested error
    let chain = vec!["Main error".to_string(), "Source error".to_string()];

    // Create reporter and config
    let reporter = ErrorReporter::new();
    let config = ErrorReportConfig {
        include_message: true,
        include_source_chain: true,
        include_backtrace: false,
        include_rich_context: false,
        include_source_location: false,
        include_severity: false,
        format: ErrorReportFormat::Plain,
        max_chain_depth: None,
        pretty_print_json: false,
        include_diagnostics: false,
    };

    // Generate report as string
    let report = reporter.report_to_string(&chain, &config);

    // Verify report contains both error messages
    assert!(report.contains("Main error"));
    assert!(report.contains("Source error"));
}

#[test]
fn test_error_reporter_json_format() {
    // The display chain of a test error
    let chain = vec!["JSON test error".to_string()];

    // Create reporter and config
    let reporter = ErrorReporter::new();
    let config = ErrorReportConfig { format: ErrorReportFormat::Json, ..Default::default() };

    // Generate report as string
    let report = reporter.report_to_string(&chain, &config);

    // Verify report is JSON formatted
    assert!(report.starts_with("{"));
    assert!(report.ends_with("}\n") || report.ends_with("}"));
    assert!(report.contains("\"error\""));
    assert!(report.contains("JSON test error"));
}

#[test]
fn test_plain_report_exact_output() {
    let chain = vec!["Main error".to_string(), "Source error".to_string()];
    let reporter = ErrorReporter::new();
    let config = ErrorReportConfig::default();
    let report = reporter.report(&chain, &config);
    assert_eq!(report, "Error: Main error\nCaused by: Source error\n");
}

#[test]
fn test_plain_report_depth_limit() {
    let chain =
        vec!["top".to_string(), "mid".to_string(), "deep".to_string(), "deeper".to_string()];
    let reporter = ErrorReporter::new();
    let config =
        ErrorReportConfig { max_chain_depth: Some(1), ..ErrorReportConfig::default() };
    let report = reporter.report(&chain, &config);
    assert_eq!(report, "Error: top\nCaused by: mid\n... (more causes hidden)\n");
}

#[test]
fn test_plain_report_without_chain() {
    let chain = vec!["top".to_string(), "hidden cause".to_string()];
    let reporter = ErrorReporter::new();
    let config =
        ErrorReportConfig { include_source_chain: false, ..ErrorReportConfig::default() };
    let report = reporter.report(&chain, &config);
    assert_eq!(report, "Error: top\n");
}

#[test]
fn test_json_report_escapes_quotes() {
    let chain = vec!["say \"hi\"".to_string()];
    let reporter = ErrorReporter::new();
    let config = ErrorReportConfig { format: ErrorReportFormat::Json, ..Default::default() };
    let report = reporter.report(&chain, &config);
    assert_eq!(report, "{\"error\": \"say \\\"hi\\\"\"}\n");
}

#[test]
fn test_markdown_report_exact_output() {
    let chain = vec!["broken".to_string()];
    let reporter = ErrorReporter::new();
    let config =
        ErrorReportConfig { format: ErrorReportFormat::Markdown, ..Default::default() };
    let report = reporter.report(&chain, &config);
    assert_eq!(report, "## Error\n\n```\nbroken\n```\n");
}

#[test]
fn test_html_report_escapes_angle_brackets() {
    let chain = vec!["<oops>".to_string()];
    let reporter = ErrorReporter::new();
    let config = ErrorReportConfig { format: ErrorReportFormat::Html, ..Default::default() };
    let report = reporter.report(&chain, &config);
    assert_eq!(report, "<div class=\"error\"><pre>&lt;oops&gt;</pre></div>\n");
}
