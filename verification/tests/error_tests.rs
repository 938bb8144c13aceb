use decrust::AklypseError;
use decrust::ErrorCategory;
use decrust::ErrorContext;
use decrust::ErrorSeverity;
use decrust::IoErrorInfo;
use decrust::IoErrorKind;
use decrust::OptionExt;
use decrust::ResultExt;

#[test]
fn test_error_creation_and_context() {
    // Create a basic error
    let err = AklypseError::internal("Test error".to_string(), None);

    // Verify error category
    assert_eq!(err.category(), ErrorCategory::Internal);

    // Add context to the error
    let err_with_context = err.add_context_msg("Additional context");

    if let AklypseError::WithRichContext { context, source, .. } = &err_with_context {
        assert_eq!(context.message, "Additional context");
        if let AklypseError::Internal { message, .. } = &**source {
            assert_eq!(message, "Test error");
        } else {
            panic!("Expected Internal error variant");
        }
    } else {
        panic!("Expected WithRichContext error variant");
    }
}

#[test]
fn test_error_clone() {
    // Create an error with various fields
    let original_err = AklypseError::io(
        IoErrorInfo { kind: IoErrorKind::NotFound, message: "File not found".to_string() },
        Some("/path/to/file".to_string()),
        "read_file".to_string(),
    );

    // Clone the error
    let cloned_err = original_err.clone();

    // Verify category matches
    assert_eq!(cloned_err.category(), ErrorCategory::Io);

    // Verify path and operation were properly cloned
    if let AklypseError::Io { path, operation, .. } = cloned_err {
        assert_eq!(path, Some("/path/to/file".to_string()));
        assert_eq!(operation, "read_file");
    } else {
        panic!("Expected Io error variant");
    }
}

#[test]
fn test_option_ext() {
    // Test with Some value
    let opt_value: Option<i32> = Some(42);
    let result = opt_value.ok_or_missing_value("test value");
    assert!(result.is_ok());
    assert_eq!(result.unwrap(), 42);

    // Test with None value
    let opt_none: Option<i32> = None;
    let result = opt_none.ok_or_missing_value("test value");
    assert!(result.is_err());

    if let Err(AklypseError::MissingValue { item_description, .. }) = result {
        assert_eq!(item_description, "test value");
    } else {
        panic!("Expected MissingValue error variant");
    }
}

#[test]
fn test_multiple_errors() {
    // Create multiple errors
    let err1 = AklypseError::validation(
        "username".to_string(),
        "Username must be at least 3 characters".to_string(),
    );
    let err2 =
        AklypseError::validation("password".to_string(), "Password is too weak".to_string());

    // Combine into MultipleErrors
    let multi_err = AklypseError::multiple_errors(vec![err1, err2]);

    if let AklypseError::MultipleErrors { errors, .. } = multi_err {
        assert_eq!(errors.len(), 2);

        if let AklypseError::Validation { field, .. } = &errors[0] {
            assert_eq!(field, "username");
        } else {
            panic!("Expected Validation error variant");
        }

        if let AklypseError::Validation { field, .. } = &errors[1] {
            assert_eq!(field, "password");
        } else {
            panic!("Expected Validation error variant");
        }
    } else {
        panic!("Expected MultipleErrors error variant");
    }
}

#[test]
fn test_category_sees_through_context() {
    let inner = AklypseError::not_found("file".to_string(), "a.txt".to_string());
    assert_eq!(inner.category(), ErrorCategory::NotFound);
    let wrapped = inner.add_context(ErrorContext::new("outer"));
    assert_eq!(wrapped.category(), ErrorCategory::NotFound);
    let doubly = wrapped.add_context_msg("outermost");
    assert_eq!(doubly.category(), ErrorCategory::NotFound);
}

#[test]
fn test_severity_of_wrapped_error() {
    let base = AklypseError::state_conflict("busy".to_string());
    assert_eq!(base.severity(), ErrorSeverity::Error);
    let ctx = ErrorContext::new("heads up").with_severity(ErrorSeverity::Warning);
    let wrapped = base.add_context(ctx);
    assert_eq!(wrapped.severity(), ErrorSeverity::Warning);
}

#[test]
fn test_clone_preserves_clone_category() {
    let e = AklypseError::parse_error(
        "bad token".to_string(),
        "json".to_string(),
        "line 3".to_string(),
    );
    let c1 = e.clone();
    let c2 = c1.clone();
    assert_eq!(c2.category(), e.category());
    if let AklypseError::Parse { source_message, kind, context_info, .. } = c2 {
        assert_eq!(source_message, "bad token");
        assert_eq!(kind, "json");
        assert_eq!(context_info, "line 3");
    } else {
        panic!("Expected Parse error variant");
    }
}

#[test]
fn test_clone_of_wrapped_error() {
    let inner = AklypseError::timeout("fetch".to_string(), 1500);
    let wrapped = inner.add_context(ErrorContext::new("slow backend"));
    let cloned = wrapped.clone();
    assert_eq!(cloned.category(), ErrorCategory::Timeout);
    if let AklypseError::WithRichContext { context, source, .. } = cloned {
        assert_eq!(context.message, "slow backend");
        if let AklypseError::Timeout { operation, duration_ms, .. } = *source {
            assert_eq!(operation, "fetch");
            assert_eq!(duration_ms, 1500);
        } else {
            panic!("Expected Timeout error variant");
        }
    } else {
        panic!("Expected WithRichContext error variant");
    }
}

#[test]
fn test_result_ext_context_msg() {
    let ok: Result<u32, AklypseError> = Ok(7);
    assert_eq!(ok.context_msg("ignored").unwrap(), 7);

    let err: Result<u32, AklypseError> =
        Err(AklypseError::concurrency("lock poisoned".to_string(), None));
    let wrapped = err.context_msg("while updating");
    if let Err(AklypseError::WithRichContext { context, source, .. }) = wrapped {
        assert_eq!(context.message, "while updating");
        assert_eq!(source.category(), ErrorCategory::Concurrency);
    } else {
        panic!("Expected WithRichContext error variant");
    }
}

#[test]
fn test_option_ext_builder() {
    let missing: Option<u8> = None;
    let r = missing
        .ok_or_snafu_(|| AklypseError::external_service("db".to_string(), "down".to_string(), None));
    if let Err(AklypseError::ExternalService { service_name, message, .. }) = r {
        assert_eq!(service_name, "db");
        assert_eq!(message, "down");
    } else {
        panic!("Expected ExternalService error variant");
    }
}

#[test]
fn test_variant_categories() {
    assert_eq!(
        AklypseError::network("refused".to_string(), Some("http://x".to_string()), "tcp".to_string())
            .category(),
        ErrorCategory::Network
    );
    assert_eq!(
        AklypseError::config("bad".to_string(), None, None).category(),
        ErrorCategory::Configuration
    );
    assert_eq!(
        AklypseError::circuit_breaker_open("cb".to_string(), Some(100)).category(),
        ErrorCategory::CircuitBreaker
    );
    assert_eq!(
        AklypseError::resource_exhausted("conns".to_string(), "10".to_string(), "11".to_string())
            .category(),
        ErrorCategory::ResourceExhaustion
    );
    assert_eq!(
        AklypseError::missing_value("id".to_string()).category(),
        ErrorCategory::Validation
    );
    assert_eq!(
        AklypseError::whatever("odd".to_string(), None).category(),
        ErrorCategory::Unspecified
    );
}
