use rsmedia::error::{Context, RsmediaError};

#[test]
fn test_context_option() {
    let missing: Option<u8> = None;
    assert_eq!(missing.context("no device found").unwrap_err().message(), "no device found");
}

#[test]
fn test_display_variants() {
    assert_eq!(
        RsmediaError::unsupported("qsv on this platform").message(),
        "unsupported operation: qsv on this platform"
    );
    assert_eq!(
        RsmediaError::invalid_config("trailer already written").message(),
        "invalid configuration: trailer already written"
    );
    assert_eq!(RsmediaError::msg("boom").message(), "boom");
}

#[test]
fn test_nested_context_joins() {
    let err = RsmediaError::msg("inner failure");
    let wrapped = err.with_context("outer").with_context("outermost");
    assert_eq!(wrapped.message(), "outermost: outer: inner failure");
}

#[test]
fn test_is_predicates_track_their_variants() {
    let unsupported = RsmediaError::unsupported("nope");
    assert!(unsupported.is_unsupported());
    let wrapped = unsupported.with_context("outer");
    assert!(wrapped.is_unsupported(), "context must not hide the root cause: {wrapped:?}");

    let invalid = RsmediaError::invalid_config("nope");
    assert!(invalid.is_invalid_config());
    let wrapped = invalid.with_context("outer");
    assert!(wrapped.is_invalid_config(), "context must not hide the root cause: {wrapped:?}");
}

#[test]
fn nested_context_keeps_one_layer_over_the_root() {
    let wrapped = RsmediaError::invalid_config("bad")
        .with_context("a")
        .with_context("b")
        .with_context("c");
    match &wrapped {
        RsmediaError::Context { context, source } => {
            assert_eq!(context, "c: b: a");
            assert!(matches!(**source, RsmediaError::InvalidConfig(ref m) if m == "bad"));
        }
        other => panic!("expected a context layer, got {other:?}"),
    }
    assert!(matches!(wrapped.root(), RsmediaError::InvalidConfig(_)));
    assert_eq!(wrapped.message(), "c: b: a: invalid configuration: bad");
}

#[test]
fn result_context_wraps_only_failures() {
    let ok: Result<u8, RsmediaError> = Ok(7);
    assert_eq!(ok.context("unused").unwrap(), 7);
    let failed: Result<u8, RsmediaError> = Err(RsmediaError::FFmpeg("AVERROR(-22)".to_string()));
    let err = failed.with_context(|| "Failed to fill plane sizes".to_string()).unwrap_err();
    assert_eq!(err.message(), "Failed to fill plane sizes: FFmpeg error: AVERROR(-22)");
    let present = Some(3u8);
    assert_eq!(present.with_context(|| panic!("not needed")).unwrap(), 3);
    let io = RsmediaError::Io("disk full".to_string());
    assert_eq!(io.message(), "I/O error: disk full");
}
