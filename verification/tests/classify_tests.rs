use petals_core::classify::{
    classify_line, error_signal, progress_stages, stage_message, stage_token, ErrorSignal,
    ProgressStage, TracebackAggregator, clock_desync_message, success_message, join_lines,
    traceback_error_message, incomplete_error_message, import_error_message, auth_error_message,
    stderr_log_line,
};

#[test]
fn connecting_line_emits_connecting_stage() {
    let s = classify_line("Connecting to the DHT...");
    assert!(s.connecting);
    assert!(!s.fatal);
    assert!(!s.clock_desync);
    let stages = progress_stages(&s);
    assert_eq!(stages, vec![ProgressStage::Connecting]);
    assert_eq!(stage_token(ProgressStage::Connecting), "connecting");
    assert_eq!(
        stage_message(ProgressStage::Connecting),
        "Connecting to Petals network..."
    );
}

#[test]
fn clock_desync_line_takes_dedicated_error_path() {
    let s = classify_line("local time must be within 2 minutes");
    assert!(s.clock_desync);
    assert_eq!(error_signal(&s), Some(ErrorSignal::ClockDesync));
    assert_eq!(
        clock_desync_message(),
        "TIME SYNC ERROR: Your system clock is out of sync. Please restart the app and try again."
    );
}

#[test]
fn fatal_line_emits_generic_error() {
    let s = classify_line("2024-01-01 [ERROR] something broke");
    assert!(s.fatal);
    assert_eq!(error_signal(&s), Some(ErrorSignal::Fatal));
}

#[test]
fn benign_compiler_error_is_excluded() {
    let s = classify_line("[ERROR] triton cache miss");
    assert!(!s.fatal);
    assert_eq!(error_signal(&s), None);
}

#[test]
fn clock_desync_wins_over_fatal() {
    let s = classify_line("[ERROR] TIME SYNC ERROR detected");
    assert!(s.fatal);
    assert!(s.clock_desync);
    assert_eq!(error_signal(&s), Some(ErrorSignal::ClockDesync));
}

#[test]
fn success_marker_line() {
    let s = classify_line("✓✓✓ MODEL LOADED SUCCESSFULLY ✓✓✓");
    assert!(s.success);
    assert_eq!(success_message(), "Model loaded successfully");
}

#[test]
fn loaded_blocks_count_as_success() {
    let s = classify_line("Loaded 12 block shards");
    assert!(s.success);
    // "Loaded" alone is not enough
    let s2 = classify_line("Loaded weights");
    assert!(!s2.success);
}

#[test]
fn announcing_needs_both_patterns() {
    let s = classify_line("Announced that blocks 0..7 are joining the swarm");
    assert!(s.announcing);
    let s2 = classify_line("Announced that blocks 0..7 are ready");
    assert!(!s2.announcing);
}

#[test]
fn loading_and_measuring() {
    assert!(classify_line("Loading model blocks").loading);
    assert!(classify_line("Measuring network throughput").loading);
    assert!(!classify_line("idle").loading);
}

#[test]
fn progress_events_keep_fixed_order() {
    let s = classify_line("Connecting to DHT while Loading");
    let stages = progress_stages(&s);
    assert_eq!(
        stages,
        vec![ProgressStage::Connecting, ProgressStage::Loading]
    );
}

#[test]
fn traceback_is_aggregated_into_one_error() {
    let mut agg = TracebackAggregator::new();
    let r1 = agg.push_line(&"Traceback (most recent call last):".to_string());
    assert!(r1.traceback.is_none());
    let r2 = agg.push_line(&"  File \"x.py\", line 1, in <module>".to_string());
    assert!(r2.traceback.is_none());
    let r3 = agg.push_line(&"ValueError: bad value".to_string());
    let buf = r3.traceback.expect("terminator should flush the buffer");
    assert_eq!(
        buf,
        vec![
            "Traceback (most recent call last):".to_string(),
            "  File \"x.py\", line 1, in <module>".to_string(),
            "ValueError: bad value".to_string(),
        ]
    );
    let joined = join_lines(&buf);
    assert_eq!(
        joined,
        "Traceback (most recent call last):\n  File \"x.py\", line 1, in <module>\nValueError: bad value"
    );
    assert_eq!(
        traceback_error_message(&joined),
        format!(
            "Python Error on macOS:\n\n{}\n\nPlease check if all dependencies are installed correctly.",
            joined
        )
    );
}

#[test]
fn indented_error_lines_do_not_terminate() {
    let mut agg = TracebackAggregator::new();
    agg.push_line(&"Traceback (most recent call last):".to_string());
    let r = agg.push_line(&"  raise ValueError: nested Error: text".to_string());
    assert!(r.traceback.is_none());
}

#[test]
fn import_error_outside_traceback() {
    let mut agg = TracebackAggregator::new();
    let r = agg.push_line(&"ModuleNotFoundError: No module named 'peft'".to_string());
    assert!(r.import_error);
    assert!(!r.auth_error);
    assert_eq!(
        import_error_message(&"x".to_string()),
        "Import Error on macOS: x\n\nMissing Python dependencies. Please ensure peft and accelerate are installed:\npip install peft accelerate"
    );
}

#[test]
fn auth_error_outside_traceback() {
    let mut agg = TracebackAggregator::new();
    let r = agg.push_line(&"HTTP 401 Unauthorized".to_string());
    assert!(!r.import_error);
    assert!(r.auth_error);
    let msg = auth_error_message(&"401".to_string());
    assert!(msg.starts_with("Authentication Error: 401. "));
}

#[test]
fn terminator_line_can_also_fire_import_error() {
    let mut agg = TracebackAggregator::new();
    agg.push_line(&"Traceback (most recent call last):".to_string());
    let r = agg.push_line(&"ModuleNotFoundError: No module named 'peft'".to_string());
    assert!(r.traceback.is_some());
    assert!(r.import_error);
}

#[test]
fn unterminated_buffer_is_flushed_at_stream_end() {
    let mut agg = TracebackAggregator::new();
    agg.push_line(&"Traceback (most recent call last):".to_string());
    agg.push_line(&"  File \"y.py\"".to_string());
    let flushed = agg.finish().expect("partial buffer should be flushed");
    assert_eq!(flushed.len(), 2);
    let joined = join_lines(&flushed);
    assert_eq!(
        incomplete_error_message(&joined),
        format!(
            "Incomplete Error on macOS:\n\n{}\n\nThe process may have terminated unexpectedly.",
            joined
        )
    );
    assert!(agg.finish().is_none());
}

#[test]
fn stderr_lines_are_tagged_for_the_log() {
    assert_eq!(stderr_log_line(&"boom".to_string()), "[STDERR] boom");
}
