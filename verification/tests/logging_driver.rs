//! The logging driver's decisions: severity and message framing.

use linuxcnc_hal::logging::{LogLevel, RtapiLogLevel, RtapiLogger};

#[test]
fn severity_codes_match_the_external_facility() {
    assert_eq!(RtapiLogLevel::Silent.code(), 0);
    assert_eq!(RtapiLogLevel::Error.code(), 1);
    assert_eq!(RtapiLogLevel::Warn.code(), 2);
    assert_eq!(RtapiLogLevel::Info.code(), 3);
    assert_eq!(RtapiLogLevel::Dbg.code(), 4);
    assert_eq!(RtapiLogLevel::All.code(), 5);
}

#[test]
fn facade_levels_map_onto_runtime_levels() {
    assert_eq!(RtapiLogLevel::from(LogLevel::Error), RtapiLogLevel::Error);
    assert_eq!(RtapiLogLevel::from(LogLevel::Warn), RtapiLogLevel::Warn);
    assert_eq!(RtapiLogLevel::from(LogLevel::Info), RtapiLogLevel::Info);
    assert_eq!(RtapiLogLevel::from(LogLevel::Debug), RtapiLogLevel::Dbg);
    assert_eq!(RtapiLogLevel::from(LogLevel::Trace), RtapiLogLevel::All);
}

#[test]
fn every_record_is_forwarded_at_error_severity() {
    let logger = RtapiLogger;
    assert!(logger.enabled());
    let (level, line) = logger.log("spindle at speed");
    assert_eq!(level, 1);
    assert_eq!(line, b"spindle at speed\n".to_vec());
}

#[test]
fn a_message_with_an_embedded_nul_gets_the_fallback_line() {
    let logger = RtapiLogger;
    let (level, line) = logger.log("broken\0message");
    assert_eq!(level, 1);
    assert_eq!(line, b"failed to build log message string".to_vec());
}

#[test]
fn flush_is_a_no_op() {
    RtapiLogger.flush();
}
