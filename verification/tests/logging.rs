use matrix_commander::error::Error;
use matrix_commander::logging::{apply_debug_flag, log_filter};
use matrix_commander::options::LogLevel;

#[test]
fn debug_flag_overrides_log_level() {
    assert_eq!(apply_debug_flag(1, Some(vec![LogLevel::Error])), Some(vec![LogLevel::Debug]));
    assert_eq!(apply_debug_flag(3, None), Some(vec![LogLevel::Debug, LogLevel::Debug]));
    assert_eq!(apply_debug_flag(0, Some(vec![LogLevel::Warn])), Some(vec![LogLevel::Warn]));
    assert_eq!(apply_debug_flag(0, None), None);
}

#[test]
fn log_filter_for_one_and_two_levels() {
    assert_eq!(log_filter(&None).unwrap(), None);
    assert_eq!(
        log_filter(&Some(vec![LogLevel::Debug])).unwrap(),
        Some("matrix_commander_rs=Debug".to_string())
    );
    assert_eq!(
        log_filter(&Some(vec![LogLevel::Debug, LogLevel::Error])).unwrap(),
        Some("Error,matrix_commander_rs=Debug".to_string())
    );
}

#[test]
fn log_filter_refuses_none() {
    for levels in [vec![LogLevel::Unset], vec![LogLevel::Info, LogLevel::Unset]] {
        match log_filter(&Some(levels)) {
            Err(e @ Error::UnsupportedCliParameter(_)) => assert_eq!(
                e.message(),
                "Unsupported CLI parameter: Value 'none' not allowed for --log-level argument"
            ),
            _ => panic!("expected an error"),
        }
    }
}
