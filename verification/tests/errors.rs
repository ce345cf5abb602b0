use cadence::{ErrorKind, MetricError};
use std::io;

#[test]
fn test_metric_error_kind_io_error() {
    let io_err = io::Error::new(io::ErrorKind::BrokenPipe, "Broken pipe");
    let our_err = MetricError::from(io_err);
    assert_eq!(ErrorKind::IoError, our_err.kind());
}

#[test]
fn test_metric_error_kind_invalid_input() {
    let our_err = MetricError::from((ErrorKind::InvalidInput, "Nope"));
    assert_eq!(ErrorKind::InvalidInput, our_err.kind());
}

#[test]
fn test_metric_error_description_io_error() {
    let io_err = io::Error::new(io::ErrorKind::PermissionDenied, "Permission!");
    let our_err = MetricError::from(io_err);
    assert_eq!("Permission!", our_err.description());
}

#[test]
fn test_metric_error_description_other() {
    let our_err = MetricError::from((ErrorKind::InvalidInput, "Something!"));
    assert_eq!("Something!", our_err.description());
}

#[test]
fn test_metric_error_cause_io_error() {
    let io_err = io::Error::new(io::ErrorKind::TimedOut, "Timeout!");
    let our_err = MetricError::from(io_err);
    assert_eq!("Timeout!", our_err.cause().unwrap().to_string());
}

#[test]
fn test_metric_error_cause_other() {
    let our_err = MetricError::from((ErrorKind::InvalidInput, "Nope!"));
    assert!(our_err.cause().is_none());
}

#[test]
fn io_error_kind_from_pair_has_no_cause() {
    let our_err = MetricError::from((ErrorKind::IoError, "short write"));
    assert_eq!(ErrorKind::IoError, our_err.kind());
    assert_eq!("short write", our_err.description());
    assert!(our_err.cause().is_none());
}
