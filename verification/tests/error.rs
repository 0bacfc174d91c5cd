use postkeeper::error::{Error, IoFailure, Kind};

#[test]
fn error_with_a_message() {
    let e = Error::with_msg(Kind::Internal, "time went backwards");
    assert_eq!(e.kind(), Kind::Internal);
    assert_eq!(e.msg(), Some("time went backwards"));
    assert_eq!(e.describe(), "Internal: time went backwards");
}

#[test]
fn configuration_error() {
    let e = Error::config_err("Invalid Configuration!");
    assert_eq!(e.kind(), Kind::ConfigError);
    assert_eq!(e.msg(), Some("Invalid Configuration!"));
    assert_eq!(e.describe(), "ConfigError: Invalid Configuration!");
    assert_eq!(e, Error::with_msg(Kind::ConfigError, "Invalid Configuration!"));
    assert_ne!(e, Error::with_msg(Kind::Internal, "Invalid Configuration!"));
}

#[test]
fn default_error() {
    let e = Error::default();
    assert_eq!(e.kind(), Kind::Internal);
    assert_eq!(e.msg(), None);
    assert_eq!(e.describe(), "Internal: ");
}

#[test]
fn errors_of_files() {
    assert_eq!(
        Error::from_io(IoFailure::NotFound, "os error 2"),
        Error::config_err("File not found")
    );
    assert_eq!(
        Error::from_io(IoFailure::PermissionDenied, "os error 13"),
        Error::config_err("Permission denied to access file")
    );
    assert_eq!(
        Error::from_io(IoFailure::Other, "Is a directory (os error 21)"),
        Error::config_err("Is a directory (os error 21)")
    );
}
