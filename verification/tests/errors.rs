use connect_timeout::decimal::{push_decimal, push_signed_decimal};
use connect_timeout::error::{io_message, nix_message};
use connect_timeout::os_error::sys_text;
use connect_timeout::{ConnectionError, OsError};
use nix::errno::Errno;
use std::io;

#[test]
fn message_of_a_system_error_names_the_error_number() {
    let error = ConnectionError::Nix(OsError::Sys(Errno::EINPROGRESS as i32));
    assert_eq!(error.message(), "Nix error: Sys(EINPROGRESS)");
    let error = ConnectionError::Nix(OsError::Sys(Errno::ECONNREFUSED as i32));
    assert_eq!(error.message(), "Nix error: Sys(ECONNREFUSED)");
    let error = ConnectionError::Nix(OsError::Sys(Errno::EMFILE as i32));
    assert_eq!(error.message(), "Nix error: Sys(EMFILE)");
}

#[test]
fn message_of_an_unlisted_error_number() {
    let error = ConnectionError::Nix(OsError::Sys(1_000_000));
    assert_eq!(error.message(), "Nix error: Sys(UnknownErrno)");
    let error = ConnectionError::Nix(OsError::Sys(-7));
    assert_eq!(error.message(), "Nix error: Sys(UnknownErrno)");
}

#[test]
fn message_of_an_invalid_path() {
    let error = ConnectionError::Nix(OsError::InvalidPath);
    assert_eq!(error.message(), "Nix error: InvalidPath");
}

#[test]
fn message_of_a_socket_error_carries_the_code() {
    assert_eq!(ConnectionError::SocketError(111).message(), "Socket error: 111");
    assert_eq!(ConnectionError::SocketError(0).message(), "Socket error: 0");
    assert_eq!(ConnectionError::SocketError(7).message(), "Socket error: 7");
    assert_eq!(ConnectionError::SocketError(10).message(), "Socket error: 10");
    assert_eq!(ConnectionError::SocketError(-1).message(), "Socket error: -1");
    assert_eq!(ConnectionError::SocketError(i32::MAX).message(), "Socket error: 2147483647");
    assert_eq!(ConnectionError::SocketError(i32::MIN).message(), "Socket error: -2147483648");
}

#[test]
fn message_of_a_wait_error() {
    assert_eq!(ConnectionError::SelectError.message(), "Select error");
}

#[test]
fn message_of_a_stream_error_ends_with_the_inner_text() {
    let error = ConnectionError::Io(io::Error::new(io::ErrorKind::Other, "boom"));
    assert_eq!(error.message(), "IO error: boom");
    let inner = io::Error::from(io::ErrorKind::UnexpectedEof);
    let expected = format!("IO error: {}", inner);
    assert_eq!(ConnectionError::Io(inner).message(), expected);
}

#[test]
fn messages_of_the_four_kinds_differ() {
    let messages = vec![
        ConnectionError::Nix(OsError::Sys(Errno::EIO as i32)).message(),
        ConnectionError::Io(io::Error::new(io::ErrorKind::Other, "EIO")).message(),
        ConnectionError::SocketError(Errno::EIO as i32).message(),
        ConnectionError::SelectError.message(),
    ];
    for (i, first) in messages.iter().enumerate() {
        for second in messages.iter().skip(i + 1) {
            assert_ne!(first, second);
        }
    }
}

#[test]
fn descriptions_name_the_kind() {
    assert_eq!(ConnectionError::Nix(OsError::Sys(1)).description(), "a nix error");
    assert_eq!(ConnectionError::Nix(OsError::InvalidPath).description(), "a nix error");
    assert_eq!(ConnectionError::SocketError(111).description(), "socket error");
    assert_eq!(ConnectionError::SelectError.description(), "select error");
}

#[test]
fn description_of_a_stream_error_is_that_of_the_inner_error() {
    let inner = io::Error::from(io::ErrorKind::NotFound);
    #[allow(deprecated)]
    let expected = std::error::Error::description(&inner).to_string();
    assert_eq!(ConnectionError::Io(inner).description(), expected);
}

#[test]
fn only_a_stream_error_has_a_cause() {
    let error = ConnectionError::Io(io::Error::new(io::ErrorKind::BrokenPipe, "gone"));
    let cause = error.cause().expect("a stream error has a cause");
    assert_eq!(cause.kind(), io::ErrorKind::BrokenPipe);
    assert_eq!(format!("{}", cause), "gone");

    assert!(ConnectionError::Nix(OsError::Sys(1)).cause().is_none());
    assert!(ConnectionError::Nix(OsError::InvalidPath).cause().is_none());
    assert!(ConnectionError::SocketError(111).cause().is_none());
    assert!(ConnectionError::SelectError.cause().is_none());
}

#[test]
fn errors_convert_into_the_connection_error() {
    let converted = ConnectionError::from(io::Error::new(io::ErrorKind::Other, "inner"));
    assert!(matches!(converted, ConnectionError::Io(_)));
    assert_eq!(converted.message(), "IO error: inner");

    let converted = ConnectionError::from(OsError::Sys(Errno::EPERM as i32));
    assert!(matches!(converted, ConnectionError::Nix(OsError::Sys(code)) if code == Errno::EPERM as i32));

    let converted: ConnectionError = OsError::InvalidPath.into();
    assert!(matches!(converted, ConnectionError::Nix(OsError::InvalidPath)));
}

#[test]
fn in_progress_is_recognised_by_its_number_alone() {
    assert!(OsError::Sys(Errno::EINPROGRESS as i32).is_in_progress());
    assert!(!OsError::Sys(Errno::ECONNREFUSED as i32).is_in_progress());
    assert!(!OsError::Sys(Errno::EAGAIN as i32).is_in_progress());
    assert!(!OsError::Sys(Errno::EALREADY as i32).is_in_progress());
    assert!(!OsError::Sys(0).is_in_progress());
    assert!(!OsError::Sys(-1).is_in_progress());
    assert!(!OsError::InvalidPath.is_in_progress());
}

#[test]
fn text_of_a_system_error() {
    assert_eq!(OsError::Sys(Errno::ETIMEDOUT as i32).text(), "Sys(ETIMEDOUT)");
    assert_eq!(OsError::Sys(0).text(), "Sys(UnknownErrno)");
    assert_eq!(OsError::InvalidPath.text(), "InvalidPath");
}

#[test]
fn message_parts_are_put_together_as_given() {
    assert_eq!(sys_text("ENOENT"), "Sys(ENOENT)");
    assert_eq!(sys_text(""), "Sys()");
    assert_eq!(nix_message("Sys(ENOENT)"), "Nix error: Sys(ENOENT)");
    assert_eq!(io_message("unexpected end of file"), "IO error: unexpected end of file");
    assert_eq!(io_message(""), "IO error: ");
}

#[test]
fn decimal_digits_are_appended() {
    let mut text = String::from("n=");
    push_decimal(&mut text, 0);
    assert_eq!(text, "n=0");
    push_decimal(&mut text, 9);
    push_decimal(&mut text, 10);
    push_decimal(&mut text, 1_234_567_890);
    assert_eq!(text, "n=09101234567890");

    let mut text = String::new();
    push_decimal(&mut text, u32::MAX);
    assert_eq!(text, "4294967295");
    assert_eq!(text, u32::MAX.to_string());
}

#[test]
fn signed_decimal_digits_are_appended() {
    for value in [0, 1, -1, 9, -9, 10, -10, 99, 100, -101, 65_536, i32::MAX, i32::MIN, i32::MIN + 1] {
        let mut text = String::from("<");
        push_signed_decimal(&mut text, value);
        assert_eq!(text, format!("<{}", value));
    }
}
