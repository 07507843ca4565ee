//! The ways in which a connection attempt fails.

use crate::decimal::{push_signed_decimal, signed_decimal};
use crate::os_error::OsError;
use vstd::prelude::*;
use vstd::std_specs::convert::FromSpecImpl;

verus! {

/// `std::io::Error`, taken as an opaque value: it is carried, handed out and
/// rendered, and nothing is known of what it holds.
#[verifier::external_type_specification]
#[verifier::external_body]
pub struct ExIoError(std::io::Error);

/// Why no connection was established.
#[derive(Debug)]
pub enum ConnectionError {
    /// A system call failed.
    Nix(OsError),
    /// A stream operation failed; the inner error is its cause.
    Io(std::io::Error),
    /// The connection attempt ended with this pending socket error.
    SocketError(i32),
    /// The readiness wait ended without reporting the socket as ready.
    SelectError,
}

impl From<std::io::Error> for ConnectionError {
    fn from(err: std::io::Error) -> (error: ConnectionError) {
        ConnectionError::Io(err)
    }
}

impl FromSpecImpl<std::io::Error> for ConnectionError {
    open spec fn obeys_from_spec() -> bool {
        true
    }

    open spec fn from_spec(err: std::io::Error) -> ConnectionError {
        ConnectionError::Io(err)
    }
}

impl From<OsError> for ConnectionError {
    fn from(err: OsError) -> (error: ConnectionError) {
        ConnectionError::Nix(err)
    }
}

impl FromSpecImpl<OsError> for ConnectionError {
    open spec fn obeys_from_spec() -> bool {
        true
    }

    open spec fn from_spec(err: OsError) -> ConnectionError {
        ConnectionError::Nix(err)
    }
}

/// Renders a stream error with `std::io::Error`'s `Display` impl. What the
/// text is depends on the error and, for an error of the system, on the
/// system's own wording, so nothing is claimed of it.
#[verifier::external_body]
fn io_error_text(err: &std::io::Error) -> (text: String) {
    format!("{}", err)
}

/// Asks a stream error for its short description, with
/// `std::error::Error::description`. Nothing is claimed of the text.
#[allow(deprecated)]
#[verifier::external_body]
fn io_error_description(err: &std::io::Error) -> (text: &str) {
    std::error::Error::description(err)
}

/// The message of a stream failure whose inner error reads `inner`.
pub fn io_message(inner: &str) -> (message: String)
    ensures
        message@ == "IO error: "@ + inner@,
{
    let mut message = String::from_str("IO error: ");
    message.append(inner);
    message
}

/// The message of a failed system call that reads `inner`.
pub fn nix_message(inner: &str) -> (message: String)
    ensures
        message@ == "Nix error: "@ + inner@,
{
    let mut message = String::from_str("Nix error: ");
    message.append(inner);
    message
}

impl ConnectionError {
    /// What the message of this error is known to be. For a failed system
    /// call, a pending socket error and a failed wait this is the whole
    /// message; of a stream failure it is the beginning, which the text of the
    /// inner error follows.
    pub open spec fn message_head(&self) -> Seq<char> {
        match self {
            ConnectionError::Nix(error) => "Nix error: "@ + error.spec_text(),
            ConnectionError::Io(_) => "IO error: "@,
            ConnectionError::SocketError(code) => "Socket error: "@ + signed_decimal(*code as int),
            ConnectionError::SelectError => "Select error"@,
        }
    }

    /// Whether `message` can be the message of this error.
    pub open spec fn renders_as(&self, message: Seq<char>) -> bool {
        if self is Io {
            self.message_head().is_prefix_of(message)
        } else {
            message == self.message_head()
        }
    }

    /// The error as a message for a reader.
    pub fn message(&self) -> (message: String)
        ensures
            self.renders_as(message@),
    {
        match self {
            ConnectionError::Nix(error) => {
                let inner = error.text();
                nix_message(inner.as_str())
            },
            ConnectionError::Io(err) => {
                let inner = io_error_text(err);
                io_message(inner.as_str())
            },
            ConnectionError::SocketError(code) => {
                let mut message = String::from_str("Socket error: ");
                push_signed_decimal(&mut message, *code);
                message
            },
            ConnectionError::SelectError => String::from_str("Select error"),
        }
    }

    /// Errors of the same kind: both failed system calls, both stream
    /// failures, both pending socket errors or both failed waits.
    pub open spec fn same_kind(&self, other: &ConnectionError) -> bool {
        match (self, other) {
            (ConnectionError::Nix(_), ConnectionError::Nix(_)) => true,
            (ConnectionError::Io(_), ConnectionError::Io(_)) => true,
            (ConnectionError::SocketError(_), ConnectionError::SocketError(_)) => true,
            (ConnectionError::SelectError, ConnectionError::SelectError) => true,
            _ => false,
        }
    }

    /// The message tells the kind of error: errors of different kinds never
    /// read alike, whatever they carry.
    pub proof fn lemma_messages_tell_kinds_apart(
        first: ConnectionError,
        second: ConnectionError,
        first_message: Seq<char>,
        second_message: Seq<char>,
    )
        requires
            first.renders_as(first_message),
            second.renders_as(second_message),
            !first.same_kind(&second),
        ensures
            first_message != second_message,
    {
        first.lemma_message_begins(first_message);
        second.lemma_message_begins(second_message);
    }

    /// The first two characters of a message, by the kind of error.
    proof fn lemma_message_begins(self, message: Seq<char>)
        requires
            self.renders_as(message),
        ensures
            message.len() >= 2,
            self is Nix ==> message[0] == 'N' && message[1] == 'i',
            self is Io ==> message[0] == 'I' && message[1] == 'O',
            self is SocketError ==> message[0] == 'S' && message[1] == 'o',
            self is SelectError ==> message[0] == 'S' && message[1] == 'e',
    {
        reveal_strlit("Nix error: ");
        reveal_strlit("IO error: ");
        reveal_strlit("Socket error: ");
        reveal_strlit("Select error");
        let head = self.message_head();
        assert(head.len() >= 2);
        assert(head.is_prefix_of(message));
        assert(message[0] == head[0] && message[1] == head[1]);
    }

    /// What the short description of this error is, where it is fixed: the
    /// description of a stream failure is that of its inner error.
    pub open spec fn fixed_description(&self) -> Option<Seq<char>> {
        match self {
            ConnectionError::Nix(_) => Some("a nix error"@),
            ConnectionError::Io(_) => None,
            ConnectionError::SocketError(_) => Some("socket error"@),
            ConnectionError::SelectError => Some("select error"@),
        }
    }

    /// A short description of the kind of error.
    pub fn description(&self) -> (text: &str)
        ensures
            self.fixed_description() matches Some(fixed) ==> text@ == fixed,
    {
        match self {
            ConnectionError::Nix(_) => "a nix error",
            ConnectionError::Io(err) => io_error_description(err),
            ConnectionError::SocketError(_) => "socket error",
            ConnectionError::SelectError => "select error",
        }
    }

    /// The inner error that caused this one: only a stream failure has one.
    pub open spec fn spec_cause(&self) -> Option<&std::io::Error> {
        match self {
            ConnectionError::Io(err) => Some(err),
            _ => None,
        }
    }

    /// The inner error that caused this one, if there is one.
    #[verifier::when_used_as_spec(spec_cause)]
    pub fn cause(&self) -> (cause: Option<&std::io::Error>)
        ensures
            cause == self.spec_cause(),
    {
        match self {
            ConnectionError::Io(err) => Some(err),
            _ => None,
        }
    }
}

} // verus!
