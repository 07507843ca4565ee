//! Connecting a TCP socket within a caller-chosen time limit.
//!
//! A blocking `connect` may keep its caller waiting for minutes. This library
//! holds the decisions of a bounded connect: which system call to make next,
//! how each answer of the operating system is classified, and when the socket
//! descriptor has to be given back. The calls themselves are made by the
//! caller, who hands each answer to the [`Connector`] and receives the next
//! request or the final result.

pub mod address;
pub mod connector;
pub mod decimal;
pub mod error;
pub mod os_error;
pub mod session;
pub mod timeout;

pub use address::{AddressFamily, SocketAddress};
pub use connector::{Advance, Connector, Request, Stage, Step};
pub use error::ConnectionError;
pub use os_error::OsError;
pub use timeout::{TimeVal, Timeout};
