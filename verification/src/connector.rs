//! The decisions of a connection attempt.
//!
//! An attempt is a short conversation with the operating system. The
//! [`Connector`] says which call comes next ([`Connector::request`]) and takes
//! the answer ([`Connector::step`]); it never makes a call itself. From the
//! moment a socket descriptor exists, every failure is followed by the request
//! to close that descriptor before the failure is reported.

use crate::address::{AddressFamily, SocketAddress};
use crate::error::ConnectionError;
use crate::os_error::OsError;
use crate::timeout::{TimeVal, Timeout};
use vstd::prelude::*;

verus! {

/// A call the operating system is asked to make.
#[derive(Clone, Copy, Debug, PartialEq, Eq, Structural)]
pub enum Request {
    /// Create a stream socket of this family. The answer carries the new
    /// descriptor.
    Open(AddressFamily),
    /// Put the descriptor into non-blocking mode.
    SetNonBlocking(i32),
    /// Start connecting the descriptor to the address.
    Connect(i32, SocketAddress),
    /// Wait until the descriptor is writable or the deadline has passed. The
    /// readiness set holds `descriptor` and nothing else, and `nfds` is the
    /// number the wait takes as "highest descriptor plus one". The answer
    /// carries the number of descriptors that became ready.
    AwaitWritable { descriptor: i32, nfds: i32, deadline: TimeVal },
    /// Read, and thereby clear, the descriptor's pending socket error. The
    /// answer carries the error code, zero for none.
    QueryError(i32),
    /// Put the descriptor back into blocking mode.
    SetBlocking(i32),
    /// Close the descriptor.
    Close(i32),
}

/// Where a connection attempt stands: the call whose answer is awaited, with
/// the descriptor the attempt holds from the moment it has one.
#[derive(Debug)]
pub enum Stage {
    /// The socket is being created.
    Opening,
    /// The socket is being put into non-blocking mode.
    Unblocking(i32),
    /// The connect has been issued.
    Connecting(i32),
    /// The attempt waits for the socket to become writable.
    Waiting(i32),
    /// The pending socket error is being read.
    Querying(i32),
    /// The socket is being put back into blocking mode.
    Restoring(i32),
    /// The attempt has failed with the given error and its descriptor is
    /// being closed.
    Releasing(i32, ConnectionError),
}

/// What an answer leads to: the next stage, or the end of the attempt with
/// the connected descriptor or the reason of the failure.
#[derive(Debug)]
pub enum Advance {
    /// The attempt goes on at this stage.
    To(Stage),
    /// The attempt is over, with this result.
    Finished(Result<i32, ConnectionError>),
}

impl Stage {
    /// The descriptor the attempt holds at this stage.
    pub open spec fn descriptor(self) -> Option<i32> {
        match self {
            Stage::Opening => None,
            Stage::Unblocking(fd) => Some(fd),
            Stage::Connecting(fd) => Some(fd),
            Stage::Waiting(fd) => Some(fd),
            Stage::Querying(fd) => Some(fd),
            Stage::Restoring(fd) => Some(fd),
            Stage::Releasing(fd, _) => Some(fd),
        }
    }

    /// A held descriptor is a number the system can have handed out, and one
    /// above it still fits the type.
    pub open spec fn well_formed(self) -> bool {
        self.descriptor() matches Some(fd) ==> 0 <= fd < i32::MAX
    }

    /// The call whose answer this stage awaits, for an attempt to reach
    /// `address` within `timeout`.
    pub open spec fn request(self, address: SocketAddress, timeout: Timeout) -> Request {
        match self {
            Stage::Opening => Request::Open(address.spec_family()),
            Stage::Unblocking(fd) => Request::SetNonBlocking(fd),
            Stage::Connecting(fd) => Request::Connect(fd, address),
            Stage::Waiting(fd) => Request::AwaitWritable {
                descriptor: fd,
                nfds: (fd + 1) as i32,
                deadline: timeout.spec_deadline(),
            },
            Stage::Querying(fd) => Request::QueryError(fd),
            Stage::Restoring(fd) => Request::SetBlocking(fd),
            Stage::Releasing(fd, _) => Request::Close(fd),
        }
    }

    /// The answers this stage can be given. A new descriptor is not negative
    /// and not the largest number of its type; a connect does not fail for
    /// want of a valid path, as it takes none.
    pub open spec fn admits(self, reply: Result<i32, OsError>) -> bool {
        match self {
            Stage::Opening => reply matches Ok(fd) ==> 0 <= fd < i32::MAX,
            Stage::Connecting(_) => reply != Err::<i32, OsError>(OsError::InvalidPath),
            _ => true,
        }
    }

    /// How an answer is classified: the failure it amounts to, or none.
    ///
    /// A failed call fails the attempt with the call's own error, with one
    /// exception: a connect that reports `in_progress`, which a non-blocking
    /// socket is expected to do. A wait that does not report exactly one
    /// ready descriptor fails it, and so does a pending socket error other
    /// than zero. No answer to the closing of the descriptor changes what
    /// the attempt has already failed with.
    pub open spec fn failure(
        self,
        reply: Result<i32, OsError>,
        in_progress: bool,
    ) -> Option<ConnectionError> {
        match (self, reply) {
            (Stage::Releasing(_, _), _) => None,
            (Stage::Connecting(_), Err(_)) if in_progress => None,
            (_, Err(error)) => Some(ConnectionError::Nix(error)),
            (Stage::Waiting(_), Ok(ready)) if ready != 1 => Some(ConnectionError::SelectError),
            (Stage::Querying(_), Ok(code)) if code != 0 => Some(ConnectionError::SocketError(code)),
            (_, Ok(_)) => None,
        }
    }

    /// What follows an answer that is no failure.
    pub open spec fn successor(self, reply: Result<i32, OsError>) -> Advance {
        match self {
            Stage::Opening => Advance::To(Stage::Unblocking(reply.unwrap())),
            Stage::Unblocking(fd) => Advance::To(Stage::Connecting(fd)),
            Stage::Connecting(fd) => Advance::To(Stage::Waiting(fd)),
            Stage::Waiting(fd) => Advance::To(Stage::Querying(fd)),
            Stage::Querying(fd) => Advance::To(Stage::Restoring(fd)),
            Stage::Restoring(fd) => Advance::Finished(Ok(fd)),
            Stage::Releasing(_, error) => Advance::Finished(Err(error)),
        }
    }

    /// What an answer leads to, given whether it reports an operation that is
    /// still under way. A failure ends the attempt at once where no
    /// descriptor is held, and otherwise leads to the closing of the
    /// descriptor, after which the failure is reported.
    pub open spec fn advance_classified(
        self,
        reply: Result<i32, OsError>,
        in_progress: bool,
    ) -> Advance {
        match self.failure(reply, in_progress) {
            None => self.successor(reply),
            Some(error) => match self.descriptor() {
                None => Advance::Finished(Err(error)),
                Some(fd) => Advance::To(Stage::Releasing(fd, error)),
            },
        }
    }

    /// What an answer leads to.
    pub open spec fn advance(self, reply: Result<i32, OsError>) -> Advance {
        self.advance_classified(reply, reply_in_progress(reply))
    }
}

/// Whether an answer is the failure that only reports an operation as still
/// under way.
pub open spec fn reply_in_progress(reply: Result<i32, OsError>) -> bool {
    reply matches Err(error) && error.spec_is_in_progress()
}

/// A connection attempt in progress. It cannot be copied, and taking an
/// answer uses it up: the descriptor of an attempt has one holder at a time,
/// the attempt until it ends and the caller from then on.
#[derive(Debug)]
pub struct Connector {
    address: SocketAddress,
    timeout: Timeout,
    stage: Stage,
}

/// The outcome of handing an answer to a [`Connector`].
#[derive(Debug)]
pub enum Step {
    /// The attempt goes on with another call.
    Continue(Connector),
    /// The attempt is over. On success the descriptor is connected, in
    /// blocking mode and free of a pending error, and it now belongs to the
    /// caller; on failure no descriptor is left open.
    Finished(Result<i32, ConnectionError>),
}

impl Step {
    /// This step is what `advance` prescribes for an attempt that was at
    /// `from`: the same attempt at the next stage, or the same final result.
    pub open spec fn follows(self, from: Connector, advance: Advance) -> bool {
        match advance {
            Advance::To(stage) => {
                &&& self matches Step::Continue(next)
                &&& next.stage() == stage
                &&& next.address() == from.address()
                &&& next.timeout() == from.timeout()
            },
            Advance::Finished(result) => self == Step::Finished(result),
        }
    }
}

impl Connector {
    #[verifier::type_invariant]
    spec fn holds_valid_descriptor(self) -> bool {
        self.stage.well_formed()
    }

    /// The address the attempt is to reach.
    pub closed spec fn address(self) -> SocketAddress {
        self.address
    }

    /// The time the attempt may wait for the connection.
    pub closed spec fn timeout(self) -> Timeout {
        self.timeout
    }

    /// Where the attempt stands.
    pub closed spec fn stage(self) -> Stage {
        self.stage
    }

    /// A fresh attempt to reach `address`, waiting no longer than `timeout`.
    /// Its first request is for a socket of the address's family.
    pub fn new(address: SocketAddress, timeout: Timeout) -> (connector: Connector)
        ensures
            connector.address() == address,
            connector.timeout() == timeout,
            connector.stage() == Stage::Opening,
    {
        Connector { address, timeout, stage: Stage::Opening }
    }

    /// The call to make next.
    pub fn request(&self) -> (request: Request)
        ensures
            request == self.stage().request(self.address(), self.timeout()),
    {
        proof {
            use_type_invariant(self);
        }
        match &self.stage {
            Stage::Opening => Request::Open(self.address.family()),
            Stage::Unblocking(fd) => Request::SetNonBlocking(*fd),
            Stage::Connecting(fd) => Request::Connect(*fd, self.address),
            Stage::Waiting(fd) => Request::AwaitWritable {
                descriptor: *fd,
                nfds: *fd + 1,
                deadline: self.timeout.deadline(),
            },
            Stage::Querying(fd) => Request::QueryError(*fd),
            Stage::Restoring(fd) => Request::SetBlocking(*fd),
            Stage::Releasing(fd, _) => Request::Close(*fd),
        }
    }

    /// Whether `reply` can be the answer to the pending request.
    pub fn admits(&self, reply: &Result<i32, OsError>) -> (admitted: bool)
        ensures
            admitted == self.stage().admits(*reply),
    {
        match &self.stage {
            Stage::Opening => match reply {
                Ok(fd) => 0 <= *fd && *fd < i32::MAX,
                Err(_) => true,
            },
            Stage::Connecting(_) => match reply {
                Err(OsError::InvalidPath) => false,
                _ => true,
            },
            _ => true,
        }
    }

    /// Takes the answer to the pending request, `in_progress` telling whether
    /// the answer is the failure that only reports an operation as still
    /// under way. The answer has to be one that the stage admits.
    pub fn step_classified(self, reply: Result<i32, OsError>, in_progress: bool) -> (step: Step)
        requires
            self.stage().admits(reply),
        ensures
            step.follows(self, self.stage().advance_classified(reply, in_progress)),
    {
        proof {
            use_type_invariant(&self);
        }
        let Connector { address, timeout, stage } = self;
        let next = match stage {
            Stage::Opening => match reply {
                Ok(fd) => Stage::Unblocking(fd),
                Err(error) => {
                    return Step::Finished(Err(ConnectionError::Nix(error)));
                },
            },
            Stage::Unblocking(fd) => match reply {
                Ok(_) => Stage::Connecting(fd),
                Err(error) => Stage::Releasing(fd, ConnectionError::Nix(error)),
            },
            Stage::Connecting(fd) => match reply {
                Ok(_) => Stage::Waiting(fd),
                Err(error) => if in_progress {
                    Stage::Waiting(fd)
                } else {
                    Stage::Releasing(fd, ConnectionError::Nix(error))
                },
            },
            Stage::Waiting(fd) => match reply {
                Ok(ready) => if ready == 1 {
                    Stage::Querying(fd)
                } else {
                    Stage::Releasing(fd, ConnectionError::SelectError)
                },
                Err(error) => Stage::Releasing(fd, ConnectionError::Nix(error)),
            },
            Stage::Querying(fd) => match reply {
                Ok(code) => if code == 0 {
                    Stage::Restoring(fd)
                } else {
                    Stage::Releasing(fd, ConnectionError::SocketError(code))
                },
                Err(error) => Stage::Releasing(fd, ConnectionError::Nix(error)),
            },
            Stage::Restoring(fd) => match reply {
                Ok(_) => {
                    return Step::Finished(Ok(fd));
                },
                Err(error) => Stage::Releasing(fd, ConnectionError::Nix(error)),
            },
            Stage::Releasing(_, error) => {
                return Step::Finished(Err(error));
            },
        };
        Step::Continue(Connector { address, timeout, stage: next })
    }

    /// Takes the answer to the pending request and says how the attempt
    /// goes on: with the next call, with the closing of the descriptor after
    /// a failure, or not at all. The answer has to be one that the stage
    /// admits, which [`Connector::admits`] tells.
    pub fn step(self, reply: Result<i32, OsError>) -> (step: Step)
        requires
            self.stage().admits(reply),
        ensures
            step.follows(self, self.stage().advance(reply)),
    {
        let in_progress = match (&self.stage, &reply) {
            (Stage::Connecting(_), Err(error)) => error.is_in_progress(),
            _ => false,
        };
        self.step_classified(reply, in_progress)
    }
}

} // verus!
