//! Whole connection attempts, run against given answers of the operating
//! system, and what holds of every such run.
//!
//! [`run`] puts the connector's requests and steps together the way a caller
//! does, [`verdict`] and [`calls`] say outright what an attempt must come to,
//! and the lemmas show that the two agree and what follows for the
//! descriptors that are left open. [`rehearse`] is the same loop in
//! executable form: an attempt without an operating system, for callers who
//! want to try what they build on top of it.

use crate::address::SocketAddress;
use crate::connector::{Advance, Connector, Request, Stage, Step};
use crate::error::ConnectionError;
use crate::os_error::OsError;
use crate::timeout::{lemma_deadline_within_timeout, Timeout};
use vstd::prelude::*;

verus! {

/// What the operating system answers to each call of an attempt, were the
/// call made.
#[derive(Clone, Copy, Debug)]
pub struct Answers {
    pub open: Result<i32, OsError>,
    pub set_non_blocking: Result<i32, OsError>,
    pub connect: Result<i32, OsError>,
    pub wait: Result<i32, OsError>,
    pub query: Result<i32, OsError>,
    pub set_blocking: Result<i32, OsError>,
    pub close: Result<i32, OsError>,
}

impl Answers {
    /// The answer to a request.
    pub open spec fn spec_to(&self, request: Request) -> Result<i32, OsError> {
        match request {
            Request::Open(_) => self.open,
            Request::SetNonBlocking(_) => self.set_non_blocking,
            Request::Connect(_, _) => self.connect,
            Request::AwaitWritable { .. } => self.wait,
            Request::QueryError(_) => self.query,
            Request::SetBlocking(_) => self.set_blocking,
            Request::Close(_) => self.close,
        }
    }

    /// The answer to a request.
    #[verifier::when_used_as_spec(spec_to)]
    pub fn to(&self, request: Request) -> (reply: Result<i32, OsError>)
        ensures
            reply == self.spec_to(request),
    {
        match request {
            Request::Open(_) => self.open,
            Request::SetNonBlocking(_) => self.set_non_blocking,
            Request::Connect(_, _) => self.connect,
            Request::AwaitWritable { .. } => self.wait,
            Request::QueryError(_) => self.query,
            Request::SetBlocking(_) => self.set_blocking,
            Request::Close(_) => self.close,
        }
    }

    /// The answers are such as a connector accepts: a new descriptor is in
    /// range, and the connect does not complain of a path.
    pub open spec fn admissible(&self) -> bool {
        &&& Stage::Opening.admits(self.open)
        &&& self.connect != Err::<i32, OsError>(OsError::InvalidPath)
    }

    /// Whether the answers are such as a connector accepts.
    #[verifier::when_used_as_spec(admissible)]
    pub fn is_admissible(&self) -> (admissible: bool)
        ensures
            admissible == self.admissible(),
    {
        let open_in_range = match self.open {
            Ok(fd) => 0 <= fd && fd < i32::MAX,
            Err(_) => true,
        };
        let connect_takes_no_path = match self.connect {
            Err(OsError::InvalidPath) => false,
            _ => true,
        };
        open_in_range && connect_takes_no_path
    }

    /// The connect went through at once or was reported as under way.
    pub open spec fn connect_proceeds(self) -> bool {
        self.connect matches Err(error) ==> error.spec_is_in_progress()
    }

    /// Every call is answered as it is when a listener accepts the
    /// connection, with `fd` as the new descriptor.
    pub open spec fn favourable(self, fd: i32) -> bool {
        &&& self.open == Ok::<i32, OsError>(fd)
        &&& self.set_non_blocking is Ok
        &&& self.connect_proceeds()
        &&& self.wait == Ok::<i32, OsError>(1)
        &&& self.query == Ok::<i32, OsError>(0)
        &&& self.set_blocking is Ok
    }

    /// The same answers, but for the number of the new descriptor.
    pub open spec fn same_but_descriptor(self, other: Answers) -> bool {
        &&& self.open is Ok <==> other.open is Ok
        &&& self.open is Err ==> self.open == other.open
        &&& self.set_non_blocking == other.set_non_blocking
        &&& self.connect == other.connect
        &&& self.wait == other.wait
        &&& self.query == other.query
        &&& self.set_blocking == other.set_blocking
    }
}

/// The index of the first call whose answer fails the attempt, counting the
/// six calls of a successful attempt from zero; `None` where none fails.
pub open spec fn failing_call(answers: Answers) -> Option<nat> {
    if answers.open is Err {
        Some(0)
    } else if answers.set_non_blocking is Err {
        Some(1)
    } else if !answers.connect_proceeds() {
        Some(2)
    } else if answers.wait != Ok::<i32, OsError>(1) {
        Some(3)
    } else if answers.query != Ok::<i32, OsError>(0) {
        Some(4)
    } else if answers.set_blocking is Err {
        Some(5)
    } else {
        None
    }
}

/// What an attempt comes to: the new descriptor where no call fails, and
/// otherwise the failure of the first call that fails. A failed call gives
/// its own error; a wait that succeeds without exactly one ready descriptor
/// gives the wait error; a pending socket error gives the socket error with
/// its code.
pub open spec fn verdict(answers: Answers) -> Result<i32, ConnectionError> {
    match failing_call(answers) {
        None => Ok(answers.open.unwrap()),
        Some(call) => Err(
            if call == 0 {
                ConnectionError::Nix(answers.open->Err_0)
            } else if call == 1 {
                ConnectionError::Nix(answers.set_non_blocking->Err_0)
            } else if call == 2 {
                ConnectionError::Nix(answers.connect->Err_0)
            } else if call == 3 {
                match answers.wait {
                    Err(error) => ConnectionError::Nix(error),
                    Ok(_) => ConnectionError::SelectError,
                }
            } else if call == 4 {
                match answers.query {
                    Err(error) => ConnectionError::Nix(error),
                    Ok(code) => ConnectionError::SocketError(code),
                }
            } else {
                ConnectionError::Nix(answers.set_blocking->Err_0)
            },
        ),
    }
}

/// The six calls of a successful attempt on descriptor `fd`, in their order:
/// create the socket, make it non-blocking, connect it to the address, wait
/// for it no longer than the timeout allows, read its pending error, make it
/// blocking again.
pub open spec fn successful_calls(address: SocketAddress, timeout: Timeout, fd: i32) -> Seq<
    Request,
> {
    seq![
        Request::Open(address.spec_family()),
        Request::SetNonBlocking(fd),
        Request::Connect(fd, address),
        Request::AwaitWritable {
            descriptor: fd,
            nfds: (fd + 1) as i32,
            deadline: timeout.spec_deadline(),
        },
        Request::QueryError(fd),
        Request::SetBlocking(fd),
    ]
}

/// The calls an attempt makes: those of a successful attempt up to and with
/// the first that fails, and then, if a descriptor was created, the call that
/// closes it.
pub open spec fn calls(address: SocketAddress, timeout: Timeout, answers: Answers) -> Seq<
    Request,
> {
    match failing_call(answers) {
        None => successful_calls(address, timeout, answers.open.unwrap()),
        Some(call) => if call == 0 {
            seq![Request::Open(address.spec_family())]
        } else {
            let fd = answers.open.unwrap();
            successful_calls(address, timeout, fd).take(call as int + 1).push(Request::Close(fd))
        },
    }
}

/// The socket descriptors that are open, and those among them that are in
/// non-blocking mode.
pub struct Sockets {
    pub open: Set<int>,
    pub non_blocking: Set<int>,
}

impl Sockets {
    /// No descriptor is open.
    pub open spec fn none() -> Sockets {
        Sockets { open: Set::empty(), non_blocking: Set::empty() }
    }

    /// Only an open descriptor has a mode.
    pub open spec fn well_formed(self) -> bool {
        self.non_blocking.subset_of(self.open)
    }

    /// The descriptors after a call has been answered. Creating a socket
    /// opens the descriptor that the answer carries, in blocking mode; a mode
    /// changes where the call succeeds; closing gives the descriptor back
    /// whatever the answer.
    pub open spec fn after(self, request: Request, reply: Result<i32, OsError>) -> Sockets {
        match request {
            Request::Open(_) => match reply {
                Ok(fd) => Sockets {
                    open: self.open.insert(fd as int),
                    non_blocking: self.non_blocking.remove(fd as int),
                },
                Err(_) => self,
            },
            Request::SetNonBlocking(fd) => if reply is Ok {
                Sockets { non_blocking: self.non_blocking.insert(fd as int), ..self }
            } else {
                self
            },
            Request::SetBlocking(fd) => if reply is Ok {
                Sockets { non_blocking: self.non_blocking.remove(fd as int), ..self }
            } else {
                self
            },
            Request::Close(fd) => Sockets {
                open: self.open.remove(fd as int),
                non_blocking: self.non_blocking.remove(fd as int),
            },
            _ => self,
        }
    }

    /// The system hands out no descriptor that is open already.
    pub open spec fn can_answer(self, answers: Answers) -> bool {
        answers.open matches Ok(fd) ==> !self.open.contains(fd as int)
    }
}

/// What a run of an attempt has come to.
pub struct Run {
    /// The final result, or `None` where the run was cut short.
    pub result: Option<Result<i32, ConnectionError>>,
    /// The calls that were made, in their order.
    pub requests: Seq<Request>,
    /// The descriptors after the last call.
    pub sockets: Sockets,
}

/// Runs an attempt from `stage` on: makes the call the stage asks for, takes
/// the answer, and goes on from the stage this leads to, for `limit` calls at
/// most.
pub open spec fn run(
    stage: Stage,
    address: SocketAddress,
    timeout: Timeout,
    answers: Answers,
    sockets: Sockets,
    limit: nat,
) -> Run
    decreases limit,
{
    if limit == 0 {
        Run { result: None, requests: Seq::empty(), sockets }
    } else {
        let request = stage.request(address, timeout);
        let reply = answers.spec_to(request);
        let sockets = sockets.after(request, reply);
        match stage.advance(reply) {
            Advance::Finished(result) => Run {
                result: Some(result),
                requests: seq![request],
                sockets,
            },
            Advance::To(next) => {
                let rest = run(next, address, timeout, answers, sockets, (limit - 1) as nat);
                Run {
                    result: rest.result,
                    requests: seq![request] + rest.requests,
                    sockets: rest.sockets,
                }
            },
        }
    }
}

/// The most calls an attempt makes: the six of a successful attempt and the
/// closing of the descriptor where the last of them fails.
pub open spec fn max_calls() -> nat {
    7
}

/// A whole attempt to reach `address` within `timeout`.
pub open spec fn attempt(
    address: SocketAddress,
    timeout: Timeout,
    answers: Answers,
    sockets: Sockets,
) -> Run {
    run(Stage::Opening, address, timeout, answers, sockets, max_calls())
}

/// Every attempt ends within seven calls, with the result that [`verdict`]
/// states and after the calls that [`calls`] states, whatever descriptors are
/// open besides.
pub proof fn lemma_attempt_ends_as_stated(
    address: SocketAddress,
    timeout: Timeout,
    answers: Answers,
    sockets: Sockets,
)
    requires
        answers.admissible(),
    ensures
        attempt(address, timeout, answers, sockets).result == Some(verdict(answers)),
        attempt(address, timeout, answers, sockets).requests == calls(address, timeout, answers),
        calls(address, timeout, answers).len() <= max_calls(),
{
    reveal_with_fuel(run, 8);
    let made = attempt(address, timeout, answers, sockets).requests;
    assert(made =~= calls(address, timeout, answers));
}

/// An attempt waits at most once, as its fourth call, and then for the one
/// descriptor it holds and no longer than the timeout allows. No other call
/// of an attempt waits.
pub proof fn lemma_waits_once_within_timeout(
    address: SocketAddress,
    timeout: Timeout,
    answers: Answers,
    call: int,
)
    requires
        0 <= call < calls(address, timeout, answers).len(),
        calls(address, timeout, answers)[call] is AwaitWritable,
    ensures
        call == 3,
        answers.open is Ok,
        calls(address, timeout, answers)[call] == (Request::AwaitWritable {
            descriptor: answers.open.unwrap(),
            nfds: (answers.open.unwrap() + 1) as i32,
            deadline: timeout.spec_deadline(),
        }),
        timeout.spec_deadline().is_normal(),
        timeout.spec_deadline().micros() <= timeout.micros(),
{
    lemma_deadline_within_timeout(timeout);
}

/// Descriptor accounting. After an attempt, the open descriptors are those
/// that were open before it and, where it succeeded, the one it returns: a
/// failed attempt leaves nothing behind, whichever call failed. The modes of
/// the other descriptors are untouched, and a returned descriptor is in
/// blocking mode.
pub proof fn lemma_descriptor_accounting(
    address: SocketAddress,
    timeout: Timeout,
    answers: Answers,
    sockets: Sockets,
)
    requires
        answers.admissible(),
        sockets.well_formed(),
        sockets.can_answer(answers),
    ensures
        ({
            let after = attempt(address, timeout, answers, sockets).sockets;
            match verdict(answers) {
                Ok(fd) => {
                    &&& after.open == sockets.open.insert(fd as int)
                    &&& after.non_blocking == sockets.non_blocking
                    &&& !after.non_blocking.contains(fd as int)
                },
                Err(_) => after == sockets,
            }
        }),
        attempt(address, timeout, answers, sockets).sockets.well_formed(),
{
    reveal_with_fuel(run, 8);
    let after = attempt(address, timeout, answers, sockets).sockets;
    match verdict(answers) {
        Ok(fd) => {
            assert(after.open =~= sockets.open.insert(fd as int));
            assert(after.non_blocking =~= sockets.non_blocking);
        },
        Err(_) => {
            assert(after.open =~= sockets.open);
            assert(after.non_blocking =~= sockets.non_blocking);
        },
    }
}

/// A reachable listener is reached, whatever the timeout. Where every call
/// is answered as a listener's acceptance answers it, the attempt returns
/// the descriptor that was created for it, after the six calls of a
/// successful attempt: so the descriptor was connected to `address` itself,
/// and it was made blocking again last.
pub proof fn lemma_listener_is_reached(
    address: SocketAddress,
    timeout: Timeout,
    answers: Answers,
    sockets: Sockets,
    fd: i32,
)
    requires
        answers.admissible(),
        answers.favourable(fd),
    ensures
        attempt(address, timeout, answers, sockets).result == Some(
            Ok::<i32, ConnectionError>(fd),
        ),
        attempt(address, timeout, answers, sockets).requests == successful_calls(
            address,
            timeout,
            fd,
        ),
        successful_calls(address, timeout, fd)[2] == Request::Connect(fd, address),
{
    lemma_attempt_ends_as_stated(address, timeout, answers, sockets);
}

/// One attempt: its target, its time limit and the answers it is given.
pub struct Attempt {
    pub address: SocketAddress,
    pub timeout: Timeout,
    pub answers: Answers,
}

impl Attempt {
    /// What the attempt comes to when it is run with `sockets` open.
    pub open spec fn result(self, sockets: Sockets) -> Option<Result<i32, ConnectionError>> {
        attempt(self.address, self.timeout, self.answers, sockets).result
    }
}

/// Success means acceptance: an attempt returns a descriptor exactly when
/// every call was answered as a listener's acceptance answers it, and then
/// the descriptor is the one that was created. So no descriptor is returned
/// that still has a pending error or is left in non-blocking mode.
pub proof fn lemma_success_means_accepted(answers: Answers, fd: i32)
    ensures
        verdict(answers) == Ok::<i32, ConnectionError>(fd) <==> answers.favourable(fd),
{
}

/// The same failure every time. Two attempts that are given the same answers
/// fail alike, whichever descriptors they were handed, whichever addresses
/// they were to reach and however long they were to wait: the kind of a
/// failure and what it carries are decided by the answers alone.
pub proof fn lemma_same_answers_same_failure(
    first: Attempt,
    second: Attempt,
    first_sockets: Sockets,
    second_sockets: Sockets,
)
    requires
        first.answers.admissible(),
        second.answers.admissible(),
        first.answers.same_but_descriptor(second.answers),
    ensures
        first.result(first_sockets) matches Some(Err(_)) <==> second.result(
            second_sockets,
        ) matches Some(Err(_)),
        first.result(first_sockets) matches Some(Err(_)) ==> first.result(first_sockets)
            == second.result(second_sockets),
{
    lemma_attempt_ends_as_stated(first.address, first.timeout, first.answers, first_sockets);
    lemma_attempt_ends_as_stated(second.address, second.timeout, second.answers, second_sockets);
}

/// The descriptors after a series of attempts, made one after the other.
pub open spec fn after_attempts(attempts: Seq<Attempt>, sockets: Sockets) -> Sockets
    decreases attempts.len(),
{
    if attempts.len() == 0 {
        sockets
    } else {
        let first = attempts[0];
        after_attempts(
            attempts.drop_first(),
            attempt(first.address, first.timeout, first.answers, sockets).sockets,
        )
    }
}

/// However many attempts fail in a row, and in whichever ways, the
/// descriptors afterwards are those from before: none is left open.
pub proof fn lemma_failed_attempts_leave_nothing_open(attempts: Seq<Attempt>, sockets: Sockets)
    requires
        sockets.well_formed(),
        forall|i: int|
            0 <= i < attempts.len() ==> {
                &&& (#[trigger] attempts[i]).answers.admissible()
                &&& sockets.can_answer(attempts[i].answers)
                &&& verdict(attempts[i].answers) is Err
            },
    ensures
        after_attempts(attempts, sockets) == sockets,
    decreases attempts.len(),
{
    if attempts.len() > 0 {
        let first = attempts[0];
        lemma_descriptor_accounting(first.address, first.timeout, first.answers, sockets);
        let rest = attempts.drop_first();
        assert forall|i: int| 0 <= i < rest.len() implies {
            &&& (#[trigger] rest[i]).answers.admissible()
            &&& sockets.can_answer(rest[i].answers)
            &&& verdict(rest[i].answers) is Err
        } by {
            assert(rest[i] == attempts[i + 1]);
        }
        lemma_failed_attempts_leave_nothing_open(rest, sockets);
    }
}

/// Runs an attempt to reach `address` within `timeout` against `answers`
/// instead of an operating system, and returns the calls it made with what
/// it came to. `None` where the answers are not such as a connector accepts.
pub fn rehearse(address: SocketAddress, timeout: Timeout, answers: &Answers) -> (outcome: Option<
    (Vec<Request>, Result<i32, ConnectionError>),
>)
    ensures
        outcome is Some <==> answers.admissible(),
        outcome matches Some((requests, result)) ==> {
            &&& requests@ == calls(address, timeout, *answers)
            &&& result == verdict(*answers)
        },
{
    if !answers.is_admissible() {
        return None;
    }
    let mut connector = Connector::new(address, timeout);
    let mut requests: Vec<Request> = Vec::new();
    let ghost mut sockets = Sockets::none();
    proof {
        lemma_attempt_ends_as_stated(address, timeout, *answers, sockets);
    }
    loop
        invariant
            answers.admissible(),
            connector.address() == address,
            connector.timeout() == timeout,
            requests@.len() <= max_calls(),
            ({
                let rest = run(
                    connector.stage(),
                    address,
                    timeout,
                    *answers,
                    sockets,
                    (max_calls() - requests@.len()) as nat,
                );
                &&& rest.result == Some(verdict(*answers))
                &&& requests@ + rest.requests == calls(address, timeout, *answers)
            }),
        decreases max_calls() - requests@.len(),
    {
        let request = connector.request();
        let reply = answers.to(request);
        proof {
            sockets = sockets.after(request, reply);
        }
        requests.push(request);
        match connector.step(reply) {
            Step::Continue(next) => {
                connector = next;
            },
            Step::Finished(result) => {
                return Some((requests, result));
            },
        }
    }
}

} // verus!
