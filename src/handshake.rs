//! Bring-up of a sensor: one identity read, then the configuration program,
//! as a state machine that asks for one bus operation at a time.
use vstd::prelude::*;

use crate::bus::{Exchange, RegisterBus};
use crate::registers::SensorKind;
use crate::Error;

verus! {

/// Where the bring-up of a sensor stands.
pub enum Phase<E> {
    /// The identity register has yet to be read.
    Identify,
    /// The configuration write at this index is the next one to issue.
    Configure(usize),
    /// Identity matched and every configuration write succeeded.
    Ready,
    /// Bring-up stopped on this error; nothing further is issued.
    Failed(Error<E>),
}

/// The bus operation a bring-up asks for next.
#[derive(Clone, Copy, Debug, PartialEq, Eq, Structural)]
pub enum Request {
    ReadRegister(u8),
    WriteRegister(u8, u8),
    /// Bring-up is over, successfully or not.
    Done,
}

/// The bring-up of one sensor of the given kind.
pub struct Handshake<E> {
    pub kind: SensorKind,
    pub phase: Phase<E>,
}

/// The phase once the configuration writes before index `i` have succeeded.
pub open spec fn configuring_from<E>(kind: SensorKind, i: int) -> Phase<E> {
    if i < kind.spec_configuration().len() {
        Phase::Configure(i as usize)
    } else {
        Phase::Ready
    }
}

/// The phase after the identity read came back with `response`.
pub open spec fn after_identity<E>(kind: SensorKind, response: Result<u8, E>) -> Phase<E> {
    match response {
        Ok(b) => if b == kind.spec_expected_identity() {
            configuring_from(kind, 0)
        } else {
            Phase::Failed(Error::IdentityMismatch)
        },
        Err(e) => Phase::Failed(Error::Transport(e)),
    }
}

/// The phase after configuration write `i` came back with `outcome`.
pub open spec fn after_write<E>(kind: SensorKind, i: int, outcome: Result<(), E>) -> Phase<E> {
    match outcome {
        Ok(_) => configuring_from(kind, i + 1),
        Err(e) => Phase::Failed(Error::Transport(e)),
    }
}

/// The request a bring-up of `kind` in `phase` makes.
pub open spec fn request_in<E>(kind: SensorKind, phase: Phase<E>) -> Request {
    match phase {
        Phase::Identify => Request::ReadRegister(kind.spec_identity_register()),
        Phase::Configure(i) => Request::WriteRegister(
            kind.spec_configuration()[i as int].0,
            kind.spec_configuration()[i as int].1,
        ),
        _ => Request::Done,
    }
}

impl<E> Handshake<E> {
    pub open spec fn wf(&self) -> bool {
        self.phase matches Phase::Configure(i) ==> i < self.kind.spec_configuration().len()
    }

    /// Bus operations left at most before the bring-up is over.
    pub open spec fn remaining(&self) -> nat {
        match self.phase {
            Phase::Identify => self.kind.spec_configuration().len() + 1,
            Phase::Configure(i) => (self.kind.spec_configuration().len() - i) as nat,
            _ => 0,
        }
    }

    pub open spec fn is_over(&self) -> bool {
        self.phase is Ready || self.phase is Failed
    }

    pub fn start(kind: SensorKind) -> (r: Self)
        ensures
            r.kind == kind,
            r.phase is Identify,
            r.wf(),
    {
        Handshake { kind, phase: Phase::Identify }
    }

    /// The bus operation to perform next.
    pub fn request(&self) -> (r: Request)
        requires
            self.wf(),
        ensures
            r == request_in(self.kind, self.phase),
    {
        match self.phase {
            Phase::Identify => Request::ReadRegister(self.kind.identity_register()),
            Phase::Configure(i) => {
                let program = self.kind.configuration();
                let (register, value) = program[i];
                Request::WriteRegister(register, value)
            },
            _ => Request::Done,
        }
    }

    /// Takes in what the identity read returned.
    pub fn on_identity(&mut self, response: Result<u8, E>)
        requires
            old(self).phase is Identify,
        ensures
            final(self).kind == old(self).kind,
            final(self).phase == after_identity(old(self).kind, response),
            final(self).wf(),
            final(self).remaining() < old(self).remaining(),
    {
        match response {
            Ok(b) => {
                if b == self.kind.expected_identity() {
                    self.phase = self.configuring_from(0);
                } else {
                    self.phase = Phase::Failed(Error::IdentityMismatch);
                }
            },
            Err(e) => {
                self.phase = Phase::Failed(Error::Transport(e));
            },
        }
    }

    /// Takes in what the pending configuration write returned.
    pub fn on_write(&mut self, outcome: Result<(), E>)
        requires
            old(self).wf(),
            old(self).phase is Configure,
        ensures
            final(self).kind == old(self).kind,
            final(self).phase == after_write(
                old(self).kind,
                old(self).phase->Configure_0 as int,
                outcome,
            ),
            final(self).wf(),
            final(self).remaining() < old(self).remaining(),
    {
        let i = match self.phase {
            Phase::Configure(i) => i,
            _ => 0,
        };
        match outcome {
            Ok(_) => {
                self.phase = self.configuring_from(i + 1);
            },
            Err(e) => {
                self.phase = Phase::Failed(Error::Transport(e));
            },
        }
    }

    fn configuring_from(&self, i: usize) -> (r: Phase<E>)
        requires
            i <= self.kind.spec_configuration().len(),
        ensures
            r == configuring_from::<E>(self.kind, i as int),
    {
        let n = self.kind.configuration().len();
        if i < n {
            Phase::Configure(i)
        } else {
            Phase::Ready
        }
    }

    /// The outcome of a bring-up that is over.
    pub fn finish(self) -> (r: Result<(), Error<E>>)
        requires
            self.is_over(),
        ensures
            self.phase is Ready ==> r is Ok,
            self.phase is Failed ==> r == Err::<(), Error<E>>(self.phase->Failed_0),
    {
        match self.phase {
            Phase::Failed(e) => Err(e),
            _ => Ok(()),
        }
    }
}

/// The exchanges of a bring-up of `kind` in which the identity matched and
/// every configuration write succeeded.
pub open spec fn accepted_log(kind: SensorKind) -> Seq<Exchange> {
    seq![Exchange::Read(kind.spec_identity_register(), Some(kind.spec_expected_identity()))]
        + kind.spec_configuration().map_values(|w: (u8, u8)| Exchange::Write(w.0, w.1, true))
}

/// A bring-up log that stopped on a wrong identity byte: the identity read
/// alone.
pub open spec fn rejected_log(kind: SensorKind, log: Seq<Exchange>) -> bool {
    &&& log.len() == 1
    &&& log[0] matches Exchange::Read(register, Some(b))
    &&& register == kind.spec_identity_register()
    &&& b != kind.spec_expected_identity()
}

/// A bring-up log that stopped on a transport failure: either the identity
/// read failed, or the leading part of the accepted log was issued and its
/// last write failed.
pub open spec fn failed_log(kind: SensorKind, log: Seq<Exchange>) -> bool {
    let n = log.len();
    ||| log == seq![Exchange::Read(kind.spec_identity_register(), None)]
    ||| {
        &&& 2 <= n <= kind.spec_configuration().len() + 1
        &&& log.drop_last() == accepted_log(kind).take(n - 1)
        &&& log.last() == Exchange::Write(
            kind.spec_configuration()[n - 2].0,
            kind.spec_configuration()[n - 2].1,
            false,
        )
    }
}

/// How far a bring-up in `phase` has gone: the exchanges issued so far.
pub open spec fn log_in<E>(kind: SensorKind, phase: Phase<E>, log: Seq<Exchange>) -> bool {
    match phase {
        Phase::Identify => log.len() == 0,
        Phase::Configure(i) => log == accepted_log(kind).take(i + 1),
        Phase::Ready => log == accepted_log(kind),
        Phase::Failed(Error::IdentityMismatch) => rejected_log(kind, log),
        Phase::Failed(Error::Transport(_)) => failed_log(kind, log),
        Phase::Failed(Error::ShortRead) => false,
    }
}

/// Brings up a sensor of `kind` on `bus`: reads the identity register once
/// and, only if it holds the expected value, issues the configuration writes
/// in order, stopping at the first failure. The bus is handed back only when
/// every step succeeded. Beside the result comes the log of the exchanges
/// made on the bus.
pub fn connect<B: RegisterBus>(bus: B, kind: SensorKind) -> (r: (
    Result<B, Error<B::Error>>,
    Ghost<Seq<Exchange>>,
))
    ensures
        r.0 is Ok <==> r.1@ == accepted_log(kind),
        r.0 is Err && r.0->Err_0 is IdentityMismatch <==> rejected_log(kind, r.1@),
        r.0 is Err && r.0->Err_0 is Transport <==> failed_log(kind, r.1@),
        r.0 is Err ==> (r.0->Err_0 is IdentityMismatch || r.0->Err_0 is Transport),
{
    let mut bus = bus;
    let mut handshake: Handshake<B::Error> = Handshake::start(kind);
    let ghost mut log: Seq<Exchange> = Seq::empty();
    let ghost n = kind.spec_configuration().len();
    loop
        invariant
            handshake.wf(),
            handshake.kind == kind,
            n == kind.spec_configuration().len(),
            log_in(kind, handshake.phase, log),
        ensures
            handshake.is_over(),
            log_in(kind, handshake.phase, log),
        decreases handshake.remaining(),
    {
        match handshake.request() {
            Request::ReadRegister(register) => {
                let response = bus.read_register(register);
                let ghost reply: Option<u8> = if response is Ok {
                    Some(response->Ok_0)
                } else {
                    None
                };
                proof {
                    log = log.push(Exchange::Read(register, reply));
                }
                handshake.on_identity(response);
                proof {
                    if handshake.phase is Configure {
                        assert(log =~= accepted_log(kind).take(1));
                    } else if handshake.phase is Ready {
                        assert(log =~= accepted_log(kind));
                    } else if reply is None {
                        assert(log =~= seq![Exchange::Read(kind.spec_identity_register(), None)]);
                    }
                }
            },
            Request::WriteRegister(register, value) => {
                let ghost i = handshake.phase->Configure_0 as int;
                let ghost before = log;
                let outcome = bus.write_register(register, value);
                let ghost ok = outcome is Ok;
                proof {
                    log = log.push(Exchange::Write(register, value, ok));
                    assert(accepted_log(kind)[i + 1] == Exchange::Write(register, value, true));
                }
                handshake.on_write(outcome);
                proof {
                    if ok {
                        assert(log =~= accepted_log(kind).take(i + 2));
                        if handshake.phase is Ready {
                            assert(log =~= accepted_log(kind));
                        }
                    } else {
                        assert(log.drop_last() =~= before);
                        assert(before =~= accepted_log(kind).take(log.len() - 1));
                        assert(log.last() == Exchange::Write(
                            kind.spec_configuration()[log.len() - 2].0,
                            kind.spec_configuration()[log.len() - 2].1,
                            false,
                        ));
                    }
                }
            },
            Request::Done => {
                break ;
            },
        }
    }
    proof {
        if handshake.phase is Failed && handshake.phase->Failed_0 is Transport {
            if log.len() == 1 {
                assert(!rejected_log(kind, log));
            }
        }
        if log == accepted_log(kind) {
            assert(log.len() == n + 1);
            assert(log[0] == Exchange::Read(
                kind.spec_identity_register(),
                Some(kind.spec_expected_identity()),
            ));
        }
    }
    match handshake.finish() {
        Ok(()) => (Ok(bus), Ghost(log)),
        Err(e) => (Err(e), Ghost(log)),
    }
}

/// A bring-up stopped by a wrong identity byte made no write on the bus: its
/// only exchange is the identity read.
pub proof fn lemma_rejected_bring_up_writes_nothing(kind: SensorKind, log: Seq<Exchange>)
    requires
        rejected_log(kind, log),
    ensures
        log == seq![log[0]],
        log[0] is Read,
        forall|k: int| 0 <= k < log.len() ==> !(#[trigger] log[k] is Write),
{
    assert(log =~= seq![log[0]]);
}

/// The requests a bring-up of `kind` makes from configuration write `i` on,
/// when every write succeeds.
pub open spec fn requests_while_writes_succeed<E>(kind: SensorKind, i: nat) -> Seq<Request>
    decreases kind.spec_configuration().len() - i,
{
    let phase = configuring_from::<E>(kind, i as int);
    if phase is Configure {
        seq![request_in(kind, phase)] + requests_while_writes_succeed::<E>(
            kind,
            (i + 1) as nat,
        )
    } else {
        seq![request_in(kind, phase)]
    }
}

/// The write requests that make up the configuration program, in order.
pub open spec fn program_requests(kind: SensorKind) -> Seq<Request> {
    kind.spec_configuration().map_values(|w: (u8, u8)| Request::WriteRegister(w.0, w.1))
}

/// Once the identity matches and every write succeeds, a bring-up asks for
/// exactly the configuration writes in program order, then for nothing more.
pub proof fn lemma_writes_follow_program<E>(kind: SensorKind)
    ensures
        after_identity::<E>(kind, Ok(kind.spec_expected_identity())) == configuring_from::<E>(
            kind,
            0,
        ),
        requests_while_writes_succeed::<E>(kind, 0) == program_requests(kind).push(
            Request::Done,
        ),
{
    lemma_writes_from::<E>(kind, 0);
    assert(program_requests(kind).skip(0) =~= program_requests(kind));
}

proof fn lemma_writes_from<E>(kind: SensorKind, i: nat)
    requires
        i <= kind.spec_configuration().len(),
    ensures
        requests_while_writes_succeed::<E>(kind, i) == program_requests(kind).skip(i as int).push(
            Request::Done,
        ),
    decreases kind.spec_configuration().len() - i,
{
    let n = kind.spec_configuration().len();
    if i < n {
        lemma_writes_from::<E>(kind, i + 1);
        assert(program_requests(kind).skip(i as int) =~= seq![program_requests(kind)[i as int]]
            + program_requests(kind).skip(i + 1 as int));
        assert(requests_while_writes_succeed::<E>(kind, i) =~= program_requests(kind).skip(
            i as int,
        ).push(Request::Done));
    } else {
        assert(requests_while_writes_succeed::<E>(kind, i) =~= program_requests(kind).skip(
            i as int,
        ).push(Request::Done));
    }
}

/// A device whose identity register holds anything but the expected value is
/// rejected with an identity mismatch on that one read, and the bring-up then
/// asks for no configuration write.
pub proof fn lemma_identity_mismatch_writes_nothing<E>(kind: SensorKind, response: u8)
    requires
        response != kind.spec_expected_identity(),
    ensures
        after_identity::<E>(kind, Ok(response)) == Phase::<E>::Failed(Error::IdentityMismatch),
        request_in(kind, after_identity::<E>(kind, Ok(response))) == Request::Done,
{
}

} // verus!
