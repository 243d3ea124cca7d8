//! What a debug probe can be asked to do, and in which order.

use crate::dap_access::DAPAccess;
use vstd::prelude::*;

verus! {

/// The wire protocol between probe and target.
#[derive(Clone, Copy, Debug, PartialEq, Eq, Structural)]
pub enum WireProtocol {
    /// The two-wire serial debug protocol.
    Swd,
    /// The multi-wire boundary scan protocol.
    Jtag,
}

/// The operations of a debug probe.
pub trait DebugProbe {
    type Error;

    fn open(&mut self) -> Result<(), Self::Error>;

    fn close(&mut self) -> Result<(), Self::Error>;

    fn get_version(&mut self) -> Result<(u8, u8), Self::Error>;

    /// Enters debug mode.
    fn attach(&mut self, protocol: WireProtocol) -> Result<(), Self::Error>;

    /// Leaves debug mode.
    fn detach(&mut self) -> Result<(), Self::Error>;

    fn target_reset(&mut self) -> Result<(), Self::Error>;

    /// Reads the DAP register on the specified port and address.
    fn read_dap_register(&mut self, port: u16, addr: u32) -> Result<u32, Self::Error>;

    /// Writes a value to the DAP register on the specified port and address.
    fn write_dap_register(&mut self, port: u16, addr: u16, value: u32) -> Result<(), Self::Error>;
}

/// How far a probe has been brought up.
#[derive(Clone, Copy, Debug, PartialEq, Eq, Structural)]
pub enum ProbeState {
    /// No session with the probe.
    Closed,
    /// A session with the probe, which is not attached to a target.
    Open,
    /// The probe is attached to a target over `protocol`.
    Attached { protocol: WireProtocol },
}

/// The operations of a debug probe, as values.
#[derive(Clone, Copy, Debug, PartialEq, Eq, Structural)]
pub enum Operation {
    Open,
    Close,
    GetVersion,
    Attach { protocol: WireProtocol },
    Detach,
    TargetReset,
    ReadRegister,
    WriteRegister,
}

/// The state that a successful `operation` leads to from `state`, or `None`
/// where the operation is not valid in `state`.
///
/// A probe is opened from `Closed` only, attached from `Open` only and
/// detached from `Attached` only. It is closed from `Open` or `Attached`.
/// Its version is read and its target reset in `Open` or `Attached`;
/// registers are accessed in `Attached` only.
pub open spec fn transition(state: ProbeState, operation: Operation) -> Option<ProbeState> {
    match operation {
        Operation::Open => if state is Closed {
            Some(ProbeState::Open)
        } else {
            None
        },
        Operation::Close => if state is Closed {
            None
        } else {
            Some(ProbeState::Closed)
        },
        Operation::Attach { protocol } => if state is Open {
            Some(ProbeState::Attached { protocol })
        } else {
            None
        },
        Operation::Detach => if state is Attached {
            Some(ProbeState::Open)
        } else {
            None
        },
        Operation::GetVersion | Operation::TargetReset => if state is Closed {
            None
        } else {
            Some(state)
        },
        Operation::ReadRegister | Operation::WriteRegister => if state is Attached {
            Some(state)
        } else {
            None
        },
    }
}

/// Registers are within reach only while the probe is attached.
pub proof fn lemma_registers_need_attachment(state: ProbeState)
    ensures
        transition(state, Operation::ReadRegister) is Some <==> state is Attached,
        transition(state, Operation::WriteRegister) is Some <==> state is Attached,
{
}

/// A probe attaches from `Open` only: once attached, it does not attach
/// again before it is detached, or closed and opened anew.
pub proof fn lemma_attach_needs_a_detached_probe(
    state: ProbeState,
    first: WireProtocol,
    second: WireProtocol,
)
    ensures
        transition(state, Operation::Attach { protocol: first }) is Some <==> state is Open,
        transition(state, Operation::Attach { protocol: first }) matches Some(attached)
            ==> transition(attached, Operation::Attach { protocol: second }) is None,
{
}

/// A probe without a session cannot be closed, and closing ends the session:
/// a second `close` is as invalid as one before any `open`.
pub proof fn lemma_close_needs_a_session(state: ProbeState)
    ensures
        transition(state, Operation::Close) is Some <==> !(state is Closed),
        transition(state, Operation::Close) matches Some(closed) ==> closed is Closed
            && transition(closed, Operation::Close) is None,
        transition(state, Operation::Open) is Some <==> state is Closed,
{
}

/// An operation that is not valid, or that the probe fails, changes nothing.
pub proof fn lemma_failure_keeps_the_state<T, E>(
    state: ProbeState,
    operation: Operation,
    outcome: Result<T, E>,
)
    ensures
        settled(state, operation, outcome).1 is Err ==> settled(state, operation, outcome).0
            == state,
        settled(state, operation, outcome).1 matches Err(ProbeError::InvalidState)
            <==> transition(state, operation) is None,
{
}

/// What went wrong with an operation of a probe.
#[derive(Debug, PartialEq, Eq)]
pub enum ProbeError<E> {
    /// The operation is not valid in the state that the probe is in.
    InvalidState,
    /// The probe itself reported an error.
    Probe(E),
}

/// The state after `operation` was tried in `state` and the probe answered
/// with `outcome`, and what the caller is told.
pub open spec fn settled<T, E>(state: ProbeState, operation: Operation, outcome: Result<T, E>) -> (
    ProbeState,
    Result<T, ProbeError<E>>,
) {
    match transition(state, operation) {
        None => (state, Err(ProbeError::InvalidState)),
        Some(next) => match outcome {
            Ok(value) => (next, Ok(value)),
            Err(error) => (state, Err(ProbeError::Probe(error))),
        },
    }
}

impl ProbeState {
    /// The state that a successful `operation` leads to, or `None` where the
    /// operation is not valid in this state.
    pub fn after(self, operation: Operation) -> (next: Option<ProbeState>)
        ensures
            next == transition(self, operation),
    {
        match operation {
            Operation::Open => match self {
                ProbeState::Closed => Some(ProbeState::Open),
                _ => None,
            },
            Operation::Close => match self {
                ProbeState::Closed => None,
                _ => Some(ProbeState::Closed),
            },
            Operation::Attach { protocol } => match self {
                ProbeState::Open => Some(ProbeState::Attached { protocol }),
                _ => None,
            },
            Operation::Detach => match self {
                ProbeState::Attached { .. } => Some(ProbeState::Open),
                _ => None,
            },
            Operation::GetVersion | Operation::TargetReset => match self {
                ProbeState::Closed => None,
                _ => Some(self),
            },
            Operation::ReadRegister | Operation::WriteRegister => match self {
                ProbeState::Attached { .. } => Some(self),
                _ => None,
            },
        }
    }

    /// Takes what the probe answered to `operation`, tried in this state,
    /// and gives the state that follows and what the caller is told. An
    /// error of the probe leaves the state as it was.
    pub fn settle<T, E>(self, operation: Operation, outcome: Result<T, E>) -> (end: (
        ProbeState,
        Result<T, ProbeError<E>>,
    ))
        ensures
            end == settled(self, operation, outcome),
    {
        match self.after(operation) {
            None => (self, Err(ProbeError::InvalidState)),
            Some(next) => match outcome {
                Ok(value) => (next, Ok(value)),
                Err(error) => (self, Err(ProbeError::Probe(error))),
            },
        }
    }
}

/// A probe together with the state that it has been brought to. Every
/// operation is checked against the state before the probe sees it.
pub struct ProbeSession<P> {
    probe: P,
    state: ProbeState,
}

impl<P> ProbeSession<P> {
    /// The probe inside.
    pub closed spec fn probe(&self) -> P {
        self.probe
    }

    /// The state that the probe has been brought to.
    pub closed spec fn spec_state(&self) -> ProbeState {
        self.state
    }

    /// Takes charge of a probe that has no session yet.
    pub fn new(probe: P) -> (session: Self)
        ensures
            session.probe() == probe,
            session.spec_state() == ProbeState::Closed,
    {
        ProbeSession { probe, state: ProbeState::Closed }
    }

    /// Gives the probe back.
    pub fn into_inner(self) -> (probe: P)
        ensures
            probe == self.probe(),
    {
        self.probe
    }

    /// The state that the probe has been brought to.
    #[verifier::when_used_as_spec(spec_state)]
    pub fn state(&self) -> (state: ProbeState)
        ensures
            state == self.spec_state(),
    {
        self.state
    }

    /// What an operation may have done: an operation that is not valid in
    /// the state of the session fails with `InvalidState` and leaves probe
    /// and state alone; a valid one that succeeds moves the state on; a
    /// valid one that the probe fails leaves the state alone.
    pub open spec fn ran<T>(
        before: Self,
        operation: Operation,
        after: Self,
        result: Result<T, ProbeError<P::Error>>,
    ) -> bool where P: DebugProbe {
        match transition(before.state(), operation) {
            None => after == before && result == Err::<T, ProbeError<P::Error>>(
                ProbeError::InvalidState,
            ),
            Some(next) => match result {
                Ok(_) => after.state() == next,
                Err(error) => error is Probe && after.state() == before.state(),
            },
        }
    }
}

impl<P: DebugProbe> DebugProbe for ProbeSession<P> {
    type Error = ProbeError<P::Error>;

    fn open(&mut self) -> (result: Result<(), Self::Error>)
        ensures
            Self::ran(*old(self), Operation::Open, *final(self), result),
    {
        if self.state.after(Operation::Open).is_none() {
            return Err(ProbeError::InvalidState);
        }
        let outcome = self.probe.open();
        let (state, result) = self.state.settle(Operation::Open, outcome);
        self.state = state;
        result
    }

    fn close(&mut self) -> (result: Result<(), Self::Error>)
        ensures
            Self::ran(*old(self), Operation::Close, *final(self), result),
    {
        if self.state.after(Operation::Close).is_none() {
            return Err(ProbeError::InvalidState);
        }
        let outcome = self.probe.close();
        let (state, result) = self.state.settle(Operation::Close, outcome);
        self.state = state;
        result
    }

    fn get_version(&mut self) -> (result: Result<(u8, u8), Self::Error>)
        ensures
            Self::ran(*old(self), Operation::GetVersion, *final(self), result),
    {
        if self.state.after(Operation::GetVersion).is_none() {
            return Err(ProbeError::InvalidState);
        }
        let outcome = self.probe.get_version();
        let (state, result) = self.state.settle(Operation::GetVersion, outcome);
        self.state = state;
        result
    }

    fn attach(&mut self, protocol: WireProtocol) -> (result: Result<(), Self::Error>)
        ensures
            Self::ran(*old(self), Operation::Attach { protocol }, *final(self), result),
    {
        if self.state.after(Operation::Attach { protocol }).is_none() {
            return Err(ProbeError::InvalidState);
        }
        let outcome = self.probe.attach(protocol);
        let (state, result) = self.state.settle(Operation::Attach { protocol }, outcome);
        self.state = state;
        result
    }

    fn detach(&mut self) -> (result: Result<(), Self::Error>)
        ensures
            Self::ran(*old(self), Operation::Detach, *final(self), result),
    {
        if self.state.after(Operation::Detach).is_none() {
            return Err(ProbeError::InvalidState);
        }
        let outcome = self.probe.detach();
        let (state, result) = self.state.settle(Operation::Detach, outcome);
        self.state = state;
        result
    }

    fn target_reset(&mut self) -> (result: Result<(), Self::Error>)
        ensures
            Self::ran(*old(self), Operation::TargetReset, *final(self), result),
    {
        if self.state.after(Operation::TargetReset).is_none() {
            return Err(ProbeError::InvalidState);
        }
        let outcome = self.probe.target_reset();
        let (state, result) = self.state.settle(Operation::TargetReset, outcome);
        self.state = state;
        result
    }

    fn read_dap_register(&mut self, port: u16, addr: u32) -> (result: Result<u32, Self::Error>)
        ensures
            Self::ran(*old(self), Operation::ReadRegister, *final(self), result),
    {
        if self.state.after(Operation::ReadRegister).is_none() {
            return Err(ProbeError::InvalidState);
        }
        let outcome = self.probe.read_dap_register(port, addr);
        let (state, result) = self.state.settle(Operation::ReadRegister, outcome);
        self.state = state;
        result
    }

    fn write_dap_register(&mut self, port: u16, addr: u16, value: u32) -> (result: Result<
        (),
        Self::Error,
    >)
        ensures
            Self::ran(*old(self), Operation::WriteRegister, *final(self), result),
    {
        if self.state.after(Operation::WriteRegister).is_none() {
            return Err(ProbeError::InvalidState);
        }
        let outcome = self.probe.write_dap_register(port, addr, value);
        let (state, result) = self.state.settle(Operation::WriteRegister, outcome);
        self.state = state;
        result
    }
}

impl<P: DebugProbe> DAPAccess for ProbeSession<P> {
    type Error = ProbeError<P::Error>;

    fn read_register(&mut self, port: u16, addr: u32) -> (result: Result<u32, Self::Error>)
        ensures
            Self::ran(*old(self), Operation::ReadRegister, *final(self), result),
    {
        self.read_dap_register(port, addr)
    }

    fn write_register(&mut self, port: u16, addr: u16, value: u32) -> (result: Result<
        (),
        Self::Error,
    >)
        ensures
            Self::ran(*old(self), Operation::WriteRegister, *final(self), result),
    {
        self.write_dap_register(port, addr, value)
    }
}

} // verus!
