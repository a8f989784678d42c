//! The device session: one bootloader conversation over one serial link.
//!
//! The session owns no I/O. Every operation is begun by a method that checks
//! the session state and hands back the first [`TxAction`]; the caller
//! performs the action on its transport (a full write, or a blocking read of
//! exactly the requested length) and feeds the outcome back through
//! [`StmDevice::step`], which answers with the next action, the finished
//! result, or an error. Exactly one operation is in flight at a time.
//!
//! Retry policy: a command frame is attempted up to `retry_amount` times.
//! Only transport errors consume an attempt; an explicit negative
//! acknowledgement is the device's definitive answer and fails the call at
//! once, and an unexpected response byte is a protocol violation, also never
//! retried. A trailing acknowledgement after an info-query payload must be
//! `ACK` if a byte arrives at all; a read timeout there is tolerated and the
//! payload is used as read.

use vstd::prelude::*;
use crate::command::{Command, CommonCommand};
use crate::framing::{encode_multi, encode_single, u32_be, u32_be_bytes, xor_fold, ACK, NACK, WAKE_BYTE};
use crate::protocol::{spec_unresolved, Protocol, ProtocolError, ProtocolVersion, Response};

verus! {

/// Everything a session operation can fail with.
#[derive(Clone, Debug, PartialEq, Eq)]
pub enum StmDeviceError {
    /// `initialise` was called on a session that already woke the device.
    AlreadyInitialised,
    /// A command was issued before the device was woken.
    Uninitialised,
    /// A byte arrived where an acknowledgement was expected and was neither
    /// `ACK` nor `NACK`; carries the offending byte.
    ExpectedAck(u8),
    /// The device answered a frame with an explicit negative acknowledgement.
    Nack,
    /// The device refused the command with a negative acknowledgement.
    CommandFail(Command),
    /// Every attempt at the command failed with a transport error.
    RetryExceeded(Command),
    /// The version-info payload was malformed.
    ProtocolError(ProtocolError),
    /// The transport failed to read or write.
    Io,
}

/// A product identity reported by the device.
#[derive(Clone, Debug, PartialEq, Eq)]
pub enum ProductId {
    /// The standard 16-bit big-endian STM32 identifier, from a 2-byte payload.
    Stm32(u16),
    /// A payload of any other length, preserved without loss.
    Unknown(Vec<u8>),
}

impl ProductId {
    /// Decodes an identity payload: exactly two bytes make the 16-bit
    /// big-endian identifier, anything else is kept as an opaque sequence.
    pub fn decode(bytes: &Vec<u8>) -> (r: ProductId)
        ensures
            bytes@.len() == 2 ==> (r matches ProductId::Stm32(id) && id == bytes@[0] * 0x100
                + bytes@[1]),
            bytes@.len() != 2 ==> (r matches ProductId::Unknown(v) && v@ == bytes@),
    {
        if bytes.len() == 2 {
            let id: u16 = (bytes[0] as u16) * 0x100 + (bytes[1] as u16);
            ProductId::Stm32(id)
        } else {
            let mut v: Vec<u8> = Vec::new();
            let mut i: usize = 0;
            while i < bytes.len()
                invariant
                    i <= bytes@.len(),
                    v@ == bytes@.take(i as int),
                decreases bytes@.len() - i,
            {
                proof {
                    assert(bytes@.take(i as int).push(bytes@[i as int]) =~= bytes@.take(i + 1));
                }
                v.push(bytes[i]);
                i = i + 1;
            }
            proof {
                assert(bytes@.take(bytes@.len() as int) =~= bytes@);
            }
            ProductId::Unknown(v)
        }
    }
}

/// What the caller must do next on its transport.
#[derive(Clone, Debug, PartialEq, Eq)]
pub enum TxAction {
    /// Write all of these bytes.
    Write(Vec<u8>),
    /// Read exactly this many bytes.
    Read(usize),
}

/// The outcome of the action the caller just performed.
#[derive(Clone, Debug, PartialEq, Eq)]
pub enum TxEvent {
    /// The write completed in full.
    WriteOk,
    /// The write failed with a transport error.
    WriteErr,
    /// The read delivered exactly the requested bytes.
    ReadOk(Vec<u8>),
    /// The read failed with a transport error or timeout.
    ReadErr,
}

/// Which operation a command exchange serves, and so what follows its
/// acknowledgement.
#[derive(Clone, Copy, Debug, PartialEq, Eq, Structural)]
pub enum Goal {
    /// Nothing follows: the exchange itself is the operation.
    Bare,
    /// The version-info payload follows.
    Protocol,
    /// The fixed three-byte version payload follows.
    Version,
    /// The identity payload follows.
    Id,
    /// The address and count frames follow, then the data.
    Memory { address: u32, count: u8 },
}

/// The phase of the operation in flight. Every non-idle phase has exactly
/// one pending [`TxAction`] whose outcome `step` consumes.
#[derive(Clone, Debug)]
pub enum OpState {
    /// No operation in flight.
    Idle,
    /// The wake byte is being written.
    WakeWrite,
    /// Waiting for a synchronisation byte; `NACK` is noise and is re-read.
    WakeSync,
    /// A command frame is being written.
    CmdWrite { goal: Goal, command: Command, attempts_left: u8 },
    /// Waiting for the acknowledgement of a command frame.
    CmdAwait { goal: Goal, command: Command, attempts_left: u8 },
    /// Waiting for the version-info length byte.
    ProtoLen,
    /// Waiting for the `len + 1` version-info payload bytes.
    ProtoPayload { len: u8 },
    /// Waiting for the trailing acknowledgement of the version-info payload.
    ProtoAck { payload: Vec<u8> },
    /// Waiting for the fixed three-byte version payload.
    VersionPayload,
    /// Waiting for the trailing acknowledgement of the version payload.
    VersionAck { payload: Vec<u8> },
    /// Waiting for the identity length byte.
    IdLen,
    /// Waiting for the `len + 1` identity payload bytes.
    IdPayload { len: u8 },
    /// Waiting for the trailing acknowledgement of the identity payload.
    IdAck { payload: Vec<u8> },
    /// The address frame is being written.
    MemAddrWrite { address: u32, count: u8 },
    /// Waiting for the acknowledgement of the address frame.
    MemAddrAck { count: u8 },
    /// The count frame is being written.
    MemCountWrite { count: u8 },
    /// Waiting for the acknowledgement of the count frame.
    MemCountAck { count: u8 },
    /// Waiting for the `count + 1` data bytes.
    MemData { count: u8 },
}

/// The finished result of an operation.
#[derive(Clone, Debug, PartialEq, Eq)]
pub enum OpOutput {
    /// The device is awake; the session is initialised.
    Initialised,
    /// The device acknowledged the bare command.
    CommandAccepted,
    /// The validated protocol announcement.
    Protocol(Protocol),
    /// The protocol version from the fixed-size query.
    Version(ProtocolVersion),
    /// The decoded product identity.
    Id(ProductId),
    /// The bytes read from memory.
    Memory(Vec<u8>),
}

/// What `step` answers: the next action to perform, the finished operation,
/// or its failure. `Done` and `Failed` leave the session idle.
#[derive(Clone, Debug, PartialEq, Eq)]
pub enum StepOutcome {
    Pending(TxAction),
    Done(OpOutput),
    Failed(StmDeviceError),
}

/// Event shapes a pending write can produce.
pub open spec fn spec_write_event(ev: TxEvent) -> bool {
    ev is WriteOk || ev is WriteErr
}

/// Event shapes a pending read of `n` bytes can produce.
pub open spec fn spec_read_event(ev: TxEvent, n: int) -> bool {
    (ev matches TxEvent::ReadOk(b) && b@.len() == n) || ev is ReadErr
}

/// How the machine proceeds once the device acknowledged the command frame
/// of `goal`.
pub open spec fn spec_goal_continues(goal: Goal, post: StmDevice, r: StepOutcome) -> bool {
    match goal {
        Goal::Bare => post.spec_op() is Idle && r == StepOutcome::Done(OpOutput::CommandAccepted),
        Goal::Protocol => post.spec_op() is ProtoLen && r == StepOutcome::Pending(
            TxAction::Read(1),
        ),
        Goal::Version => post.spec_op() is VersionPayload && r == StepOutcome::Pending(
            TxAction::Read(3),
        ),
        Goal::Id => post.spec_op() is IdLen && r == StepOutcome::Pending(TxAction::Read(1)),
        Goal::Memory { address, count } => post.spec_op() == (OpState::MemAddrWrite {
            address,
            count,
        }) && (r matches StepOutcome::Pending(TxAction::Write(f)) && f@ == u32_be(address).push(
            xor_fold(u32_be(address)),
        )),
    }
}

/// How a transport error during a command exchange is handled: a further
/// attempt while any is left, else the retries-exhausted error.
pub open spec fn spec_retry_again(
    post: StmDevice,
    r: StepOutcome,
    goal: Goal,
    command: Command,
    attempts_left: u8,
) -> bool {
    if attempts_left > 1 {
        post.spec_op() == (OpState::CmdWrite {
            goal,
            command,
            attempts_left: (attempts_left - 1) as u8,
        }) && (r matches StepOutcome::Pending(TxAction::Write(f)) && f@ == command.spec_frame())
    } else {
        post.spec_op() is Idle && r == StepOutcome::Failed(StmDeviceError::RetryExceeded(command))
    }
}

/// How a version-info payload ends the protocol query: an empty payload or
/// unresolved command bytes fail it and leave the negotiated version alone;
/// otherwise the announced version is adopted and returned.
pub open spec fn spec_protocol_result(
    s: Seq<u8>,
    pre_version: ProtocolVersion,
    post: StmDevice,
    r: StepOutcome,
) -> bool {
    if s.len() == 0 {
        r == StepOutcome::Failed(StmDeviceError::ProtocolError(ProtocolError::MissingProtocol))
            && post.spec_version() == pre_version
    } else {
        let v = ProtocolVersion::spec_from_byte(s[0]);
        let unk = spec_unresolved(v, s.skip(1));
        if unk.len() == 0 {
            (r matches StepOutcome::Done(OpOutput::Protocol(p)) && p.version == v)
                && post.spec_version() == v
        } else {
            (r matches StepOutcome::Failed(
                StmDeviceError::ProtocolError(
                    ProtocolError::UnknownCommands { version, unknown_commands },
                ),
            ) && version == v && unknown_commands@ == unk) && post.spec_version() == pre_version
        }
    }
}

/// The full transition relation of the session machine: given the phase of
/// `pre` and the event its pending action produced, what the new session and
/// the step's answer are.
pub open spec fn spec_transition(
    pre: StmDevice,
    ev: TxEvent,
    post: StmDevice,
    r: StepOutcome,
) -> bool {
    match (pre.spec_op(), ev) {
        // wake-up: ACK initialises, NACK is synchronisation noise, any other
        // byte is a protocol violation
        (OpState::WakeWrite, TxEvent::WriteOk) => post.spec_op() is WakeSync && r
            == StepOutcome::Pending(TxAction::Read(1)),
        (OpState::WakeWrite, TxEvent::WriteErr) => r == StepOutcome::Failed(StmDeviceError::Io),
        (OpState::WakeSync, TxEvent::ReadOk(b)) => if b@[0] == ACK {
            post.spec_initialised() && r == StepOutcome::Done(OpOutput::Initialised)
        } else if b@[0] == NACK {
            post.spec_op() is WakeSync && r == StepOutcome::Pending(TxAction::Read(1))
        } else {
            r == StepOutcome::Failed(StmDeviceError::ExpectedAck(b@[0]))
        },
        (OpState::WakeSync, TxEvent::ReadErr) => r == StepOutcome::Failed(StmDeviceError::Io),
        // command exchange: only transport errors consume an attempt; a NACK
        // is the device's definitive refusal; an unexpected byte is a
        // protocol violation
        (OpState::CmdWrite { goal, command, attempts_left }, TxEvent::WriteOk) => post.spec_op()
            == (OpState::CmdAwait { goal, command, attempts_left }) && r == StepOutcome::Pending(
            TxAction::Read(1),
        ),
        (OpState::CmdWrite { goal, command, attempts_left }, TxEvent::WriteErr) => spec_retry_again(
            post,
            r,
            goal,
            command,
            attempts_left,
        ),
        (OpState::CmdAwait { goal, command, .. }, TxEvent::ReadOk(b)) => if b@[0] == ACK {
            spec_goal_continues(goal, post, r)
        } else if b@[0] == NACK {
            r == StepOutcome::Failed(StmDeviceError::CommandFail(command))
        } else {
            r == StepOutcome::Failed(StmDeviceError::ExpectedAck(b@[0]))
        },
        (OpState::CmdAwait { goal, command, attempts_left }, TxEvent::ReadErr) => spec_retry_again(
            post,
            r,
            goal,
            command,
            attempts_left,
        ),
        // protocol query: length byte, payload, trailing acknowledgement,
        // then validation under the announced version
        (OpState::ProtoLen, TxEvent::ReadOk(b)) => post.spec_op() == (OpState::ProtoPayload {
            len: b@[0],
        }) && (r matches StepOutcome::Pending(TxAction::Read(n)) && n == b@[0] + 1),
        (OpState::ProtoLen, TxEvent::ReadErr) => r == StepOutcome::Failed(StmDeviceError::Io),
        (OpState::ProtoPayload { .. }, TxEvent::ReadOk(b)) => (post.spec_op()
            matches OpState::ProtoAck { payload } && payload@ == b@) && r == StepOutcome::Pending(
            TxAction::Read(1),
        ),
        (OpState::ProtoPayload { .. }, TxEvent::ReadErr) => r == StepOutcome::Failed(
            StmDeviceError::Io,
        ),
        (OpState::ProtoAck { payload }, TxEvent::ReadOk(b)) => if b@[0] == ACK {
            spec_protocol_result(payload@, pre.spec_version(), post, r)
        } else if b@[0] == NACK {
            r == StepOutcome::Failed(StmDeviceError::Nack)
        } else {
            r == StepOutcome::Failed(StmDeviceError::ExpectedAck(b@[0]))
        },
        (OpState::ProtoAck { payload }, TxEvent::ReadErr) => spec_protocol_result(
            payload@,
            pre.spec_version(),
            post,
            r,
        ),
        // fixed-size version query
        (OpState::VersionPayload, TxEvent::ReadOk(b)) => (post.spec_op()
            matches OpState::VersionAck { payload } && payload@ == b@) && r
            == StepOutcome::Pending(TxAction::Read(1)),
        (OpState::VersionPayload, TxEvent::ReadErr) => r == StepOutcome::Failed(
            StmDeviceError::Io,
        ),
        (OpState::VersionAck { payload }, TxEvent::ReadOk(b)) => if b@[0] == ACK {
            post.spec_version() == ProtocolVersion::spec_from_byte(payload@[0]) && r
                == StepOutcome::Done(
                OpOutput::Version(ProtocolVersion::spec_from_byte(payload@[0])),
            )
        } else if b@[0] == NACK {
            r == StepOutcome::Failed(StmDeviceError::Nack)
        } else {
            r == StepOutcome::Failed(StmDeviceError::ExpectedAck(b@[0]))
        },
        (OpState::VersionAck { payload }, TxEvent::ReadErr) => post.spec_version()
            == ProtocolVersion::spec_from_byte(payload@[0]) && r == StepOutcome::Done(
            OpOutput::Version(ProtocolVersion::spec_from_byte(payload@[0])),
        ),
        // identity query
        (OpState::IdLen, TxEvent::ReadOk(b)) => post.spec_op() == (OpState::IdPayload {
            len: b@[0],
        }) && (r matches StepOutcome::Pending(TxAction::Read(n)) && n == b@[0] + 1),
        (OpState::IdLen, TxEvent::ReadErr) => r == StepOutcome::Failed(StmDeviceError::Io),
        (OpState::IdPayload { .. }, TxEvent::ReadOk(b)) => (post.spec_op()
            matches OpState::IdAck { payload } && payload@ == b@) && r == StepOutcome::Pending(
            TxAction::Read(1),
        ),
        (OpState::IdPayload { .. }, TxEvent::ReadErr) => r == StepOutcome::Failed(
            StmDeviceError::Io,
        ),
        (OpState::IdAck { payload }, TxEvent::ReadOk(b)) => if b@[0] == ACK {
            r matches StepOutcome::Done(OpOutput::Id(pid)) && spec_id_decoded(payload@, pid)
        } else if b@[0] == NACK {
            r == StepOutcome::Failed(StmDeviceError::Nack)
        } else {
            r == StepOutcome::Failed(StmDeviceError::ExpectedAck(b@[0]))
        },
        (OpState::IdAck { payload }, TxEvent::ReadErr) => r matches StepOutcome::Done(
            OpOutput::Id(pid),
        ) && spec_id_decoded(payload@, pid),
        // memory read: address frame, count frame, raw data, no trailing
        // acknowledgement
        (OpState::MemAddrWrite { count, .. }, TxEvent::WriteOk) => post.spec_op() == (
        OpState::MemAddrAck { count }) && r == StepOutcome::Pending(TxAction::Read(1)),
        (OpState::MemAddrWrite { .. }, TxEvent::WriteErr) => r == StepOutcome::Failed(
            StmDeviceError::Io,
        ),
        (OpState::MemAddrAck { count }, TxEvent::ReadOk(b)) => if b@[0] == ACK {
            post.spec_op() == (OpState::MemCountWrite { count }) && (
            r matches StepOutcome::Pending(TxAction::Write(f)) && f@ =~= seq![count, count ^ 0xFF])
        } else if b@[0] == NACK {
            r == StepOutcome::Failed(StmDeviceError::Nack)
        } else {
            r == StepOutcome::Failed(StmDeviceError::ExpectedAck(b@[0]))
        },
        (OpState::MemAddrAck { .. }, TxEvent::ReadErr) => r == StepOutcome::Failed(
            StmDeviceError::Io,
        ),
        (OpState::MemCountWrite { count }, TxEvent::WriteOk) => post.spec_op() == (
        OpState::MemCountAck { count }) && r == StepOutcome::Pending(TxAction::Read(1)),
        (OpState::MemCountWrite { .. }, TxEvent::WriteErr) => r == StepOutcome::Failed(
            StmDeviceError::Io,
        ),
        (OpState::MemCountAck { count }, TxEvent::ReadOk(b)) => if b@[0] == ACK {
            post.spec_op() == (OpState::MemData { count }) && (r matches StepOutcome::Pending(
                TxAction::Read(n),
            ) && n == count + 1)
        } else if b@[0] == NACK {
            r == StepOutcome::Failed(StmDeviceError::Nack)
        } else {
            r == StepOutcome::Failed(StmDeviceError::ExpectedAck(b@[0]))
        },
        (OpState::MemCountAck { .. }, TxEvent::ReadErr) => r == StepOutcome::Failed(
            StmDeviceError::Io,
        ),
        (OpState::MemData { .. }, TxEvent::ReadOk(b)) => r matches StepOutcome::Done(
            OpOutput::Memory(d),
        ) && d@ == b@,
        (OpState::MemData { .. }, TxEvent::ReadErr) => r == StepOutcome::Failed(
            StmDeviceError::Io,
        ),
        _ => true,
    }
}

/// One bootloader session: the initialisation flag, the negotiated protocol
/// version, the retry bound, and the phase of the operation in flight.
pub struct StmDevice {
    initialised: bool,
    protocol_version: ProtocolVersion,
    retry_amount: u8,
    op: OpState,
}

impl StmDevice {
    pub closed spec fn spec_initialised(self) -> bool {
        self.initialised
    }

    pub closed spec fn spec_version(self) -> ProtocolVersion {
        self.protocol_version
    }

    pub closed spec fn spec_retries(self) -> u8 {
        self.retry_amount
    }

    pub closed spec fn spec_op(self) -> OpState {
        self.op
    }

    /// Structural soundness of the session: at least one attempt is allowed,
    /// a live command exchange has attempts left, and a stored version
    /// payload is never empty.
    pub open spec fn wf(self) -> bool {
        &&& self.spec_retries() >= 1
        &&& (self.spec_op() matches OpState::CmdWrite { attempts_left, .. } ==> attempts_left >= 1)
        &&& (self.spec_op() matches OpState::CmdAwait { attempts_left, .. } ==> attempts_left >= 1)
        &&& (self.spec_op() matches OpState::VersionAck { payload } ==> payload@.len() >= 1)
    }

    /// The event shapes the pending action of the current phase can produce.
    pub open spec fn spec_expects(self, ev: TxEvent) -> bool {
        match self.spec_op() {
            OpState::Idle => false,
            OpState::WakeWrite => spec_write_event(ev),
            OpState::WakeSync => spec_read_event(ev, 1),
            OpState::CmdWrite { .. } => spec_write_event(ev),
            OpState::CmdAwait { .. } => spec_read_event(ev, 1),
            OpState::ProtoLen => spec_read_event(ev, 1),
            OpState::ProtoPayload { len } => spec_read_event(ev, len as int + 1),
            OpState::ProtoAck { .. } => spec_read_event(ev, 1),
            OpState::VersionPayload => spec_read_event(ev, 3),
            OpState::VersionAck { .. } => spec_read_event(ev, 1),
            OpState::IdLen => spec_read_event(ev, 1),
            OpState::IdPayload { len } => spec_read_event(ev, len as int + 1),
            OpState::IdAck { .. } => spec_read_event(ev, 1),
            OpState::MemAddrWrite { .. } => spec_write_event(ev),
            OpState::MemAddrAck { .. } => spec_read_event(ev, 1),
            OpState::MemCountWrite { .. } => spec_write_event(ev),
            OpState::MemCountAck { .. } => spec_read_event(ev, 1),
            OpState::MemData { count } => spec_read_event(ev, count as int + 1),
        }
    }

    /// A fresh session: not initialised, version unknown, five attempts per
    /// command, nothing in flight.
    pub fn new() -> (r: StmDevice)
        ensures
            !r.spec_initialised(),
            r.spec_version().version is None,
            r.spec_retries() == 5,
            r.spec_op() is Idle,
            r.wf(),
    {
        StmDevice {
            initialised: false,
            protocol_version: ProtocolVersion::unknown(),
            retry_amount: 5,
            op: OpState::Idle,
        }
    }

    pub fn is_idle(&self) -> (r: bool)
        ensures
            r == (self.spec_op() is Idle),
    {
        match self.op {
            OpState::Idle => true,
            _ => false,
        }
    }

    pub fn is_initialised(&self) -> (r: bool)
        ensures
            r == self.spec_initialised(),
    {
        self.initialised
    }

    pub fn version(&self) -> (r: ProtocolVersion)
        ensures
            r == self.spec_version(),
    {
        self.protocol_version
    }

    /// Begins the wake-up sequence. Valid only once per session: a session
    /// that is already initialised is left exactly as it was.
    pub fn initialise(&mut self) -> (r: Result<TxAction, StmDeviceError>)
        requires
            old(self).wf(),
            old(self).spec_op() is Idle,
        ensures
            final(self).wf(),
            final(self).spec_retries() == old(self).spec_retries(),
            final(self).spec_initialised() == old(self).spec_initialised(),
            final(self).spec_version() == old(self).spec_version(),
            old(self).spec_initialised() ==> r == Err::<TxAction, StmDeviceError>(
                StmDeviceError::AlreadyInitialised,
            ) && *final(self) == *old(self),
            !old(self).spec_initialised() ==> final(self).spec_op() is WakeWrite && (
            r matches Ok(TxAction::Write(f)) && f@ =~= seq![WAKE_BYTE]),
    {
        if self.initialised {
            Err(StmDeviceError::AlreadyInitialised)
        } else {
            self.op = OpState::WakeWrite;
            let mut frame: Vec<u8> = Vec::new();
            frame.push(WAKE_BYTE);
            Ok(TxAction::Write(frame))
        }
    }

    /// Begins a command exchange for `goal`. Valid only on an initialised
    /// session: before the wake-up every command fails and changes nothing.
    fn begin_command(&mut self, goal: Goal, command: Command) -> (r: Result<
        TxAction,
        StmDeviceError,
    >)
        requires
            old(self).wf(),
            old(self).spec_op() is Idle,
        ensures
            final(self).wf(),
            final(self).spec_retries() == old(self).spec_retries(),
            final(self).spec_initialised() == old(self).spec_initialised(),
            final(self).spec_version() == old(self).spec_version(),
            !old(self).spec_initialised() ==> r == Err::<TxAction, StmDeviceError>(
                StmDeviceError::Uninitialised,
            ) && *final(self) == *old(self),
            old(self).spec_initialised() ==> final(self).spec_op() == (OpState::CmdWrite {
                goal,
                command,
                attempts_left: old(self).spec_retries(),
            }) && (r matches Ok(TxAction::Write(f)) && f@ == command.spec_frame()),
    {
        if !self.initialised {
            Err(StmDeviceError::Uninitialised)
        } else {
            self.op = OpState::CmdWrite { goal, command, attempts_left: self.retry_amount };
            Ok(TxAction::Write(command.to_bytes()))
        }
    }

    /// Begins a bare command exchange: the command frame is written and its
    /// acknowledgement awaited, with the session's retry policy, and nothing
    /// follows it.
    pub fn retry_command(&mut self, command: Command) -> (r: Result<TxAction, StmDeviceError>)
        requires
            old(self).wf(),
            old(self).spec_op() is Idle,
        ensures
            final(self).wf(),
            final(self).spec_retries() == old(self).spec_retries(),
            final(self).spec_initialised() == old(self).spec_initialised(),
            final(self).spec_version() == old(self).spec_version(),
            !old(self).spec_initialised() ==> r == Err::<TxAction, StmDeviceError>(
                StmDeviceError::Uninitialised,
            ) && *final(self) == *old(self),
            old(self).spec_initialised() ==> final(self).spec_op() == (OpState::CmdWrite {
                goal: Goal::Bare,
                command,
                attempts_left: old(self).spec_retries(),
            }) && (r matches Ok(TxAction::Write(f)) && f@ == command.spec_frame()),
    {
        self.begin_command(Goal::Bare, command)
    }

    /// Begins the protocol query: the `Get` command, then the version-info
    /// payload whose bytes are validated under the announced version.
    pub fn get_protocol(&mut self) -> (r: Result<TxAction, StmDeviceError>)
        requires
            old(self).wf(),
            old(self).spec_op() is Idle,
        ensures
            final(self).wf(),
            final(self).spec_retries() == old(self).spec_retries(),
            final(self).spec_initialised() == old(self).spec_initialised(),
            final(self).spec_version() == old(self).spec_version(),
            !old(self).spec_initialised() ==> r == Err::<TxAction, StmDeviceError>(
                StmDeviceError::Uninitialised,
            ) && *final(self) == *old(self),
            old(self).spec_initialised() ==> final(self).spec_op() == (OpState::CmdWrite {
                goal: Goal::Protocol,
                command: Command::Common(CommonCommand::Get),
                attempts_left: old(self).spec_retries(),
            }) && (r matches Ok(TxAction::Write(f)) && f@ == Command::Common(
                CommonCommand::Get,
            ).spec_frame()),
    {
        self.begin_command(Goal::Protocol, Command::Common(CommonCommand::Get))
    }

    /// Begins the fixed-size version query: the `Get` command, then exactly
    /// three payload bytes of which the first carries the version.
    pub fn get_version(&mut self) -> (r: Result<TxAction, StmDeviceError>)
        requires
            old(self).wf(),
            old(self).spec_op() is Idle,
        ensures
            final(self).wf(),
            final(self).spec_retries() == old(self).spec_retries(),
            final(self).spec_initialised() == old(self).spec_initialised(),
            final(self).spec_version() == old(self).spec_version(),
            !old(self).spec_initialised() ==> r == Err::<TxAction, StmDeviceError>(
                StmDeviceError::Uninitialised,
            ) && *final(self) == *old(self),
            old(self).spec_initialised() ==> final(self).spec_op() == (OpState::CmdWrite {
                goal: Goal::Version,
                command: Command::Common(CommonCommand::Get),
                attempts_left: old(self).spec_retries(),
            }) && (r matches Ok(TxAction::Write(f)) && f@ == Command::Common(
                CommonCommand::Get,
            ).spec_frame()),
    {
        self.begin_command(Goal::Version, Command::Common(CommonCommand::Get))
    }

    /// Begins the identity query: the `GetId` command, then the identity
    /// payload decoded as a [`ProductId`].
    pub fn get_id(&mut self) -> (r: Result<TxAction, StmDeviceError>)
        requires
            old(self).wf(),
            old(self).spec_op() is Idle,
        ensures
            final(self).wf(),
            final(self).spec_retries() == old(self).spec_retries(),
            final(self).spec_initialised() == old(self).spec_initialised(),
            final(self).spec_version() == old(self).spec_version(),
            !old(self).spec_initialised() ==> r == Err::<TxAction, StmDeviceError>(
                StmDeviceError::Uninitialised,
            ) && *final(self) == *old(self),
            old(self).spec_initialised() ==> final(self).spec_op() == (OpState::CmdWrite {
                goal: Goal::Id,
                command: Command::Common(CommonCommand::GetId),
                attempts_left: old(self).spec_retries(),
            }) && (r matches Ok(TxAction::Write(f)) && f@ == Command::Common(
                CommonCommand::GetId,
            ).spec_frame()),
    {
        self.begin_command(Goal::Id, Command::Common(CommonCommand::GetId))
    }

    /// Begins a memory read: the `ReadMemory` command, then the address as
    /// four big-endian bytes under an XOR-fold frame, then the complemented
    /// count frame, then `count + 1` raw data bytes with no trailing
    /// acknowledgement.
    pub fn read_memory(&mut self, address: u32, byte_count: u8) -> (r: Result<
        TxAction,
        StmDeviceError,
    >)
        requires
            old(self).wf(),
            old(self).spec_op() is Idle,
        ensures
            final(self).wf(),
            final(self).spec_retries() == old(self).spec_retries(),
            final(self).spec_initialised() == old(self).spec_initialised(),
            final(self).spec_version() == old(self).spec_version(),
            !old(self).spec_initialised() ==> r == Err::<TxAction, StmDeviceError>(
                StmDeviceError::Uninitialised,
            ) && *final(self) == *old(self),
            old(self).spec_initialised() ==> final(self).spec_op() == (OpState::CmdWrite {
                goal: Goal::Memory { address, count: byte_count },
                command: Command::Common(CommonCommand::ReadMemory),
                attempts_left: old(self).spec_retries(),
            }) && (r matches Ok(TxAction::Write(f)) && f@ == Command::Common(
                CommonCommand::ReadMemory,
            ).spec_frame()),
    {
        self.begin_command(
            Goal::Memory { address, count: byte_count },
            Command::Common(CommonCommand::ReadMemory),
        )
    }

    /// A transport error consumed one attempt of the exchange: write the
    /// frame again while an attempt is left, else fail the command.
    fn retry_or_fail(&mut self, goal: Goal, command: Command, attempts_left: u8) -> (r:
        StepOutcome)
        requires
            old(self).wf(),
            old(self).spec_op() is Idle,
            attempts_left >= 1,
        ensures
            final(self).wf(),
            final(self).spec_retries() == old(self).spec_retries(),
            final(self).spec_initialised() == old(self).spec_initialised(),
            final(self).spec_version() == old(self).spec_version(),
            spec_retry_again(*final(self), r, goal, command, attempts_left),
    {
        if attempts_left > 1 {
            self.op = OpState::CmdWrite { goal, command, attempts_left: attempts_left - 1 };
            StepOutcome::Pending(TxAction::Write(command.to_bytes()))
        } else {
            StepOutcome::Failed(StmDeviceError::RetryExceeded(command))
        }
    }

    /// The device acknowledged the command frame: move to what the goal
    /// asks for next.
    fn continue_goal(&mut self, goal: Goal) -> (r: StepOutcome)
        requires
            old(self).wf(),
            old(self).spec_op() is Idle,
        ensures
            final(self).wf(),
            final(self).spec_retries() == old(self).spec_retries(),
            final(self).spec_initialised() == old(self).spec_initialised(),
            final(self).spec_version() == old(self).spec_version(),
            spec_goal_continues(goal, *final(self), r),
    {
        match goal {
            Goal::Bare => StepOutcome::Done(OpOutput::CommandAccepted),
            Goal::Protocol => {
                self.op = OpState::ProtoLen;
                StepOutcome::Pending(TxAction::Read(1))
            },
            Goal::Version => {
                self.op = OpState::VersionPayload;
                StepOutcome::Pending(TxAction::Read(3))
            },
            Goal::Id => {
                self.op = OpState::IdLen;
                StepOutcome::Pending(TxAction::Read(1))
            },
            Goal::Memory { address, count } => {
                self.op = OpState::MemAddrWrite { address, count };
                let addr_bytes = u32_be_bytes(address);
                StepOutcome::Pending(TxAction::Write(encode_multi(&addr_bytes)))
            },
        }
    }

    /// Ends the protocol query with the payload as read: validates it and,
    /// on success, adopts the announced version.
    fn finish_protocol(&mut self, payload: &Vec<u8>) -> (r: StepOutcome)
        requires
            old(self).wf(),
            old(self).spec_op() is Idle,
        ensures
            final(self).wf(),
            final(self).spec_op() is Idle,
            final(self).spec_retries() == old(self).spec_retries(),
            final(self).spec_initialised() == old(self).spec_initialised(),
            spec_protocol_result(payload@, old(self).spec_version(), *final(self), r),
            r is Done || r is Failed,
    {
        match Protocol::parse(payload) {
            Ok(p) => {
                self.protocol_version = p.version;
                StepOutcome::Done(OpOutput::Protocol(p))
            },
            Err(e) => StepOutcome::Failed(StmDeviceError::ProtocolError(e)),
        }
    }

    /// Ends the fixed-size version query: adopts and returns the version
    /// carried by the payload's first byte.
    fn finish_version(&mut self, payload: &Vec<u8>) -> (r: StepOutcome)
        requires
            old(self).wf(),
            old(self).spec_op() is Idle,
            payload@.len() >= 1,
        ensures
            final(self).wf(),
            final(self).spec_op() is Idle,
            final(self).spec_retries() == old(self).spec_retries(),
            final(self).spec_initialised() == old(self).spec_initialised(),
            final(self).spec_version() == ProtocolVersion::spec_from_byte(payload@[0]),
            r == StepOutcome::Done(
                OpOutput::Version(ProtocolVersion::spec_from_byte(payload@[0])),
            ),
    {
        let v = ProtocolVersion::from_byte(payload[0]);
        self.protocol_version = v;
        StepOutcome::Done(OpOutput::Version(v))
    }

    /// Feeds the outcome of the pending action into the machine and receives
    /// the next pending action, the finished operation, or its failure.
    pub fn step(&mut self, ev: TxEvent) -> (r: StepOutcome)
        requires
            old(self).wf(),
            !(old(self).spec_op() is Idle),
            old(self).spec_expects(ev),
        ensures
            final(self).wf(),
            final(self).spec_retries() == old(self).spec_retries(),
            // the two one-way state fields change only at their completions
            final(self).spec_initialised() == old(self).spec_initialised() || r
                == StepOutcome::Done(OpOutput::Initialised),
            r == StepOutcome::Done(OpOutput::Initialised) ==> final(self).spec_initialised(),
            old(self).spec_initialised() ==> final(self).spec_initialised(),
            final(self).spec_version() == old(self).spec_version() || (
            r matches StepOutcome::Done(o) && (o is Protocol || o is Version)),
            old(self).spec_version().spec_is_known() ==> final(self).spec_version().spec_is_known(),
            // completion and failure leave the session idle; failure changes
            // nothing else
            r is Done ==> final(self).spec_op() is Idle,
            r is Failed ==> final(self).spec_op() is Idle && final(self).spec_initialised()
                == old(self).spec_initialised() && final(self).spec_version()
                == old(self).spec_version(),
            spec_transition(*old(self), ev, *final(self), r),
    {
        let mut op = OpState::Idle;
        core::mem::swap(&mut op, &mut self.op);
        match (op, ev) {
            (OpState::WakeWrite, TxEvent::WriteOk) => {
                self.op = OpState::WakeSync;
                StepOutcome::Pending(TxAction::Read(1))
            },
            (OpState::WakeWrite, TxEvent::WriteErr) => StepOutcome::Failed(StmDeviceError::Io),
            (OpState::WakeSync, TxEvent::ReadOk(b)) => {
                match Response::parse(b[0]) {
                    Ok(Response::Ack) => {
                        self.initialised = true;
                        StepOutcome::Done(OpOutput::Initialised)
                    },
                    Ok(Response::Nack) => {
                        self.op = OpState::WakeSync;
                        StepOutcome::Pending(TxAction::Read(1))
                    },
                    Err(e) => StepOutcome::Failed(e),
                }
            },
            (OpState::WakeSync, TxEvent::ReadErr) => StepOutcome::Failed(StmDeviceError::Io),
            (OpState::CmdWrite { goal, command, attempts_left }, TxEvent::WriteOk) => {
                self.op = OpState::CmdAwait { goal, command, attempts_left };
                StepOutcome::Pending(TxAction::Read(1))
            },
            (OpState::CmdWrite { goal, command, attempts_left }, TxEvent::WriteErr) => self
                .retry_or_fail(goal, command, attempts_left),
            (OpState::CmdAwait { goal, command, .. }, TxEvent::ReadOk(b)) => {
                match Response::parse(b[0]) {
                    Ok(Response::Ack) => self.continue_goal(goal),
                    Ok(Response::Nack) => StepOutcome::Failed(StmDeviceError::CommandFail(command)),
                    Err(e) => StepOutcome::Failed(e),
                }
            },
            (OpState::CmdAwait { goal, command, attempts_left }, TxEvent::ReadErr) => self
                .retry_or_fail(goal, command, attempts_left),
            (OpState::ProtoLen, TxEvent::ReadOk(b)) => {
                self.op = OpState::ProtoPayload { len: b[0] };
                StepOutcome::Pending(TxAction::Read(b[0] as usize + 1))
            },
            (OpState::ProtoPayload { .. }, TxEvent::ReadOk(b)) => {
                self.op = OpState::ProtoAck { payload: b };
                StepOutcome::Pending(TxAction::Read(1))
            },
            (OpState::ProtoAck { payload }, TxEvent::ReadOk(b)) => {
                match Response::parse(b[0]) {
                    Ok(Response::Ack) => self.finish_protocol(&payload),
                    Ok(Response::Nack) => StepOutcome::Failed(StmDeviceError::Nack),
                    Err(e) => StepOutcome::Failed(e),
                }
            },
            (OpState::ProtoAck { payload }, TxEvent::ReadErr) => self.finish_protocol(&payload),
            (OpState::VersionPayload, TxEvent::ReadOk(b)) => {
                self.op = OpState::VersionAck { payload: b };
                StepOutcome::Pending(TxAction::Read(1))
            },
            (OpState::VersionAck { payload }, TxEvent::ReadOk(b)) => {
                match Response::parse(b[0]) {
                    Ok(Response::Ack) => self.finish_version(&payload),
                    Ok(Response::Nack) => StepOutcome::Failed(StmDeviceError::Nack),
                    Err(e) => StepOutcome::Failed(e),
                }
            },
            (OpState::VersionAck { payload }, TxEvent::ReadErr) => self.finish_version(&payload),
            (OpState::IdLen, TxEvent::ReadOk(b)) => {
                self.op = OpState::IdPayload { len: b[0] };
                StepOutcome::Pending(TxAction::Read(b[0] as usize + 1))
            },
            (OpState::IdPayload { .. }, TxEvent::ReadOk(b)) => {
                self.op = OpState::IdAck { payload: b };
                StepOutcome::Pending(TxAction::Read(1))
            },
            (OpState::IdAck { payload }, TxEvent::ReadOk(b)) => {
                match Response::parse(b[0]) {
                    Ok(Response::Ack) => StepOutcome::Done(
                        OpOutput::Id(ProductId::decode(&payload)),
                    ),
                    Ok(Response::Nack) => StepOutcome::Failed(StmDeviceError::Nack),
                    Err(e) => StepOutcome::Failed(e),
                }
            },
            (OpState::IdAck { payload }, TxEvent::ReadErr) => StepOutcome::Done(
                OpOutput::Id(ProductId::decode(&payload)),
            ),
            (OpState::MemAddrWrite { count, .. }, TxEvent::WriteOk) => {
                self.op = OpState::MemAddrAck { count };
                StepOutcome::Pending(TxAction::Read(1))
            },
            (OpState::MemAddrWrite { .. }, TxEvent::WriteErr) => StepOutcome::Failed(
                StmDeviceError::Io,
            ),
            (OpState::MemAddrAck { count }, TxEvent::ReadOk(b)) => {
                match Response::parse(b[0]) {
                    Ok(Response::Ack) => {
                        self.op = OpState::MemCountWrite { count };
                        StepOutcome::Pending(TxAction::Write(encode_single(count)))
                    },
                    Ok(Response::Nack) => StepOutcome::Failed(StmDeviceError::Nack),
                    Err(e) => StepOutcome::Failed(e),
                }
            },
            (OpState::MemAddrAck { .. }, TxEvent::ReadErr) => StepOutcome::Failed(
                StmDeviceError::Io,
            ),
            (OpState::MemCountWrite { count }, TxEvent::WriteOk) => {
                self.op = OpState::MemCountAck { count };
                StepOutcome::Pending(TxAction::Read(1))
            },
            (OpState::MemCountWrite { .. }, TxEvent::WriteErr) => StepOutcome::Failed(
                StmDeviceError::Io,
            ),
            (OpState::MemCountAck { count }, TxEvent::ReadOk(b)) => {
                match Response::parse(b[0]) {
                    Ok(Response::Ack) => {
                        self.op = OpState::MemData { count };
                        StepOutcome::Pending(TxAction::Read(count as usize + 1))
                    },
                    Ok(Response::Nack) => StepOutcome::Failed(StmDeviceError::Nack),
                    Err(e) => StepOutcome::Failed(e),
                }
            },
            (OpState::MemCountAck { .. }, TxEvent::ReadErr) => StepOutcome::Failed(
                StmDeviceError::Io,
            ),
            (OpState::MemData { .. }, TxEvent::ReadOk(b)) => StepOutcome::Done(
                OpOutput::Memory(b),
            ),
            (OpState::MemData { .. }, TxEvent::ReadErr) => StepOutcome::Failed(StmDeviceError::Io),
            (OpState::ProtoLen, TxEvent::ReadErr) => StepOutcome::Failed(StmDeviceError::Io),
            (OpState::ProtoPayload { .. }, TxEvent::ReadErr) => StepOutcome::Failed(
                StmDeviceError::Io,
            ),
            (OpState::VersionPayload, TxEvent::ReadErr) => StepOutcome::Failed(StmDeviceError::Io),
            (OpState::IdLen, TxEvent::ReadErr) => StepOutcome::Failed(StmDeviceError::Io),
            (OpState::IdPayload { .. }, TxEvent::ReadErr) => StepOutcome::Failed(
                StmDeviceError::Io,
            ),
            _ => {
                proof {
                    assert(false);
                }
                StepOutcome::Failed(StmDeviceError::Io)
            },
        }
    }
}

/// How an identity payload decodes: two bytes make the big-endian 16-bit
/// identifier, any other length stays an opaque sequence.
pub open spec fn spec_id_decoded(s: Seq<u8>, pid: ProductId) -> bool {
    if s.len() == 2 {
        pid matches ProductId::Stm32(id) && id == s[0] * 0x100 + s[1]
    } else {
        pid matches ProductId::Unknown(v) && v@ == s
    }
}

} // verus!
