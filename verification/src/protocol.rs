//! Protocol version handling and the response codec.
//!
//! A version is a `(major, minor)` nibble pair parsed from one status byte.
//! It gates which extended command set a byte can resolve to: the common set
//! always matches first; an extended set is consulted only once the version
//! is known, `PreV4` when the major part is below 4 and `PostV4` otherwise.

use vstd::prelude::*;
use crate::command::{Command, CommonCommand, PostV4Command, PreV4Command};
use crate::framing::{ACK, NACK};
use crate::session::StmDeviceError;

verus! {

/// The negotiated protocol version of a session, if one is known yet.
#[derive(Clone, Copy, Debug, PartialEq, Eq)]
pub struct ProtocolVersion {
    pub version: Option<(u8, u8)>,
}

impl ProtocolVersion {
    /// Version parsed from a status byte: high nibble major, low nibble minor.
    pub open spec fn spec_from_byte(b: u8) -> ProtocolVersion {
        ProtocolVersion { version: Some(((b / 16) as u8, (b % 16) as u8)) }
    }

    pub open spec fn spec_is_known(self) -> bool {
        self.version is Some
    }

    pub open spec fn spec_is_post_v4(self) -> bool {
        match self.version {
            Some(v) => v.0 >= 4,
            None => false,
        }
    }

    /// The command a byte denotes under this version: the common set first,
    /// then — only with a known version — the version-appropriate extended
    /// set. With the version unknown only common opcodes resolve.
    pub open spec fn spec_parse_command(self, b: u8) -> Option<Command> {
        match CommonCommand::spec_from_opcode(b) {
            Some(c) => Some(Command::Common(c)),
            None => {
                if !self.spec_is_known() {
                    None
                } else if self.spec_is_post_v4() {
                    match PostV4Command::spec_from_opcode(b) {
                        Some(c) => Some(Command::PostV4(c)),
                        None => None,
                    }
                } else {
                    match PreV4Command::spec_from_opcode(b) {
                        Some(c) => Some(Command::PreV4(c)),
                        None => None,
                    }
                }
            },
        }
    }

    /// A version that has not been negotiated yet.
    pub fn unknown() -> (r: ProtocolVersion)
        ensures
            r.version is None,
    {
        ProtocolVersion { version: None }
    }

    /// Parses a version from its status byte.
    pub fn from_byte(b: u8) -> (r: ProtocolVersion)
        ensures
            r == Self::spec_from_byte(b),
    {
        ProtocolVersion { version: Some((b / 16, b % 16)) }
    }

    pub fn is_known(&self) -> (r: bool)
        ensures
            r == self.spec_is_known(),
    {
        self.version.is_some()
    }

    pub fn is_post_v4(&self) -> (r: bool)
        ensures
            r == self.spec_is_post_v4(),
    {
        match self.version {
            Some(v) => v.0 >= 4,
            None => false,
        }
    }

    /// Resolves a byte to a command under this version.
    pub fn parse_command(&self, command: u8) -> (r: Option<Command>)
        ensures
            r == self.spec_parse_command(command),
    {
        match CommonCommand::from_opcode(command) {
            Some(c) => Some(Command::Common(c)),
            None => {
                if !self.is_known() {
                    None
                } else if self.is_post_v4() {
                    match PostV4Command::from_opcode(command) {
                        Some(c) => Some(Command::PostV4(c)),
                        None => None,
                    }
                } else {
                    match PreV4Command::from_opcode(command) {
                        Some(c) => Some(Command::PreV4(c)),
                        None => None,
                    }
                }
            },
        }
    }
}

/// With the version unknown, a byte resolves exactly when it is one of the
/// eight common opcodes, and then always to the common command.
pub proof fn lemma_resolve_unknown_version(b: u8)
    ensures
        (ProtocolVersion { version: None }).spec_parse_command(b) is Some <==> (b == 0x00
            || b == 0x01 || b == 0x02 || b == 0x11 || b == 0x21 || b == 0x31 || b == 0x44
            || b == 0x63),
        (ProtocolVersion { version: None }).spec_parse_command(b) matches Some(c) ==> c is Common,
{
}

/// Before version 4 the extended set is `PreV4`: `0x43` is its erase command
/// and `0x73` its write-unprotect command.
pub proof fn lemma_resolve_pre_v4(major: u8, minor: u8)
    requires
        major < 4,
    ensures
        (ProtocolVersion { version: Some((major, minor)) }).spec_parse_command(0x43)
            == Some(Command::PreV4(PreV4Command::Erase)),
        (ProtocolVersion { version: Some((major, minor)) }).spec_parse_command(0x73)
            == Some(Command::PreV4(PreV4Command::WriteUnprotect)),
{
}

/// From version 4 onwards the extended set is `PostV4`: `0x43` no longer
/// resolves at all, and `0x73` now means the write command, not the pre-v4
/// write-unprotect command.
pub proof fn lemma_resolve_post_v4(major: u8, minor: u8)
    requires
        major >= 4,
    ensures
        (ProtocolVersion { version: Some((major, minor)) }).spec_parse_command(0x43) is None,
        (ProtocolVersion { version: Some((major, minor)) }).spec_parse_command(0x73)
            == Some(Command::PostV4(PostV4Command::Write)),
{
}

/// Failures of the version-info payload check.
#[derive(Clone, Debug, PartialEq, Eq)]
pub enum ProtocolError {
    /// The payload held no byte to take the version from.
    MissingProtocol,
    /// A response byte was no valid command opcode.
    InvalidCommand(u8),
    /// Bytes of the version-info payload that resolve to no command under
    /// the version the payload itself announced.
    UnknownCommands { version: ProtocolVersion, unknown_commands: Vec<u8> },
}

/// A fully validated protocol announcement from the device.
#[derive(Clone, Debug, PartialEq, Eq)]
pub struct Protocol {
    pub version: ProtocolVersion,
}

/// The bytes of `s` that resolve to no command under version `v`, in order.
pub open spec fn spec_unresolved(v: ProtocolVersion, s: Seq<u8>) -> Seq<u8>
    decreases s.len(),
{
    if s.len() == 0 {
        Seq::empty()
    } else {
        spec_unresolved(v, s.drop_last()) + (if v.spec_parse_command(s.last()) is None {
            seq![s.last()]
        } else {
            Seq::empty()
        })
    }
}

/// No byte of `s` is left unresolved exactly when every byte of `s`
/// resolves to a command under `v`.
pub proof fn lemma_unresolved_empty(v: ProtocolVersion, s: Seq<u8>)
    ensures
        spec_unresolved(v, s).len() == 0 <==> (forall|i: int|
            0 <= i < s.len() ==> v.spec_parse_command(s[i]) is Some),
    decreases s.len(),
{
    if s.len() > 0 {
        lemma_unresolved_empty(v, s.drop_last());
        assert(forall|i: int| 0 <= i < s.len() - 1 ==> s.drop_last()[i] == s[i]);
        assert(s.last() == s[s.len() - 1]);
    }
}

impl Protocol {
    /// Validates a version-info payload: the first byte carries the version;
    /// every following byte must resolve to a command under that version.
    /// All bytes that fail resolution are reported, not only the first.
    pub fn parse(bytes: &Vec<u8>) -> (r: Result<Protocol, ProtocolError>)
        ensures
            bytes@.len() == 0 ==> r == Err::<Protocol, ProtocolError>(
                ProtocolError::MissingProtocol,
            ),
            bytes@.len() > 0 ==> ({
                let v = ProtocolVersion::spec_from_byte(bytes@[0]);
                let unk = spec_unresolved(v, bytes@.skip(1));
                if unk.len() == 0 {
                    r matches Ok(p) && p.version == v
                } else {
                    r matches Err(ProtocolError::UnknownCommands { version, unknown_commands })
                        && version == v && unknown_commands@ == unk
                }
            }),
    {
        if bytes.len() == 0 {
            return Err(ProtocolError::MissingProtocol);
        }
        let version = ProtocolVersion::from_byte(bytes[0]);
        let mut unknown_commands: Vec<u8> = Vec::new();
        let mut i: usize = 1;
        while i < bytes.len()
            invariant
                1 <= i <= bytes@.len(),
                version == ProtocolVersion::spec_from_byte(bytes@[0]),
                unknown_commands@ == spec_unresolved(version, bytes@.subrange(1, i as int)),
            decreases bytes@.len() - i,
        {
            proof {
                assert(bytes@.subrange(1, i + 1).drop_last() =~= bytes@.subrange(1, i as int));
                assert(bytes@.subrange(1, i + 1).last() == bytes@[i as int]);
            }
            if version.parse_command(bytes[i]).is_none() {
                unknown_commands.push(bytes[i]);
            }
            i = i + 1;
        }
        proof {
            assert(bytes@.subrange(1, bytes@.len() as int) =~= bytes@.skip(1));
        }
        if unknown_commands.len() == 0 {
            proof {
                assert(spec_unresolved(version, bytes@.skip(1)).len() == 0);
            }
            Ok(Protocol { version })
        } else {
            Err(ProtocolError::UnknownCommands { version, unknown_commands })
        }
    }
}

/// The device's one-byte answer to a command or a written frame.
#[derive(Clone, Copy, Debug, PartialEq, Eq, Structural)]
pub enum Response {
    Ack,
    Nack,
}

impl Response {
    /// Classifies a response byte. Any byte besides the two handshake values
    /// is a protocol violation carrying the offending byte.
    pub fn parse(value: u8) -> (r: Result<Response, StmDeviceError>)
        ensures
            value == ACK ==> r == Ok::<Response, StmDeviceError>(Response::Ack),
            value == NACK ==> r == Ok::<Response, StmDeviceError>(Response::Nack),
            value != ACK && value != NACK ==> r == Err::<Response, StmDeviceError>(
                StmDeviceError::ExpectedAck(value),
            ),
    {
        match value {
            0x79 => Ok(Response::Ack),
            0x1F => Ok(Response::Nack),
            _ => Err(StmDeviceError::ExpectedAck(value)),
        }
    }

    /// Turns the response into a result: an acknowledgement succeeds, a
    /// negative acknowledgement is the device's explicit refusal.
    pub fn ack(self) -> (r: Result<(), StmDeviceError>)
        ensures
            self is Ack ==> r is Ok,
            self is Nack ==> r == Err::<(), StmDeviceError>(StmDeviceError::Nack),
    {
        match self {
            Response::Ack => Ok(()),
            Response::Nack => Err(StmDeviceError::Nack),
        }
    }
}

} // verus!
