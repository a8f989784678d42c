//! Command catalog: three overlapping opcode namespaces. `Common` opcodes are
//! valid under every protocol version; `PreV4` and `PostV4` are the two
//! mutually exclusive extended sets. The same byte may mean different things
//! in different sets, so a byte alone never identifies a command — resolution
//! is version-gated and lives in [`crate::protocol`].

use vstd::prelude::*;
use crate::framing::encode_single;

verus! {

/// Commands every bootloader version understands.
#[derive(Clone, Copy, Debug, PartialEq, Eq, Structural)]
pub enum CommonCommand {
    Get,
    GetVersion,
    GetId,
    ReadMemory,
    Go,
    WriteMemory,
    ExtendedErase,
    WriteProtect,
}

/// Commands only defined before protocol version 4.
#[derive(Clone, Copy, Debug, PartialEq, Eq, Structural)]
pub enum PreV4Command {
    Erase,
    WriteUnprotect,
    ReadoutProtect,
    ReadoutUnprotect,
}

/// Commands only defined from protocol version 4 onwards.
#[derive(Clone, Copy, Debug, PartialEq, Eq, Structural)]
pub enum PostV4Command {
    Special,
    Write,
}

/// A command from any of the three namespaces.
#[derive(Clone, Copy, Debug, PartialEq, Eq, Structural)]
pub enum Command {
    Common(CommonCommand),
    PreV4(PreV4Command),
    PostV4(PostV4Command),
}

impl CommonCommand {
    /// Wire opcode of the command.
    pub open spec fn spec_opcode(self) -> u8 {
        match self {
            CommonCommand::Get => 0x00,
            CommonCommand::GetVersion => 0x01,
            CommonCommand::GetId => 0x02,
            CommonCommand::ReadMemory => 0x11,
            CommonCommand::Go => 0x21,
            CommonCommand::WriteMemory => 0x31,
            CommonCommand::ExtendedErase => 0x44,
            CommonCommand::WriteProtect => 0x63,
        }
    }

    /// The command a byte denotes in the common set, if any.
    pub open spec fn spec_from_opcode(b: u8) -> Option<CommonCommand> {
        if b == 0x00 {
            Some(CommonCommand::Get)
        } else if b == 0x01 {
            Some(CommonCommand::GetVersion)
        } else if b == 0x02 {
            Some(CommonCommand::GetId)
        } else if b == 0x11 {
            Some(CommonCommand::ReadMemory)
        } else if b == 0x21 {
            Some(CommonCommand::Go)
        } else if b == 0x31 {
            Some(CommonCommand::WriteMemory)
        } else if b == 0x44 {
            Some(CommonCommand::ExtendedErase)
        } else if b == 0x63 {
            Some(CommonCommand::WriteProtect)
        } else {
            None
        }
    }

    pub fn opcode(self) -> (r: u8)
        ensures
            r == self.spec_opcode(),
    {
        match self {
            CommonCommand::Get => 0x00,
            CommonCommand::GetVersion => 0x01,
            CommonCommand::GetId => 0x02,
            CommonCommand::ReadMemory => 0x11,
            CommonCommand::Go => 0x21,
            CommonCommand::WriteMemory => 0x31,
            CommonCommand::ExtendedErase => 0x44,
            CommonCommand::WriteProtect => 0x63,
        }
    }

    pub fn from_opcode(b: u8) -> (r: Option<CommonCommand>)
        ensures
            r == Self::spec_from_opcode(b),
    {
        match b {
            0x00 => Some(CommonCommand::Get),
            0x01 => Some(CommonCommand::GetVersion),
            0x02 => Some(CommonCommand::GetId),
            0x11 => Some(CommonCommand::ReadMemory),
            0x21 => Some(CommonCommand::Go),
            0x31 => Some(CommonCommand::WriteMemory),
            0x44 => Some(CommonCommand::ExtendedErase),
            0x63 => Some(CommonCommand::WriteProtect),
            _ => None,
        }
    }
}

impl PreV4Command {
    /// Wire opcode of the command.
    pub open spec fn spec_opcode(self) -> u8 {
        match self {
            PreV4Command::Erase => 0x43,
            PreV4Command::WriteUnprotect => 0x73,
            PreV4Command::ReadoutProtect => 0x82,
            PreV4Command::ReadoutUnprotect => 0x92,
        }
    }

    /// The command a byte denotes in the pre-v4 extended set, if any.
    pub open spec fn spec_from_opcode(b: u8) -> Option<PreV4Command> {
        if b == 0x43 {
            Some(PreV4Command::Erase)
        } else if b == 0x73 {
            Some(PreV4Command::WriteUnprotect)
        } else if b == 0x82 {
            Some(PreV4Command::ReadoutProtect)
        } else if b == 0x92 {
            Some(PreV4Command::ReadoutUnprotect)
        } else {
            None
        }
    }

    pub fn opcode(self) -> (r: u8)
        ensures
            r == self.spec_opcode(),
    {
        match self {
            PreV4Command::Erase => 0x43,
            PreV4Command::WriteUnprotect => 0x73,
            PreV4Command::ReadoutProtect => 0x82,
            PreV4Command::ReadoutUnprotect => 0x92,
        }
    }

    pub fn from_opcode(b: u8) -> (r: Option<PreV4Command>)
        ensures
            r == Self::spec_from_opcode(b),
    {
        match b {
            0x43 => Some(PreV4Command::Erase),
            0x73 => Some(PreV4Command::WriteUnprotect),
            0x82 => Some(PreV4Command::ReadoutProtect),
            0x92 => Some(PreV4Command::ReadoutUnprotect),
            _ => None,
        }
    }
}

impl PostV4Command {
    /// Wire opcode of the command.
    pub open spec fn spec_opcode(self) -> u8 {
        match self {
            PostV4Command::Special => 0x50,
            PostV4Command::Write => 0x73,
        }
    }

    /// The command a byte denotes in the post-v4 extended set, if any.
    pub open spec fn spec_from_opcode(b: u8) -> Option<PostV4Command> {
        if b == 0x50 {
            Some(PostV4Command::Special)
        } else if b == 0x73 {
            Some(PostV4Command::Write)
        } else {
            None
        }
    }

    pub fn opcode(self) -> (r: u8)
        ensures
            r == self.spec_opcode(),
    {
        match self {
            PostV4Command::Special => 0x50,
            PostV4Command::Write => 0x73,
        }
    }

    pub fn from_opcode(b: u8) -> (r: Option<PostV4Command>)
        ensures
            r == Self::spec_from_opcode(b),
    {
        match b {
            0x50 => Some(PostV4Command::Special),
            0x73 => Some(PostV4Command::Write),
            _ => None,
        }
    }
}

impl Command {
    /// Wire opcode of the command, whichever namespace it comes from.
    pub open spec fn spec_opcode(self) -> u8 {
        match self {
            Command::Common(c) => c.spec_opcode(),
            Command::PreV4(c) => c.spec_opcode(),
            Command::PostV4(c) => c.spec_opcode(),
        }
    }

    pub fn opcode(self) -> (r: u8)
        ensures
            r == self.spec_opcode(),
    {
        match self {
            Command::Common(c) => c.opcode(),
            Command::PreV4(c) => c.opcode(),
            Command::PostV4(c) => c.opcode(),
        }
    }

    /// Wire frame of the command: its opcode followed by the complement.
    pub open spec fn spec_frame(self) -> Seq<u8> {
        seq![self.spec_opcode(), self.spec_opcode() ^ 0xFF]
    }

    /// Encodes the command as its wire frame.
    pub fn to_bytes(self) -> (r: Vec<u8>)
        ensures
            r@ == self.spec_frame(),
            r@.len() == 2,
    {
        let r = encode_single(self.opcode());
        proof {
            assert(r@ =~= self.spec_frame());
        }
        r
    }
}

} // verus!
