use uart_control::command::{Command, CommonCommand, PostV4Command, PreV4Command};
use uart_control::protocol::{Protocol, ProtocolError, ProtocolVersion, Response};
use uart_control::session::StmDeviceError;

#[test]
fn command_opcodes() {
    assert_eq!(Command::Common(CommonCommand::Get).opcode(), 0x00);
    assert_eq!(Command::Common(CommonCommand::GetVersion).opcode(), 0x01);
    assert_eq!(Command::Common(CommonCommand::GetId).opcode(), 0x02);
    assert_eq!(Command::Common(CommonCommand::ReadMemory).opcode(), 0x11);
    assert_eq!(Command::Common(CommonCommand::Go).opcode(), 0x21);
    assert_eq!(Command::Common(CommonCommand::WriteMemory).opcode(), 0x31);
    assert_eq!(Command::Common(CommonCommand::ExtendedErase).opcode(), 0x44);
    assert_eq!(Command::Common(CommonCommand::WriteProtect).opcode(), 0x63);
    assert_eq!(Command::PreV4(PreV4Command::Erase).opcode(), 0x43);
    assert_eq!(Command::PreV4(PreV4Command::WriteUnprotect).opcode(), 0x73);
    assert_eq!(Command::PreV4(PreV4Command::ReadoutProtect).opcode(), 0x82);
    assert_eq!(Command::PreV4(PreV4Command::ReadoutUnprotect).opcode(), 0x92);
    assert_eq!(Command::PostV4(PostV4Command::Special).opcode(), 0x50);
    assert_eq!(Command::PostV4(PostV4Command::Write).opcode(), 0x73);
}

#[test]
fn command_frame_is_opcode_and_complement() {
    assert_eq!(Command::Common(CommonCommand::Get).to_bytes(), vec![0x00, 0xFF]);
    assert_eq!(Command::Common(CommonCommand::ReadMemory).to_bytes(), vec![0x11, 0xEE]);
    assert_eq!(Command::PreV4(PreV4Command::Erase).to_bytes(), vec![0x43, 0xBC]);
}

#[test]
fn version_from_byte_splits_nibbles() {
    assert_eq!(ProtocolVersion::from_byte(0x31).version, Some((3, 1)));
    assert_eq!(ProtocolVersion::from_byte(0x45).version, Some((4, 5)));
    assert_eq!(ProtocolVersion::from_byte(0x00).version, Some((0, 0)));
    assert_eq!(ProtocolVersion::from_byte(0xFF).version, Some((15, 15)));
}

#[test]
fn version_observers() {
    let unknown = ProtocolVersion::unknown();
    assert!(!unknown.is_known());
    assert!(!unknown.is_post_v4());
    let v31 = ProtocolVersion::from_byte(0x31);
    assert!(v31.is_known());
    assert!(!v31.is_post_v4());
    let v40 = ProtocolVersion::from_byte(0x40);
    assert!(v40.is_known());
    assert!(v40.is_post_v4());
}

#[test]
fn resolve_with_unknown_version_matches_only_common() {
    let common: [u8; 8] = [0x00, 0x01, 0x02, 0x11, 0x21, 0x31, 0x44, 0x63];
    let unknown = ProtocolVersion::unknown();
    for b in 0..=255u8 {
        let resolved = unknown.parse_command(b);
        if common.contains(&b) {
            assert!(matches!(resolved, Some(Command::Common(_))));
        } else {
            assert!(resolved.is_none());
        }
    }
}

#[test]
fn resolve_is_version_gated() {
    let pre = ProtocolVersion::from_byte(0x31);
    assert_eq!(pre.parse_command(0x43), Some(Command::PreV4(PreV4Command::Erase)));
    assert_eq!(
        pre.parse_command(0x73),
        Some(Command::PreV4(PreV4Command::WriteUnprotect))
    );
    assert_eq!(
        pre.parse_command(0x92),
        Some(Command::PreV4(PreV4Command::ReadoutUnprotect))
    );
    assert_eq!(pre.parse_command(0x50), None);

    let post = ProtocolVersion::from_byte(0x40);
    assert_eq!(post.parse_command(0x43), None);
    assert_eq!(post.parse_command(0x73), Some(Command::PostV4(PostV4Command::Write)));
    assert_eq!(post.parse_command(0x50), Some(Command::PostV4(PostV4Command::Special)));

    // the common set wins under every version
    assert_eq!(
        pre.parse_command(0x11),
        Some(Command::Common(CommonCommand::ReadMemory))
    );
    assert_eq!(
        post.parse_command(0x11),
        Some(Command::Common(CommonCommand::ReadMemory))
    );
}

#[test]
fn protocol_parse_rejects_empty_payload() {
    assert_eq!(Protocol::parse(&vec![]), Err(ProtocolError::MissingProtocol));
}

#[test]
fn protocol_parse_accepts_valid_command_list() {
    let parsed = Protocol::parse(&vec![0x31, 0x43, 0x00, 0x73]).unwrap();
    assert_eq!(parsed.version.version, Some((3, 1)));
}

#[test]
fn protocol_parse_lists_every_unknown_byte() {
    let result = Protocol::parse(&vec![0x31, 0x99, 0x43, 0xAB]);
    match result {
        Err(ProtocolError::UnknownCommands { version, unknown_commands }) => {
            assert_eq!(version.version, Some((3, 1)));
            assert_eq!(unknown_commands, vec![0x99, 0xAB]);
        }
        other => panic!("expected unknown commands, got {:?}", other),
    }
}

#[test]
fn protocol_parse_validates_under_announced_version() {
    // 0x73 resolves both before and after version 4, 0x43 only before
    assert!(Protocol::parse(&vec![0x31, 0x43]).is_ok());
    let result = Protocol::parse(&vec![0x40, 0x43]);
    match result {
        Err(ProtocolError::UnknownCommands { unknown_commands, .. }) => {
            assert_eq!(unknown_commands, vec![0x43]);
        }
        other => panic!("expected unknown commands, got {:?}", other),
    }
    assert!(Protocol::parse(&vec![0x40, 0x73]).is_ok());
}

#[test]
fn response_parse_classifies_bytes() {
    assert_eq!(Response::parse(0x79), Ok(Response::Ack));
    assert_eq!(Response::parse(0x1F), Ok(Response::Nack));
    for b in 0..=255u8 {
        if b != 0x79 && b != 0x1F {
            assert_eq!(Response::parse(b), Err(StmDeviceError::ExpectedAck(b)));
        }
    }
}

#[test]
fn response_ack_rejects_nack() {
    assert_eq!(Response::Ack.ack(), Ok(()));
    assert_eq!(Response::Nack.ack(), Err(StmDeviceError::Nack));
}
