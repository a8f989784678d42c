//! Device-side engine for an STM32-style USART bootloader protocol.
//!
//! The crate models the wire format (frames with complement or XOR-fold
//! checksums), the three overlapping command sets with version-gated opcode
//! resolution, the ACK/NACK response codec, and the device session as an
//! explicit state machine: each operation is begun on the session and then
//! driven by feeding transport events in exchange for transport actions.
//! The caller performs the actions (writes and exact-length reads) on a real
//! serial port; everything the engine decides is verified.

pub mod command;
pub mod config;
pub mod framing;
pub mod protocol;
pub mod session;
