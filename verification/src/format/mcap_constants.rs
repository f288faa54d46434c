//! MCAP magic bytes and record opcodes.

use vstd::prelude::*;

verus! {

/// Magic bytes that open and close every MCAP file: `0x89 "MCAP" 0x30 "\r\n"`.
pub const MCAP_MAGIC: [u8; 8] = [0x89u8, 0x4Du8, 0x43u8, 0x41u8, 0x50u8, 0x30u8, 0x0Du8, 0x0Au8];

/// Header record opcode.
pub const OP_HEADER: u8 = 0x01;

/// Footer record opcode.
pub const OP_FOOTER: u8 = 0x02;

/// Schema record opcode.
pub const OP_SCHEMA: u8 = 0x03;

/// Channel record opcode.
pub const OP_CHANNEL: u8 = 0x04;

/// Message record opcode.
pub const OP_MESSAGE: u8 = 0x05;

/// Chunk record opcode.
pub const OP_CHUNK: u8 = 0x06;

/// Message index record opcode.
pub const OP_MESSAGE_INDEX: u8 = 0x07;

/// Chunk index record opcode.
pub const OP_CHUNK_INDEX: u8 = 0x08;

/// Statistics record opcode.
pub const OP_STATISTICS: u8 = 0x0B;

/// Summary offset record opcode.
pub const OP_SUMMARY_OFFSET: u8 = 0x0E;

/// Data end record opcode.
pub const OP_DATA_END: u8 = 0x0F;

} // verus!
