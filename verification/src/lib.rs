//! EnOcean Serial Protocol 3 (ESP3): framing, CRC8 integrity checking,
//! typed packet encoding/decoding, and Equipment Profile (EEP) payload
//! interpretation for EnOcean radio gateways.
//!
//! The protocol engine is transport-free: it turns byte buffers into
//! CRC-validated frames ([`frame`]), frames into typed packets
//! ([`enocean`], [`packet`]), telegram payloads into readings and
//! commands into telegrams ([`eep`], [`reading`]), and keeps the
//! streaming and request/response state ([`link`]).  Whatever owns the
//! transport feeds bytes in and writes the serialized bytes out.

use vstd::prelude::*;

pub mod crc8;
pub mod eep;
pub mod enocean;
pub mod frame;
pub mod link;
pub mod packet;
pub mod reading;

verus! {

/// The errors that may occur while reading a frame from a byte buffer.
/// There is no variant for sync-byte or header-CRC failures: those are
/// treated as synchronization noise, skipped one byte at a time.
#[derive(Debug)]
pub enum FrameReadError {
    /// The buffer ended before a complete frame was available; the caller
    /// may retry once more bytes arrive, or treat this as end of stream.
    EOF,
    /// The data CRC of the frame was incorrect: carries the offending
    /// frame bytes and the CRC computed over its data sections.
    DataCRC { frame: Vec<u8>, data_crc: u8 },
}

/// The errors of a whole command exchange: reading the reply frame, or
/// decoding it as a typed packet.
#[derive(Debug)]
pub enum PacketError {
    /// The reply frame could not be read.
    FrameError(FrameReadError),
    /// The reply frame could not be decoded as a response.
    ParseError(packet::ParseError),
}

/// Kind of error raised while turning raw bytes into an ESP3 packet.
#[derive(Debug, Clone, PartialEq, Eq)]
pub enum ParseEspErrorKind {
    NoSyncByte,
    CrcMismatch,
    IncompleteMessage,
    Unimplemented,
}

/// Error raised while turning raw bytes into an ESP3 packet: carries the
/// offending bytes and, where one byte is to blame, its index.
#[derive(Debug, Clone)]
pub struct ParseEspError {
    /// Kind of failure.
    pub kind: ParseEspErrorKind,
    /// Associated message.
    pub message: String,
    /// Index of the byte which caused the error, where one is to blame.
    pub byte_index: Option<i32>,
    /// Bytes which caused this error.
    pub packet: Vec<u8>,
}

} // verus!
