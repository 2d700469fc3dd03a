//! ESP3 packet representation: turning raw bytes into a typed [`ESP3`]
//! value and back.
//!
//! An ESP3 packet on the wire is `0x55, u16 data length (big endian),
//! u8 optional length, u8 packet type, CRC8 over those four bytes,
//! data, optional data, CRC8 over both data sections`.  The layout of the
//! data sections depends on the packet type: radio telegrams (ERP1) carry
//! a radio organization byte, a profile-specific payload, the sender
//! identifier and a status byte; responses carry a return code and an
//! optional payload; every other packet type is kept verbatim as raw
//! bytes, so that unknown packets still serialize back byte for byte.

use vstd::prelude::*;

use crate::crc8::crc8_of;
use crate::{ParseEspError, ParseEspErrorKind};

pub use crate::crc8::compute_crc8;

verus! {

/// Packet type of an ESP3 packet, one variant per assigned type byte;
/// `Undefined` carries its type byte verbatim, so a packet of any type,
/// assigned or not, serializes back to the byte it arrived under.
#[derive(PartialEq, Eq, Structural, Debug, Clone, Copy)]
pub enum PacketType {
    RadioErp1,
    Response,
    RadioSubTel,
    Event,
    CommonCommand,
    SmartAckCommand,
    RemoteManCommand,
    RadioMessage,
    RadioErp2,
    Radio802_15_4,
    Command2_4,
    Undefined(u8),
}

/// The type byte each [`PacketType`] stands for.
pub open spec fn packet_type_byte(pt: PacketType) -> u8 {
    match pt {
        PacketType::RadioErp1 => 0x01,
        PacketType::Response => 0x02,
        PacketType::RadioSubTel => 0x03,
        PacketType::Event => 0x04,
        PacketType::CommonCommand => 0x05,
        PacketType::SmartAckCommand => 0x06,
        PacketType::RemoteManCommand => 0x07,
        PacketType::RadioMessage => 0x09,
        PacketType::RadioErp2 => 0x0A,
        PacketType::Radio802_15_4 => 0x10,
        PacketType::Command2_4 => 0x11,
        PacketType::Undefined(b) => b,
    }
}

/// The [`PacketType`] a type byte stands for: total, with unassigned
/// bytes kept verbatim under `Undefined`.
pub open spec fn packet_type_of_byte(b: u8) -> PacketType {
    if b == 0x01 {
        PacketType::RadioErp1
    } else if b == 0x02 {
        PacketType::Response
    } else if b == 0x03 {
        PacketType::RadioSubTel
    } else if b == 0x04 {
        PacketType::Event
    } else if b == 0x05 {
        PacketType::CommonCommand
    } else if b == 0x06 {
        PacketType::SmartAckCommand
    } else if b == 0x07 {
        PacketType::RemoteManCommand
    } else if b == 0x09 {
        PacketType::RadioMessage
    } else if b == 0x0A {
        PacketType::RadioErp2
    } else if b == 0x10 {
        PacketType::Radio802_15_4
    } else if b == 0x11 {
        PacketType::Command2_4
    } else {
        PacketType::Undefined(b)
    }
}

/// The type bytes with an assigned meaning (0xFF is the assigned
/// "undefined" byte of the wire format).
pub open spec fn packet_type_assigned(b: u8) -> bool {
    b == 0x01 || b == 0x02 || b == 0x03 || b == 0x04 || b == 0x05 || b == 0x06 || b == 0x07
        || b == 0x09 || b == 0x0A || b == 0x10 || b == 0x11 || b == 0xFF
}

/// Radio organization byte of an ERP1 telegram, one variant per assigned
/// byte; `Undefined` carries its byte verbatim, so every telegram
/// serializes back to the radio-organization byte it arrived under.
#[derive(PartialEq, Eq, Structural, Debug, Clone, Copy)]
pub enum Rorg {
    Undefined(u8),
    Rps,
    Bs1,
    Bs4,
    Vld,
    Msc,
    Adt,
    Ute,
    SmLrnReq,
    SmLrnAns,
    SmRec,
    SysEx,
    Sec,
    SecEncaps,
}

/// The radio-organization byte each [`Rorg`] stands for.
pub open spec fn rorg_byte(r: Rorg) -> u8 {
    match r {
        Rorg::Undefined(b) => b,
        Rorg::Rps => 0xF6,
        Rorg::Bs1 => 0xD5,
        Rorg::Bs4 => 0xA5,
        Rorg::Vld => 0xD2,
        Rorg::Msc => 0xD1,
        Rorg::Adt => 0xA6,
        Rorg::Ute => 0xD4,
        Rorg::SmLrnReq => 0xC6,
        Rorg::SmLrnAns => 0xC7,
        Rorg::SmRec => 0xA7,
        Rorg::SysEx => 0xC5,
        Rorg::Sec => 0x30,
        Rorg::SecEncaps => 0x31,
    }
}

/// The [`Rorg`] a radio-organization byte stands for; unassigned bytes
/// are kept verbatim under `Undefined`.
pub open spec fn rorg_of_byte(b: u8) -> Rorg {
    if b == 0xF6 {
        Rorg::Rps
    } else if b == 0xD5 {
        Rorg::Bs1
    } else if b == 0xA5 {
        Rorg::Bs4
    } else if b == 0xD2 {
        Rorg::Vld
    } else if b == 0xD1 {
        Rorg::Msc
    } else if b == 0xA6 {
        Rorg::Adt
    } else if b == 0xD4 {
        Rorg::Ute
    } else if b == 0xC6 {
        Rorg::SmLrnReq
    } else if b == 0xC7 {
        Rorg::SmLrnAns
    } else if b == 0xA7 {
        Rorg::SmRec
    } else if b == 0xC5 {
        Rorg::SysEx
    } else if b == 0x30 {
        Rorg::Sec
    } else if b == 0x31 {
        Rorg::SecEncaps
    } else {
        Rorg::Undefined(b)
    }
}

/// Return code of a response packet; `Undefined` carries its byte
/// verbatim, so every response serializes back to the return-code byte
/// it arrived under.
#[derive(PartialEq, Eq, Structural, Debug, Clone, Copy)]
pub enum ReturnCode {
    RetOk,
    Error,
    NotSupported,
    WrongParam,
    OperationDenied,
    LockSet,
    BufferTooSmall,
    NoFreeBuffer,
    Undefined(u8),
}

/// The byte each [`ReturnCode`] stands for.
pub open spec fn return_code_byte(rc: ReturnCode) -> u8 {
    match rc {
        ReturnCode::RetOk => 0x00,
        ReturnCode::Error => 0x01,
        ReturnCode::NotSupported => 0x02,
        ReturnCode::WrongParam => 0x03,
        ReturnCode::OperationDenied => 0x04,
        ReturnCode::LockSet => 0x05,
        ReturnCode::BufferTooSmall => 0x06,
        ReturnCode::NoFreeBuffer => 0x07,
        ReturnCode::Undefined(b) => b,
    }
}

/// The [`ReturnCode`] a byte stands for; unassigned bytes are kept
/// verbatim under `Undefined`.
pub open spec fn return_code_of_byte(b: u8) -> ReturnCode {
    if b == 0x00 {
        ReturnCode::RetOk
    } else if b == 0x01 {
        ReturnCode::Error
    } else if b == 0x02 {
        ReturnCode::NotSupported
    } else if b == 0x03 {
        ReturnCode::WrongParam
    } else if b == 0x04 {
        ReturnCode::OperationDenied
    } else if b == 0x05 {
        ReturnCode::LockSet
    } else if b == 0x06 {
        ReturnCode::BufferTooSmall
    } else if b == 0x07 {
        ReturnCode::NoFreeBuffer
    } else {
        ReturnCode::Undefined(b)
    }
}

/// The return-code bytes of the enumeration (0xFF is the assigned
/// "undefined" byte of the wire format).
pub open spec fn return_code_assigned(b: u8) -> bool {
    b <= 0x07 || b == 0xFF
}

/// Data section of an ESP3 packet, keyed by its packet type.
#[derive(Debug, PartialEq, Clone)]
pub enum DataType {
    /// Verbatim data section of a packet type that is not interpreted.
    RawData { raw_data: Vec<u8> },
    /// Data section of a Radio-ERP1 telegram: radio organization byte,
    /// profile-specific payload, sender identifier and status byte.
    Erp1Data { rorg: Rorg, sender_id: [u8; 4], status: u8, payload: Vec<u8> },
    /// Data section of a response packet: return code, then an optional
    /// payload.
    ResponseData { return_code: ReturnCode, response_payload: Option<Vec<u8>> },
}

/// Optional-data section of an ESP3 packet.
#[derive(Debug, PartialEq, Clone)]
pub enum OptDataType {
    /// Verbatim optional-data section.
    RawData { raw_data: Vec<u8> },
    /// Optional data of a Radio-ERP1 telegram: sub-telegram counter,
    /// destination identifier, signal strength and security level.
    Erp1OptData { subtel_num: u8, destination_id: [u8; 4], rssi: u8, security_lvl: u8 },
}

/// An EnOcean Serial Packet: the typed form of one CRC-validated frame.
#[derive(Debug, PartialEq, Clone)]
pub struct ESP3 {
    /// Length of the data section, as announced by the header.
    pub data_length: u16,
    /// Length of the optional-data section, as announced by the header.
    pub optional_data_length: u8,
    /// Packet type of this packet.
    pub packet_type: PacketType,
    /// The data section, interpreted according to the packet type.
    pub data: DataType,
    /// The optional-data section, where one is present.
    pub opt_data: Option<OptDataType>,
    /// CRC8 over the four header bytes after the sync byte.
    pub crc_header: u8,
    /// CRC8 over the data and optional-data sections.
    pub crc_data: u8,
}

/// The serialized data section of a packet.
pub open spec fn esp3_data_section(e: ESP3) -> Seq<u8> {
    match e.data {
        DataType::RawData { raw_data } => raw_data@,
        DataType::Erp1Data { rorg, sender_id, status, payload } => seq![rorg_byte(rorg)]
            + payload@ + sender_id@ + seq![status],
        DataType::ResponseData { return_code, response_payload } => seq![
            return_code_byte(return_code),
        ] + match response_payload {
            Some(p) => p@,
            None => Seq::<u8>::empty(),
        },
    }
}

/// The serialized optional-data section of a packet.
pub open spec fn esp3_opt_section(e: ESP3) -> Seq<u8> {
    match e.opt_data {
        None => Seq::<u8>::empty(),
        Some(OptDataType::RawData { raw_data }) => raw_data@,
        Some(OptDataType::Erp1OptData { subtel_num, destination_id, rssi, security_lvl }) => seq![
            subtel_num,
        ] + destination_id@ + seq![rssi, security_lvl],
    }
}

/// The complete wire bytes of a packet, serialized from its fields.
pub open spec fn esp3_bytes(e: ESP3) -> Seq<u8> {
    seq![
        0x55u8,
        (e.data_length / 256) as u8,
        (e.data_length % 256) as u8,
        e.optional_data_length,
        packet_type_byte(e.packet_type),
        e.crc_header,
    ] + esp3_data_section(e) + esp3_opt_section(e) + seq![e.crc_data]
}

/// A packet is well formed when its stored lengths and checksums agree
/// with its data sections, and the interpretation of its data sections
/// agrees with its packet type.  Every well-formed packet serializes to
/// bytes that parse back to the same packet.
pub open spec fn esp3_wf(e: ESP3) -> bool {
    let data = esp3_data_section(e);
    let opt = esp3_opt_section(e);
    &&& e.data_length == data.len()
    &&& e.optional_data_length == opt.len()
    &&& e.crc_header == crc8_of(
        seq![
            (e.data_length / 256) as u8,
            (e.data_length % 256) as u8,
            e.optional_data_length,
            packet_type_byte(e.packet_type),
        ],
    )
    &&& e.crc_data == crc8_of(data + opt)
    &&& packet_type_of_byte(packet_type_byte(e.packet_type)) == e.packet_type
    &&& match e.data {
        DataType::Erp1Data { rorg, .. } => {
            &&& e.packet_type == PacketType::RadioErp1
            &&& rorg_of_byte(rorg_byte(rorg)) == rorg
            &&& e.opt_data matches Some(OptDataType::Erp1OptData { .. })
        },
        DataType::ResponseData { return_code, response_payload } => {
            &&& e.packet_type == PacketType::Response
            &&& return_code_of_byte(return_code_byte(return_code)) == return_code
            &&& (response_payload matches Some(p) ==> p@.len() >= 1)
            &&& match e.opt_data {
                None => true,
                Some(OptDataType::RawData { raw_data }) => raw_data@.len() >= 1,
                Some(OptDataType::Erp1OptData { .. }) => false,
            }
        },
        DataType::RawData { raw_data } => {
            &&& e.opt_data matches Some(OptDataType::RawData { .. })
            &&& !(e.packet_type == PacketType::RadioErp1 && raw_data@.len() >= 6 && opt.len()
                == 7)
            &&& !(e.packet_type == PacketType::Response && raw_data@.len() >= 1)
        },
    }
}

/// All checks an incoming byte sequence must pass to parse as a packet:
/// sync byte, minimal length, header CRC, announced length available,
/// and data CRC.  The packet type byte is never a reason to fail: an
/// unassigned one yields the verbatim representation.
pub open spec fn esp3_parse_ok(s: Seq<u8>) -> bool {
    let dl = s[1] * 256 + s[2];
    let ol = s[3] as int;
    &&& s.len() > 7
    &&& s[0] == 0x55
    &&& crc8_of(s.subrange(1, 5)) == s[5]
    &&& s.len() >= dl + ol + 7
    &&& crc8_of(s.subrange(6, 6 + dl + ol)) == s[6 + dl + ol]
}

/// `e` is exactly the packet parsed from the valid byte sequence `s`.
pub open spec fn esp3_represents(e: ESP3, s: Seq<u8>) -> bool
    recommends
        esp3_parse_ok(s),
{
    let dl = s[1] * 256 + s[2];
    let ol = s[3] as int;
    &&& e.data_length == dl
    &&& e.optional_data_length == ol
    &&& e.packet_type == packet_type_of_byte(s[4])
    &&& e.crc_header == s[5]
    &&& e.crc_data == s[6 + dl + ol]
    &&& if s[4] == 0x01 && dl >= 6 && ol == 7 {
        &&& e.data matches DataType::Erp1Data { rorg, sender_id, status, payload }
            && rorg == rorg_of_byte(s[6]) && sender_id@ == s.subrange(1 + dl, 5 + dl) && status
            == s[5 + dl] && payload@ == s.subrange(7, 1 + dl)
        &&& e.opt_data matches Some(
            OptDataType::Erp1OptData { subtel_num, destination_id, rssi, security_lvl },
        ) && subtel_num == s[6 + dl] && destination_id@ == s.subrange(7 + dl, 11 + dl) && rssi
            == s[11 + dl] && security_lvl == s[12 + dl]
    } else if s[4] == 0x02 && dl >= 1 {
        &&& e.data matches DataType::ResponseData { return_code, response_payload }
            && return_code == return_code_of_byte(s[6]) && (if dl > 1 {
            response_payload matches Some(p) && p@ == s.subrange(7, 6 + dl)
        } else {
            response_payload is None
        })
        &&& if ol == 0 {
            e.opt_data is None
        } else {
            e.opt_data matches Some(OptDataType::RawData { raw_data }) && raw_data@
                == s.subrange(6 + dl, 6 + dl + ol)
        }
    } else {
        &&& e.data matches DataType::RawData { raw_data } && raw_data@ == s.subrange(6, 6 + dl)
        &&& e.opt_data matches Some(OptDataType::RawData { raw_data }) && raw_data@
            == s.subrange(6 + dl, 6 + dl + ol)
    }
}

/// Clone the given byte vector into an EnOcean message buffer.
pub fn get_raw_message(em: Vec<u8>) -> (r: Vec<u8>)
    ensures
        r@ == em@,
{
    em
}

/// The type byte a [`PacketType`] serializes to.
pub fn packet_type_to_byte(pt: PacketType) -> (r: u8)
    ensures
        r == packet_type_byte(pt),
{
    match pt {
        PacketType::RadioErp1 => 0x01,
        PacketType::Response => 0x02,
        PacketType::RadioSubTel => 0x03,
        PacketType::Event => 0x04,
        PacketType::CommonCommand => 0x05,
        PacketType::SmartAckCommand => 0x06,
        PacketType::RemoteManCommand => 0x07,
        PacketType::RadioMessage => 0x09,
        PacketType::RadioErp2 => 0x0A,
        PacketType::Radio802_15_4 => 0x10,
        PacketType::Command2_4 => 0x11,
        PacketType::Undefined(b) => b,
    }
}

/// The [`PacketType`] a type byte stands for; an unassigned byte is
/// kept verbatim under `Undefined`.
pub fn packet_type_from_byte(b: u8) -> (r: PacketType)
    ensures
        r == packet_type_of_byte(b),
{
    match b {
        0x01 => PacketType::RadioErp1,
        0x02 => PacketType::Response,
        0x03 => PacketType::RadioSubTel,
        0x04 => PacketType::Event,
        0x05 => PacketType::CommonCommand,
        0x06 => PacketType::SmartAckCommand,
        0x07 => PacketType::RemoteManCommand,
        0x09 => PacketType::RadioMessage,
        0x0A => PacketType::RadioErp2,
        0x10 => PacketType::Radio802_15_4,
        0x11 => PacketType::Command2_4,
        other => PacketType::Undefined(other),
    }
}

/// Given a message whose type byte is in place, return the corresponding
/// [`PacketType`] where the byte is assigned, or an error naming the
/// byte's position.
pub fn get_packet_type(em: &[u8]) -> (r: Result<PacketType, ParseEspError>)
    requires
        em@.len() > 4,
    ensures
        ({
            if packet_type_assigned(em@[4]) {
                r matches Ok(p) && p == packet_type_of_byte(em@[4])
            } else {
                &&& r matches Err(e)
                &&& e.kind == ParseEspErrorKind::Unimplemented
                &&& e.message@ == "Invalid or unimplemented yet packet type"@
                &&& e.byte_index == Some(4i32)
                &&& e.packet@ == em@
            }
        }),
{
    let pt = packet_type_from_byte(em[4]);
    let assigned = match pt {
        PacketType::Undefined(b) => b == 0xFF,
        _ => true,
    };
    if assigned {
        Ok(pt)
    } else {
        Err(
            parse_error(
                ParseEspErrorKind::Unimplemented,
                "Invalid or unimplemented yet packet type",
                Some(4),
                em,
            ),
        )
    }
}

/// The [`ReturnCode`] a return-code byte stands for; an unassigned
/// byte is kept verbatim under `Undefined`.
pub fn get_return_code(rc_byte: u8) -> (r: ReturnCode)
    ensures
        r == return_code_of_byte(rc_byte),
{
    match rc_byte {
        0x00 => ReturnCode::RetOk,
        0x01 => ReturnCode::Error,
        0x02 => ReturnCode::NotSupported,
        0x03 => ReturnCode::WrongParam,
        0x04 => ReturnCode::OperationDenied,
        0x05 => ReturnCode::LockSet,
        0x06 => ReturnCode::BufferTooSmall,
        0x07 => ReturnCode::NoFreeBuffer,
        other => ReturnCode::Undefined(other),
    }
}

/// The byte a [`ReturnCode`] serializes to.
pub fn return_code_to_byte(rc: ReturnCode) -> (r: u8)
    ensures
        r == return_code_byte(rc),
{
    match rc {
        ReturnCode::RetOk => 0x00,
        ReturnCode::Error => 0x01,
        ReturnCode::NotSupported => 0x02,
        ReturnCode::WrongParam => 0x03,
        ReturnCode::OperationDenied => 0x04,
        ReturnCode::LockSet => 0x05,
        ReturnCode::BufferTooSmall => 0x06,
        ReturnCode::NoFreeBuffer => 0x07,
        ReturnCode::Undefined(b) => b,
    }
}

/// The [`Rorg`] a radio-organization byte stands for; unassigned bytes
/// are kept verbatim under `Undefined`.
pub fn get_radio_organization(b: u8) -> (r: Rorg)
    ensures
        r == rorg_of_byte(b),
{
    match b {
        0xF6 => Rorg::Rps,
        0xD5 => Rorg::Bs1,
        0xA5 => Rorg::Bs4,
        0xD2 => Rorg::Vld,
        0xD1 => Rorg::Msc,
        0xA6 => Rorg::Adt,
        0xD4 => Rorg::Ute,
        0xC6 => Rorg::SmLrnReq,
        0xC7 => Rorg::SmLrnAns,
        0xA7 => Rorg::SmRec,
        0xC5 => Rorg::SysEx,
        0x30 => Rorg::Sec,
        0x31 => Rorg::SecEncaps,
        other => Rorg::Undefined(other),
    }
}

/// The byte a [`Rorg`] serializes to.
pub fn rorg_to_byte(r: Rorg) -> (b: u8)
    ensures
        b == rorg_byte(r),
{
    match r {
        Rorg::Undefined(b) => b,
        Rorg::Rps => 0xF6,
        Rorg::Bs1 => 0xD5,
        Rorg::Bs4 => 0xA5,
        Rorg::Vld => 0xD2,
        Rorg::Msc => 0xD1,
        Rorg::Adt => 0xA6,
        Rorg::Ute => 0xD4,
        Rorg::SmLrnReq => 0xC6,
        Rorg::SmLrnAns => 0xC7,
        Rorg::SmRec => 0xA7,
        Rorg::SysEx => 0xC5,
        Rorg::Sec => 0x30,
        Rorg::SecEncaps => 0x31,
    }
}

/// Build a parse error carrying the given message and offending bytes.
fn parse_error(
    kind: ParseEspErrorKind,
    message: &str,
    byte_index: Option<i32>,
    packet: &[u8],
) -> (r: ParseEspError)
    ensures
        r.kind == kind,
        r.message@ == message@,
        r.byte_index == byte_index,
        r.packet@ == packet@,
{
    ParseEspError {
        kind,
        message: message.to_owned(),
        byte_index,
        packet: vstd::slice::slice_to_vec(packet),
    }
}

/// Turn a byte buffer into a typed ESP3 packet.
///
/// Every check the wire format asks for is made, in order: the sync
/// byte, the minimal length, the header CRC, the announced lengths, and
/// the data CRC; the returned error says which one failed, and where one
/// byte is to blame, its index.  The packet type byte is never a reason
/// to fail: a packet of an unassigned type is carried verbatim.  On
/// success the result's fields are exactly the interpreted bytes
/// ([`esp3_represents`]).
pub fn esp3_of_enocean_message(em: &[u8]) -> (r: Result<ESP3, ParseEspError>)
    ensures
        r is Ok <==> esp3_parse_ok(em@),
        ({
            let s = em@;
            let dl = s[1] * 256 + s[2];
            let ol = s[3] as int;
            if s.len() == 0 {
                r matches Err(e) && e.kind == ParseEspErrorKind::IncompleteMessage && e.message@
                    == "Invalid input message"@ && e.byte_index is None && e.packet@ == s
            } else if s[0] != 0x55 {
                r matches Err(e) && e.kind == ParseEspErrorKind::NoSyncByte && e.message@
                    == "Sync Byte Error"@ && e.byte_index == Some(0i32) && e.packet@ == s
            } else if s.len() <= 7 {
                r matches Err(e) && e.kind == ParseEspErrorKind::IncompleteMessage && e.message@
                    == "Invalid input message"@ && e.byte_index is None && e.packet@ == s
            } else if crc8_of(s.subrange(1, 5)) != s[5] {
                r matches Err(e) && e.kind == ParseEspErrorKind::CrcMismatch && e.message@
                    == "CRC Error"@ && e.byte_index == Some(5i32) && e.packet@ == s
            } else if s.len() < dl + ol + 7 {
                r matches Err(e) && e.kind == ParseEspErrorKind::IncompleteMessage && e.message@
                    == "Packet length error"@ && e.byte_index is None && e.packet@ == s
            } else if crc8_of(s.subrange(6, 6 + dl + ol)) != s[6 + dl + ol] {
                r matches Err(e) && e.kind == ParseEspErrorKind::CrcMismatch && e.message@
                    == "CRC Data Error"@ && (e.byte_index matches Some(ix) && ix == 6 + dl + ol)
                    && e.packet@ == s
            } else {
                r matches Ok(e) && esp3_represents(e, s)
            }
        }),
{
    let ghost s = em@;
    let n = em.len();
    if n == 0 {
        return Err(
            parse_error(ParseEspErrorKind::IncompleteMessage, "Invalid input message", None, em),
        );
    }
    if em[0] != 0x55 {
        return Err(
            parse_error(ParseEspErrorKind::NoSyncByte, "Sync Byte Error", Some(0), em),
        );
    }
    if n <= 7 {
        return Err(
            parse_error(ParseEspErrorKind::IncompleteMessage, "Invalid input message", None, em),
        );
    }
    let crc_header = em[5];
    if compute_crc8(&em[1..5]) != crc_header {
        return Err(parse_error(ParseEspErrorKind::CrcMismatch, "CRC Error", Some(5), em));
    }
    let data_length: u16 = (em[1] as u16) * 256 + (em[2] as u16);
    let optional_data_length: u8 = em[3];
    let dl = data_length as usize;
    let ol = optional_data_length as usize;
    if n < dl + ol + 7 {
        return Err(
            parse_error(ParseEspErrorKind::IncompleteMessage, "Packet length error", None, em),
        );
    }
    let crc_data = em[6 + dl + ol];
    if compute_crc8(&em[6..6 + dl + ol]) != crc_data {
        return Err(
            parse_error(
                ParseEspErrorKind::CrcMismatch,
                "CRC Data Error",
                Some((6 + dl + ol) as i32),
                em,
            ),
        );
    }
    let packet_type = packet_type_from_byte(em[4]);
    let data: DataType;
    let opt_data: Option<OptDataType>;
    if matches!(packet_type, PacketType::RadioErp1) && dl >= 6 && ol == 7 {
        let sender_id: [u8; 4] = [em[1 + dl], em[2 + dl], em[3 + dl], em[4 + dl]];
        data = DataType::Erp1Data {
            rorg: get_radio_organization(em[6]),
            sender_id,
            status: em[5 + dl],
            payload: vstd::slice::slice_to_vec(&em[7..1 + dl]),
        };
        let destination_id: [u8; 4] = [em[7 + dl], em[8 + dl], em[9 + dl], em[10 + dl]];
        opt_data = Some(
            OptDataType::Erp1OptData {
                subtel_num: em[6 + dl],
                destination_id,
                rssi: em[11 + dl],
                security_lvl: em[12 + dl],
            },
        );
        proof {
            assert(sender_id@ =~= s.subrange(1 + dl, 5 + dl));
            assert(destination_id@ =~= s.subrange(7 + dl, 11 + dl));
        }
    } else if matches!(packet_type, PacketType::Response) && dl >= 1 {
        let response_payload: Option<Vec<u8>> = if data_length > 1 {
            Some(vstd::slice::slice_to_vec(&em[7..6 + dl]))
        } else {
            None
        };
        data = DataType::ResponseData {
            return_code: get_return_code(em[6]),
            response_payload,
        };
        opt_data = if ol == 0 {
            None
        } else {
            Some(OptDataType::RawData { raw_data: vstd::slice::slice_to_vec(&em[6 + dl..6 + dl + ol]) })
        };
    } else {
        data = DataType::RawData { raw_data: vstd::slice::slice_to_vec(&em[6..6 + dl]) };
        opt_data = Some(
            OptDataType::RawData { raw_data: vstd::slice::slice_to_vec(&em[6 + dl..6 + dl + ol]) },
        );
    }
    Ok(
        ESP3 {
            data_length,
            optional_data_length,
            packet_type,
            data,
            opt_data,
            crc_header,
            crc_data,
        },
    )
}

/// Serialize a packet back to its wire bytes, exactly as its fields
/// stand: sync byte, header, header CRC, both data sections, data CRC.
impl ESP3 {
    #[verifier::rlimit(60)]
    pub fn to_bytes(&self) -> (r: Vec<u8>)
        ensures
            r@ == esp3_bytes(*self),
    {
        let mut out: Vec<u8> = Vec::new();
        out.push(0x55);
        out.push((self.data_length / 256) as u8);
        out.push((self.data_length % 256) as u8);
        out.push(self.optional_data_length);
        out.push(packet_type_to_byte(self.packet_type));
        out.push(self.crc_header);
        match &self.data {
            DataType::RawData { raw_data } => {
                out.extend_from_slice(raw_data.as_slice());
            },
            DataType::Erp1Data { rorg, sender_id, status, payload } => {
                out.push(rorg_to_byte(*rorg));
                out.extend_from_slice(payload.as_slice());
                out.push(sender_id[0]);
                out.push(sender_id[1]);
                out.push(sender_id[2]);
                out.push(sender_id[3]);
                out.push(*status);
                proof {
                    assert(sender_id@ =~= seq![
                        sender_id@[0],
                        sender_id@[1],
                        sender_id@[2],
                        sender_id@[3],
                    ]);
                }
            },
            DataType::ResponseData { return_code, response_payload } => {
                out.push(return_code_to_byte(*return_code));
                match response_payload {
                    Some(payload) => {
                        out.extend_from_slice(payload.as_slice());
                    },
                    None => {},
                }
            },
        }
        match &self.opt_data {
            None => {},
            Some(OptDataType::RawData { raw_data }) => {
                out.extend_from_slice(raw_data.as_slice());
            },
            Some(OptDataType::Erp1OptData { subtel_num, destination_id, rssi, security_lvl }) => {
                out.push(*subtel_num);
                out.push(destination_id[0]);
                out.push(destination_id[1]);
                out.push(destination_id[2]);
                out.push(destination_id[3]);
                out.push(*rssi);
                out.push(*security_lvl);
                proof {
                    assert(destination_id@ =~= seq![
                        destination_id@[0],
                        destination_id@[1],
                        destination_id@[2],
                        destination_id@[3],
                    ]);
                }
            },
        }
        out.push(self.crc_data);
        proof {
            assert(out@ =~= esp3_bytes(*self));
        }
        out
    }
}

/// A serialized frame with a non-empty body passes every check of the
/// packet parser, and its header fields are recovered exactly.
pub proof fn lemma_frame_bytes_esp3_parse(pt: u8, d: Seq<u8>, o: Seq<u8>)
    requires
        d.len() <= 0xffff,
        o.len() <= 0xff,
        d.len() + o.len() >= 1,
    ensures
        ({
            let s = crate::frame::frame_bytes(pt, d, o);
            &&& esp3_parse_ok(s)
            &&& s.len() == 7 + d.len() + o.len()
            &&& s[1] * 256 + s[2] == d.len()
            &&& s[3] == o.len()
            &&& s[4] == pt
            &&& s.subrange(6, 6 + d.len() as int) == d
            &&& s.subrange(6 + d.len() as int, 6 + d.len() as int + o.len() as int) == o
        }),
{
    let s = crate::frame::frame_bytes(pt, d, o);
    let header = seq![(d.len() / 256) as u8, (d.len() % 256) as u8, o.len() as u8, pt];
    assert(s.len() == 7 + d.len() + o.len());
    assert(s[1] == (d.len() / 256) as u8 && s[2] == (d.len() % 256) as u8);
    assert(s[1] * 256 + s[2] == d.len()) by {
        vstd::arithmetic::div_mod::lemma_fundamental_div_mod(d.len() as int, 256);
    }
    assert(s.subrange(1, 5) =~= header);
    assert(s[5] == crc8_of(header));
    assert(s.subrange(6, 6 + d.len() as int + o.len() as int) =~= d + o);
    assert(s[6 + d.len() as int + o.len() as int] == crc8_of(d + o));
    assert(s.subrange(6, 6 + d.len() as int) =~= d);
    assert(s.subrange(6 + d.len() as int, 6 + d.len() as int + o.len() as int) =~= o);
}

/// One half of the round-trip law: the packet parsed from a valid byte
/// sequence serializes back to exactly the bytes it was parsed from,
/// and such a packet is well formed.  The unassigned-byte variants
/// carry their byte, so no canonicality proviso is needed: every
/// interpreted byte is written back verbatim.
pub proof fn lemma_esp3_parse_encodes(e: ESP3, s: Seq<u8>)
    requires
        esp3_parse_ok(s),
        esp3_represents(e, s),
    ensures
        esp3_bytes(e) == s.subrange(0, 7 + (s[1] * 256 + s[2]) + s[3]),
        esp3_wf(e),
{
    let dl = s[1] * 256 + s[2];
    let ol = s[3] as int;
    let data = esp3_data_section(e);
    let opt = esp3_opt_section(e);
    assert(s[1] == (dl / 256) as u8 && s[2] == (dl % 256) as u8) by {
        vstd::arithmetic::div_mod::lemma_fundamental_div_mod_converse(
            dl,
            256,
            s[1] as int,
            s[2] as int,
        );
    }
    assert(packet_type_byte(e.packet_type) == s[4]);
    assert(data =~= s.subrange(6, 6 + dl));
    assert(opt =~= s.subrange(6 + dl, 6 + dl + ol));
    assert(seq![
        (e.data_length / 256) as u8,
        (e.data_length % 256) as u8,
        e.optional_data_length,
        packet_type_byte(e.packet_type),
    ] =~= s.subrange(1, 5));
    assert(data + opt =~= s.subrange(6, 6 + dl + ol));
    assert(esp3_bytes(e) =~= s.subrange(0, 7 + dl + ol));
}

/// The other half of the round-trip law: a well-formed packet serializes
/// to bytes that pass every parser check and parse back to the packet
/// itself.
pub proof fn lemma_esp3_encode_parses(e: ESP3)
    requires
        esp3_wf(e),
        esp3_data_section(e).len() + esp3_opt_section(e).len() >= 1,
    ensures
        esp3_parse_ok(esp3_bytes(e)),
        esp3_represents(e, esp3_bytes(e)),
        esp3_bytes(e).len() == 7 + e.data_length + e.optional_data_length,
{
    let s = esp3_bytes(e);
    let data = esp3_data_section(e);
    let opt = esp3_opt_section(e);
    let dl = e.data_length as int;
    let ol = e.optional_data_length as int;
    assert(s.len() == 7 + dl + ol);
    assert(s[1] == (e.data_length / 256) as u8 && s[2] == (e.data_length % 256) as u8);
    assert(s[1] * 256 + s[2] == dl) by {
        vstd::arithmetic::div_mod::lemma_fundamental_div_mod(dl, 256);
    }
    assert(s[3] == e.optional_data_length);
    assert(s.subrange(1, 5) =~= seq![
        (e.data_length / 256) as u8,
        (e.data_length % 256) as u8,
        e.optional_data_length,
        packet_type_byte(e.packet_type),
    ]);
    assert(s[5] == e.crc_header);
    assert(s.subrange(6, 6 + dl + ol) =~= data + opt);
    assert(s[6 + dl + ol] == e.crc_data);
    assert(packet_type_of_byte(s[4]) == e.packet_type);
    assert(s.subrange(6, 6 + dl) =~= data);
    assert(s.subrange(6 + dl, 6 + dl + ol) =~= opt);
    match e.data {
        DataType::Erp1Data { rorg, sender_id, status, payload } => {
            assert(s[6] == rorg_byte(rorg));
            assert(rorg_of_byte(rorg_byte(rorg)) == rorg);
            assert(payload@ =~= s.subrange(7, 1 + dl));
            assert(sender_id@ =~= s.subrange(1 + dl, 5 + dl));
            assert(s[5 + dl] == status);
            match e.opt_data {
                Some(OptDataType::Erp1OptData { subtel_num, destination_id, rssi, security_lvl }) => {
                    assert(opt.len() == 7);
                    assert(s[6 + dl] == subtel_num);
                    assert(destination_id@ =~= s.subrange(7 + dl, 11 + dl));
                    assert(s[11 + dl] == rssi);
                    assert(s[12 + dl] == security_lvl);
                },
                _ => {
                    assert(false);
                },
            }
        },
        DataType::ResponseData { return_code, response_payload } => {
            assert(s[6] == return_code_byte(return_code));
            assert(return_code_of_byte(return_code_byte(return_code)) == return_code);
            match response_payload {
                Some(p) => {
                    assert(dl == 1 + p@.len());
                    assert(p@ =~= s.subrange(7, 6 + dl));
                },
                None => {
                    assert(dl == 1);
                },
            }
            match e.opt_data {
                None => {
                    assert(ol == 0);
                },
                Some(OptDataType::RawData { raw_data }) => {
                    assert(raw_data@ =~= s.subrange(6 + dl, 6 + dl + ol));
                },
                Some(OptDataType::Erp1OptData { .. }) => {
                    assert(false);
                },
            }
        },
        DataType::RawData { raw_data } => {
            assert(raw_data@ =~= s.subrange(6, 6 + dl));
            match e.opt_data {
                Some(OptDataType::RawData { raw_data: o }) => {
                    assert(o@ =~= s.subrange(6 + dl, 6 + dl + ol));
                },
                _ => {
                    assert(false);
                },
            }
        },
    }
}

} // verus!
