//! Typed ESP3 packet encoding and decoding on top of the framing layer:
//! radio telegrams, command responses, common commands, and a verbatim
//! fallback for every other packet type.

use vstd::prelude::*;

use crate::frame::{ESP3Frame, ESP3FrameRef};
use crate::enocean::{return_code_assigned, return_code_byte, return_code_of_byte};
use vstd::utf8::{decode_utf8, encode_utf8, valid_utf8};

verus! {

/// The return code carried by a response packet.
pub type ResponseCode = crate::enocean::ReturnCode;

/// A four-byte EnOcean device address.
#[derive(Debug, Clone, Copy, PartialEq, Eq)]
pub struct Address(pub [u8; 4]);

/// A three-byte Equipment Profile code (RORG, FUNC, TYPE).
#[derive(Debug, Clone, Copy, PartialEq, Eq)]
pub struct EEPProfileCode(pub [u8; 3]);

/// The errors a typed packet decode can raise.  They are local and
/// recoverable: the frame itself already passed both CRC checks.
#[derive(Debug, Clone, Copy, PartialEq, Eq, Structural)]
pub enum ParseError {
    /// A typed decode was asked of a frame whose packet type byte or
    /// shape does not match.
    UnsupportedPacketType,
    /// The frame's data section is shorter than the requested layout.
    PacketTooShort,
    /// The description bytes of a version response are not valid UTF-8.
    UTF8,
    /// The return-code byte of a response is not in the enumeration.
    InvalidResultCode(u8),
}

/// Sub-telegram counter values with an assigned meaning.
#[derive(Debug, Clone, Copy, PartialEq, Eq, Structural)]
pub enum SubtelNum {
    Send,
    Receive,
}

impl SubtelNum {
    /// The sub-telegram byte this value stands for.
    pub fn to_byte(self) -> (r: u8)
        ensures
            r == subtel_byte(self),
    {
        match self {
            SubtelNum::Send => 3,
            SubtelNum::Receive => 0,
        }
    }

    /// The meaning of a sub-telegram byte, where one is assigned.
    pub fn from_byte(b: u8) -> (r: Option<SubtelNum>)
        ensures
            r == subtel_of_byte(b),
    {
        match b {
            3 => Some(SubtelNum::Send),
            0 => Some(SubtelNum::Receive),
            _ => None,
        }
    }
}

/// The sub-telegram byte each [`SubtelNum`] stands for.
pub open spec fn subtel_byte(s: SubtelNum) -> u8 {
    match s {
        SubtelNum::Send => 3,
        SubtelNum::Receive => 0,
    }
}

/// The [`SubtelNum`] a byte stands for, where one is assigned.
pub open spec fn subtel_of_byte(b: u8) -> Option<SubtelNum> {
    if b == 3 {
        Some(SubtelNum::Send)
    } else if b == 0 {
        Some(SubtelNum::Receive)
    } else {
        None
    }
}

/// Security levels with an assigned meaning.
#[derive(Debug, Clone, Copy, PartialEq, Eq, Structural)]
pub enum Security {
    NoSecurity,
    Obsolete,
    Decrypted,
    Authenticated,
    AuthAndDecrypted,
}

impl Security {
    /// The security-level byte this value stands for.
    pub fn to_byte(self) -> (r: u8)
        ensures
            r == security_byte(self),
    {
        match self {
            Security::NoSecurity => 0,
            Security::Obsolete => 1,
            Security::Decrypted => 2,
            Security::Authenticated => 3,
            Security::AuthAndDecrypted => 4,
        }
    }

    /// The meaning of a security-level byte, where one is assigned.
    pub fn from_byte(b: u8) -> (r: Option<Security>)
        ensures
            r == security_of_byte(b),
    {
        match b {
            0 => Some(Security::NoSecurity),
            1 => Some(Security::Obsolete),
            2 => Some(Security::Decrypted),
            3 => Some(Security::Authenticated),
            4 => Some(Security::AuthAndDecrypted),
            _ => None,
        }
    }
}

/// The security-level byte each [`Security`] stands for.
pub open spec fn security_byte(s: Security) -> u8 {
    match s {
        Security::NoSecurity => 0,
        Security::Obsolete => 1,
        Security::Decrypted => 2,
        Security::Authenticated => 3,
        Security::AuthAndDecrypted => 4,
    }
}

/// The [`Security`] a byte stands for, where one is assigned.
pub open spec fn security_of_byte(b: u8) -> Option<Security> {
    if b == 0 {
        Some(Security::NoSecurity)
    } else if b == 1 {
        Some(Security::Obsolete)
    } else if b == 2 {
        Some(Security::Decrypted)
    } else if b == 3 {
        Some(Security::Authenticated)
    } else if b == 4 {
        Some(Security::AuthAndDecrypted)
    } else {
        None
    }
}

/// A radio telegram (ERP1): the typed form of a packet-type `0x01`
/// frame whose optional data has the standard seven-byte layout.
#[derive(Debug, Clone, PartialEq)]
pub struct RadioErp1 {
    /// The radio organization (choice) byte.
    pub choice: u8,
    /// The profile-specific payload between the choice byte and the
    /// sender identifier.
    pub user_data: Vec<u8>,
    /// The sending device.
    pub sender_id: Address,
    /// The telegram status byte.
    pub status: u8,
    /// Sub-telegram counter; see [`SubtelNum`] for assigned values.
    pub subtel_num: u8,
    /// The addressed device, `0xFFFFFFFF` for a broadcast.
    pub destination: Address,
    /// Signal strength indication.
    pub rssi: u8,
    /// Security level; see [`Security`] for assigned values.
    pub security: u8,
}

/// Gateway events; kept for completeness of the packet taxonomy.
#[derive(Debug, Clone, Copy)]
pub enum Event {
    SAReclaimUnsuccessful,
    SAConfirmLearn { data: [u8; 17] },
    SALearnAck { data: [u8; 3] },
    COReady { wakeup: u8, mode: Option<u8> },
    COEventSecureDevices { cause: u8, device: Address },
    CODutyCycleLimit { cause: u8 },
    COTXFailed { cause: u8 },
    COTXDone,
    COLrnModeDisabled,
}

/// The reply to a previously sent command frame.
#[derive(Debug, Clone, PartialEq)]
pub struct Response {
    /// The return code in the first data byte.
    pub code: ResponseCode,
    /// The payload after the return code.
    pub data: Vec<u8>,
}

/// A four-part version number.
#[derive(Debug, Clone, Copy, PartialEq, Eq, Structural)]
pub struct Version {
    pub main: u8,
    pub beta: u8,
    pub alpha: u8,
    pub build: u8,
}

/// The typed payload of the reply to a ReadVersion common command:
/// exactly 32 bytes on the wire.
#[derive(Debug, Clone, PartialEq)]
pub struct VersionResponse {
    pub app: Version,
    pub api: Version,
    pub chip_id: Address,
    pub chip_version: [u8; 4],
    /// Sixteen bytes of UTF-8 text.
    pub description: String,
}

/// A common command (packet type `0x05`), dispatched on its first data
/// byte.
#[derive(Debug, Clone, PartialEq)]
pub enum CommonCommand {
    /// CO_RD_VERSION: code `0x03`, empty body.
    ReadVersion,
    /// Any other common command, kept verbatim.
    Unknown { code: u8, data: Vec<u8>, optional: Vec<u8> },
}

/// A typed ESP3 packet.  Unknown packet types are never an error: they
/// are carried verbatim and serialize back byte for byte.
#[derive(Debug, Clone, PartialEq)]
pub enum Packet {
    RadioErp1(RadioErp1),
    Response(Response),
    CommonCommand(CommonCommand),
    Unknown { packet_type: u8, data: Vec<u8>, optional: Vec<u8> },
}

/// The packet type byte a packet serializes under.
pub open spec fn packet_frame_type(p: Packet) -> u8 {
    match p {
        Packet::RadioErp1(_) => 0x01,
        Packet::Response(_) => 0x02,
        Packet::CommonCommand(_) => 0x05,
        Packet::Unknown { packet_type, .. } => packet_type,
    }
}

/// The data section a packet serializes to.
pub open spec fn packet_frame_data(p: Packet) -> Seq<u8> {
    match p {
        Packet::RadioErp1(t) => seq![t.choice] + t.user_data@ + t.sender_id.0@ + seq![t.status],
        Packet::Response(resp) => seq![return_code_byte(resp.code)] + resp.data@,
        Packet::CommonCommand(CommonCommand::ReadVersion) => seq![0x03u8],
        Packet::CommonCommand(CommonCommand::Unknown { code, data, .. }) => seq![code] + data@,
        Packet::Unknown { data, .. } => data@,
    }
}

/// The optional-data section a packet serializes to.
pub open spec fn packet_frame_opt(p: Packet) -> Seq<u8> {
    match p {
        Packet::RadioErp1(t) => seq![t.subtel_num] + t.destination.0@ + seq![t.rssi, t.security],
        Packet::Response(_) => Seq::<u8>::empty(),
        Packet::CommonCommand(CommonCommand::ReadVersion) => Seq::<u8>::empty(),
        Packet::CommonCommand(CommonCommand::Unknown { optional, .. }) => optional@,
        Packet::Unknown { optional, .. } => optional@,
    }
}

/// The sections a packet serializes to fit in a frame header.
pub open spec fn packet_encodable(p: Packet) -> bool {
    &&& packet_frame_data(p).len() <= 0xffff
    &&& packet_frame_opt(p).len() <= 0xff
}

/// A packet whose serialized frame decodes back to the packet itself:
/// besides fitting in a frame, the verbatim variants must not take the
/// shape of a variant the decoder interprets, and a response's return
/// code must carry a byte of the enumeration, since the typed decoder
/// rejects any other.
pub open spec fn packet_wf(p: Packet) -> bool {
    &&& packet_encodable(p)
    &&& match p {
        Packet::RadioErp1(_) => true,
        Packet::Response(resp) => {
            &&& return_code_assigned(return_code_byte(resp.code))
            &&& return_code_of_byte(return_code_byte(resp.code)) == resp.code
        },
        Packet::CommonCommand(CommonCommand::ReadVersion) => true,
        Packet::CommonCommand(CommonCommand::Unknown { code, data, optional }) => !(code == 0x03
            && data@.len() == 0 && optional@.len() == 0),
        Packet::Unknown { packet_type, data, optional } => {
            &&& packet_type != 0x02
            &&& packet_type != 0x05
            &&& (packet_type == 0x01 ==> !(data@.len() >= 6 && optional@.len() == 7))
        },
    }
}

/// The error a generic packet decode raises on the given frame
/// sections, if any.
pub open spec fn packet_decode_err(pt: u8, d: Seq<u8>, o: Seq<u8>) -> Option<ParseError> {
    if pt == 0x02 && d.len() == 0 {
        Some(ParseError::PacketTooShort)
    } else if pt == 0x02 && !return_code_assigned(d[0]) {
        Some(ParseError::InvalidResultCode(d[0]))
    } else if pt == 0x05 && d.len() == 0 {
        Some(ParseError::PacketTooShort)
    } else {
        None
    }
}

/// `p` is exactly the packet decoded from the given frame sections.
pub open spec fn packet_decodes_to(pt: u8, d: Seq<u8>, o: Seq<u8>, p: Packet) -> bool
    recommends
        packet_decode_err(pt, d, o) is None,
{
    if pt == 0x01 && d.len() >= 6 && o.len() == 7 {
        &&& p matches Packet::RadioErp1(t)
        &&& t.choice == d[0]
        &&& t.user_data@ == d.subrange(1, d.len() - 5)
        &&& t.sender_id.0@ == d.subrange(d.len() - 5, d.len() - 1)
        &&& t.status == d[d.len() - 1]
        &&& t.subtel_num == o[0]
        &&& t.destination.0@ == o.subrange(1, 5)
        &&& t.rssi == o[5]
        &&& t.security == o[6]
    } else if pt == 0x02 {
        &&& p matches Packet::Response(resp)
        &&& resp.code == return_code_of_byte(d[0])
        &&& resp.data@ == d.subrange(1, d.len() as int)
    } else if pt == 0x05 {
        if d[0] == 0x03 && d.len() == 1 && o.len() == 0 {
            p matches Packet::CommonCommand(CommonCommand::ReadVersion)
        } else {
            &&& p matches Packet::CommonCommand(CommonCommand::Unknown { code, data, optional })
            &&& code == d[0]
            &&& data@ == d.subrange(1, d.len() as int)
            &&& optional@ == o
        }
    } else {
        &&& p matches Packet::Unknown { packet_type, data, optional }
        &&& packet_type == pt
        &&& data@ == d
        &&& optional@ == o
    }
}

impl Response {
    /// Serialize the response into a frame: packet type `0x02`, the
    /// return code, then the payload, no optional data.
    pub fn encode(&self) -> (r: ESP3Frame)
        requires
            self.data@.len() <= 0xfffe,
        ensures
            r.wf(),
            r.spec_packet_type() == 0x02,
            r.spec_data() == seq![return_code_byte(self.code)] + self.data@,
            r.spec_optional_data() == Seq::<u8>::empty(),
    {
        let mut frame_data: Vec<u8> = Vec::new();
        frame_data.push(crate::enocean::return_code_to_byte(self.code));
        frame_data.extend_from_slice(self.data.as_slice());
        let optional: [u8; 0] = [];
        proof {
            assert(frame_data@ =~= seq![return_code_byte(self.code)] + self.data@);
            assert(optional@ =~= Seq::<u8>::empty());
        }
        ESP3Frame::assemble(0x02, frame_data.as_slice(), optional.as_slice())
    }

    /// Decode a response from a frame: the frame must carry packet type
    /// `0x02`, at least the return-code byte, and a return code of the
    /// enumeration.
    pub fn decode(frame: ESP3FrameRef) -> (r: Result<Self, ParseError>)
        ensures
            ({
                let d = frame.data@;
                if frame.packet_type != 0x02 {
                    r == Err::<Response, ParseError>(ParseError::UnsupportedPacketType)
                } else if d.len() == 0 {
                    r == Err::<Response, ParseError>(ParseError::PacketTooShort)
                } else if !return_code_assigned(d[0]) {
                    r == Err::<Response, ParseError>(ParseError::InvalidResultCode(d[0]))
                } else {
                    &&& r matches Ok(resp)
                    &&& resp.code == return_code_of_byte(d[0])
                    &&& resp.data@ == d.subrange(1, d.len() as int)
                }
            }),
    {
        if frame.packet_type != 0x02 {
            return Err(ParseError::UnsupportedPacketType);
        }
        if frame.data.len() == 0 {
            return Err(ParseError::PacketTooShort);
        }
        let code_byte = frame.data[0];
        if code_byte > 0x07 && code_byte != 0xFF {
            return Err(ParseError::InvalidResultCode(code_byte));
        }
        let code = crate::enocean::get_return_code(code_byte);
        let data = vstd::slice::slice_to_vec(&frame.data[1..frame.data.len()]);
        Ok(Response { code, data })
    }
}

/// The 32 data bytes of a version response.
pub open spec fn version_response_data(v: VersionResponse) -> Seq<u8> {
    seq![
        v.app.main,
        v.app.beta,
        v.app.alpha,
        v.app.build,
        v.api.main,
        v.api.beta,
        v.api.alpha,
        v.api.build,
    ] + v.chip_id.0@ + v.chip_version@ + encode_utf8(v.description@)
}

/// Relies on String::from_utf8: it returns a string exactly when the
/// bytes are valid UTF-8, and the string then holds their decoding.
#[verifier::external_body]
fn string_from_utf8(bytes: Vec<u8>) -> (r: Option<String>)
    ensures
        r is Some <==> valid_utf8(bytes@),
        r matches Some(s) ==> s@ == decode_utf8(bytes@),
{
    String::from_utf8(bytes).ok()
}

impl VersionResponse {
    /// Serialize the version information into the payload of an `Ok`
    /// response: both versions, chip identifier and version, and the
    /// sixteen description bytes.
    pub fn encode(&self) -> (r: Response)
        requires
            encode_utf8(self.description@).len() == 16,
        ensures
            r.code == ResponseCode::RetOk,
            r.data@ == version_response_data(*self),
    {
        let mut data: Vec<u8> = Vec::new();
        data.push(self.app.main);
        data.push(self.app.beta);
        data.push(self.app.alpha);
        data.push(self.app.build);
        data.push(self.api.main);
        data.push(self.api.beta);
        data.push(self.api.alpha);
        data.push(self.api.build);
        data.push(self.chip_id.0[0]);
        data.push(self.chip_id.0[1]);
        data.push(self.chip_id.0[2]);
        data.push(self.chip_id.0[3]);
        data.push(self.chip_version[0]);
        data.push(self.chip_version[1]);
        data.push(self.chip_version[2]);
        data.push(self.chip_version[3]);
        data.extend_from_slice(self.description.as_str().as_bytes());
        proof {
            assert(self.chip_id.0@ =~= seq![
                self.chip_id.0@[0],
                self.chip_id.0@[1],
                self.chip_id.0@[2],
                self.chip_id.0@[3],
            ]);
            assert(self.chip_version@ =~= seq![
                self.chip_version@[0],
                self.chip_version@[1],
                self.chip_version@[2],
                self.chip_version@[3],
            ]);
            assert(data@ =~= version_response_data(*self));
        }
        Response { code: ResponseCode::RetOk, data }
    }

    /// Decode the payload of a version response: exactly 32 bytes, the
    /// last sixteen of which must be valid UTF-8 text.
    pub fn decode(response: &Response) -> (r: Result<Self, ParseError>)
        ensures
            ({
                let d = response.data@;
                if d.len() != 32 {
                    r == Err::<VersionResponse, ParseError>(ParseError::PacketTooShort)
                } else if !valid_utf8(d.subrange(16, 32)) {
                    r == Err::<VersionResponse, ParseError>(ParseError::UTF8)
                } else {
                    &&& r matches Ok(v)
                    &&& v.app == (Version { main: d[0], beta: d[1], alpha: d[2], build: d[3] })
                    &&& v.api == (Version { main: d[4], beta: d[5], alpha: d[6], build: d[7] })
                    &&& v.chip_id.0@ == d.subrange(8, 12)
                    &&& v.chip_version@ == d.subrange(12, 16)
                    &&& v.description@ == decode_utf8(d.subrange(16, 32))
                }
            }),
    {
        let d = &response.data;
        if d.len() != 32 {
            return Err(ParseError::PacketTooShort);
        }
        let text = vstd::slice::slice_to_vec(&d.as_slice()[16..32]);
        let description = match string_from_utf8(text) {
            Some(s) => s,
            None => {
                return Err(ParseError::UTF8);
            },
        };
        let chip_id = Address([d[8], d[9], d[10], d[11]]);
        let chip_version: [u8; 4] = [d[12], d[13], d[14], d[15]];
        proof {
            assert(chip_id.0@ =~= response.data@.subrange(8, 12));
            assert(chip_version@ =~= response.data@.subrange(12, 16));
        }
        Ok(
            Self {
                app: Version { main: d[0], beta: d[1], alpha: d[2], build: d[3] },
                api: Version { main: d[4], beta: d[5], alpha: d[6], build: d[7] },
                chip_id,
                chip_version,
                description,
            },
        )
    }
}

/// Round trip for the version payload: encoding a version response and
/// decoding the 32 bytes gives every field back, the description
/// included.
pub proof fn lemma_version_response_round_trip(v: VersionResponse)
    requires
        encode_utf8(v.description@).len() == 16,
    ensures
        ({
            let d = version_response_data(v);
            &&& d.len() == 32
            &&& d.subrange(16, 32) == encode_utf8(v.description@)
            &&& valid_utf8(d.subrange(16, 32))
            &&& decode_utf8(d.subrange(16, 32)) == v.description@
            &&& d[0] == v.app.main && d[1] == v.app.beta && d[2] == v.app.alpha && d[3]
                == v.app.build
            &&& d[4] == v.api.main && d[5] == v.api.beta && d[6] == v.api.alpha && d[7]
                == v.api.build
            &&& d.subrange(8, 12) == v.chip_id.0@
            &&& d.subrange(12, 16) == v.chip_version@
        }),
{
    let d = version_response_data(v);
    assert(d.subrange(16, 32) =~= encode_utf8(v.description@));
    vstd::utf8::encode_utf8_valid_utf8(v.description@);
    vstd::utf8::encode_utf8_decode_utf8(v.description@);
    assert(d.subrange(8, 12) =~= v.chip_id.0@);
    assert(d.subrange(12, 16) =~= v.chip_version@);
}

impl CommonCommand {
    /// Build a common-command frame: packet type `0x05`, the command
    /// code, then the body.
    fn assemble(code: u8, data: &[u8], optional: &[u8]) -> (r: ESP3Frame)
        requires
            data@.len() <= 0xfffe,
            optional@.len() <= 0xff,
        ensures
            r.wf(),
            r.spec_packet_type() == 0x05,
            r.spec_data() == seq![code] + data@,
            r.spec_optional_data() == optional@,
    {
        let mut frame_data: Vec<u8> = Vec::new();
        frame_data.push(code);
        frame_data.extend_from_slice(data);
        proof {
            assert(frame_data@ =~= seq![code] + data@);
        }
        ESP3Frame::assemble(0x05, frame_data.as_slice(), optional)
    }

    /// Serialize the command into a frame.
    fn encode(&self) -> (r: ESP3Frame)
        requires
            packet_encodable(Packet::CommonCommand(*self)),
        ensures
            r.wf(),
            r.spec_packet_type() == 0x05,
            r.spec_data() == packet_frame_data(Packet::CommonCommand(*self)),
            r.spec_optional_data() == packet_frame_opt(Packet::CommonCommand(*self)),
    {
        match self {
            CommonCommand::Unknown { code, data, optional } => {
                CommonCommand::assemble(*code, data.as_slice(), optional.as_slice())
            },
            CommonCommand::ReadVersion => {
                let empty: [u8; 0] = [];
                let r = CommonCommand::assemble(0x03, empty.as_slice(), empty.as_slice());
                proof {
                    assert(seq![0x03u8] + empty@ =~= seq![0x03u8]);
                    assert(r.spec_data() =~= packet_frame_data(
                        Packet::CommonCommand(CommonCommand::ReadVersion),
                    ));
                    assert(r.spec_optional_data() =~= Seq::<u8>::empty());
                }
                r
            },
        }
    }
}

impl Packet {
    /// Serialize a packet into a CRC-valid frame.
    pub fn encode(&self) -> (r: ESP3Frame)
        requires
            packet_encodable(*self),
        ensures
            r.wf(),
            r.spec_packet_type() == packet_frame_type(*self),
            r.spec_data() == packet_frame_data(*self),
            r.spec_optional_data() == packet_frame_opt(*self),
    {
        match self {
            Packet::CommonCommand(cmd) => cmd.encode(),
            Packet::Response(resp) => resp.encode(),
            Packet::RadioErp1(t) => {
                let mut data: Vec<u8> = Vec::new();
                data.push(t.choice);
                data.extend_from_slice(t.user_data.as_slice());
                data.push(t.sender_id.0[0]);
                data.push(t.sender_id.0[1]);
                data.push(t.sender_id.0[2]);
                data.push(t.sender_id.0[3]);
                data.push(t.status);
                let mut optional: Vec<u8> = Vec::new();
                optional.push(t.subtel_num);
                optional.push(t.destination.0[0]);
                optional.push(t.destination.0[1]);
                optional.push(t.destination.0[2]);
                optional.push(t.destination.0[3]);
                optional.push(t.rssi);
                optional.push(t.security);
                proof {
                    assert(t.sender_id.0@ =~= seq![
                        t.sender_id.0@[0],
                        t.sender_id.0@[1],
                        t.sender_id.0@[2],
                        t.sender_id.0@[3],
                    ]);
                    assert(t.destination.0@ =~= seq![
                        t.destination.0@[0],
                        t.destination.0@[1],
                        t.destination.0@[2],
                        t.destination.0@[3],
                    ]);
                    assert(data@ =~= packet_frame_data(*self));
                    assert(optional@ =~= packet_frame_opt(*self));
                }
                ESP3Frame::assemble(0x01, data.as_slice(), optional.as_slice())
            },
            Packet::Unknown { packet_type, data, optional } => {
                ESP3Frame::assemble(*packet_type, data.as_slice(), optional.as_slice())
            },
        }
    }

    /// Serialize a packet into a frame, checking first that its
    /// sections fit in a frame header: `None` exactly when they do not.
    pub fn try_encode(&self) -> (r: Option<ESP3Frame>)
        ensures
            packet_encodable(*self) ==> {
                &&& r matches Some(f)
                &&& f.wf()
                &&& f.spec_packet_type() == packet_frame_type(*self)
                &&& f.spec_data() == packet_frame_data(*self)
                &&& f.spec_optional_data() == packet_frame_opt(*self)
            },
            !packet_encodable(*self) ==> r is None,
    {
        let fits = match self {
            Packet::RadioErp1(t) => t.user_data.len() <= 0xffff - 6,
            Packet::Response(resp) => resp.data.len() <= 0xfffe,
            Packet::CommonCommand(CommonCommand::ReadVersion) => true,
            Packet::CommonCommand(CommonCommand::Unknown { data, optional, .. }) => data.len()
                <= 0xfffe && optional.len() <= 0xff,
            Packet::Unknown { data, optional, .. } => data.len() <= 0xffff && optional.len()
                <= 0xff,
        };
        if fits {
            Some(self.encode())
        } else {
            None
        }
    }

    /// Decode a frame into a typed packet.  Radio telegrams and common
    /// commands of an unexpected shape, and every unlisted packet type,
    /// decode to a verbatim variant rather than an error; only response
    /// frames can fail, on a missing or unassigned return code.
    pub fn decode(frame: ESP3FrameRef) -> (r: Result<Self, ParseError>)
        ensures
            ({
                let pt = frame.packet_type;
                let d = frame.data@;
                let o = frame.optional_data@;
                match packet_decode_err(pt, d, o) {
                    Some(e) => r matches Err(e2) && e2 == e,
                    None => r matches Ok(p) && packet_decodes_to(pt, d, o, p),
                }
            }),
    {
        let pt = frame.packet_type;
        let n = frame.data.len();
        if pt == 0x01 && n >= 6 && frame.optional_data.len() == 7 {
            let d = frame.data;
            let o = frame.optional_data;
            let sender_id = Address([d[n - 5], d[n - 4], d[n - 3], d[n - 2]]);
            let destination = Address([o[1], o[2], o[3], o[4]]);
            proof {
                assert(sender_id.0@ =~= frame.data@.subrange(n - 5, n - 1));
                assert(destination.0@ =~= frame.optional_data@.subrange(1, 5));
            }
            Ok(
                Packet::RadioErp1(
                    RadioErp1 {
                        choice: d[0],
                        user_data: vstd::slice::slice_to_vec(&d[1..n - 5]),
                        sender_id,
                        status: d[n - 1],
                        subtel_num: o[0],
                        destination,
                        rssi: o[5],
                        security: o[6],
                    },
                ),
            )
        } else if pt == 0x02 {
            match Response::decode(frame) {
                Result::Ok(resp) => Ok(Packet::Response(resp)),
                Result::Err(e) => Err(e),
            }
        } else if pt == 0x05 {
            if n == 0 {
                return Err(ParseError::PacketTooShort);
            }
            let code = frame.data[0];
            if code == 0x03 && n == 1 && frame.optional_data.len() == 0 {
                Ok(Packet::CommonCommand(CommonCommand::ReadVersion))
            } else {
                Ok(
                    Packet::CommonCommand(
                        CommonCommand::Unknown {
                            code,
                            data: vstd::slice::slice_to_vec(&frame.data[1..n]),
                            optional: vstd::slice::slice_to_vec(frame.optional_data),
                        },
                    ),
                )
            }
        } else {
            Ok(
                Packet::Unknown {
                    packet_type: pt,
                    data: vstd::slice::slice_to_vec(frame.data),
                    optional: vstd::slice::slice_to_vec(frame.optional_data),
                },
            )
        }
    }
}

/// Round-trip law for typed packets: a well-formed packet serializes to
/// frame sections that decode back to the packet itself, never to an
/// error.
pub proof fn lemma_packet_round_trip(p: Packet)
    requires
        packet_wf(p),
    ensures
        packet_decode_err(packet_frame_type(p), packet_frame_data(p), packet_frame_opt(p))
            is None,
        packet_decodes_to(packet_frame_type(p), packet_frame_data(p), packet_frame_opt(p), p),
{
    let pt = packet_frame_type(p);
    let d = packet_frame_data(p);
    let o = packet_frame_opt(p);
    match p {
        Packet::RadioErp1(t) => {
            assert(d.len() == 2 + t.user_data@.len() + 4);
            assert(o.len() == 7);
            assert(t.user_data@ =~= d.subrange(1, d.len() - 5));
            assert(t.sender_id.0@ =~= d.subrange(d.len() - 5, d.len() - 1));
            assert(t.destination.0@ =~= o.subrange(1, 5));
        },
        Packet::Response(resp) => {
            assert(d[0] == return_code_byte(resp.code));
            assert(return_code_assigned(d[0]));
            assert(resp.data@ =~= d.subrange(1, d.len() as int));
        },
        Packet::CommonCommand(CommonCommand::ReadVersion) => {
            assert(d.len() == 1 && d[0] == 0x03 && o.len() == 0);
        },
        Packet::CommonCommand(CommonCommand::Unknown { code, data, optional }) => {
            assert(d[0] == code);
            assert(data@ =~= d.subrange(1, d.len() as int));
            assert(!(code == 0x03 && d.len() == 1 && o.len() == 0));
        },
        Packet::Unknown { packet_type, data, optional } => {
        },
    }
}

} // verus!
