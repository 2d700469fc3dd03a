//! EnOcean Equipment Profiles (EEP): mapping a device identifier to its
//! profile, decoding a telegram's bit-packed payload into a reading map,
//! and building outbound command telegrams.
//!
//! Payload decoding is best effort: out-of-range bit patterns yield an
//! `"Unknown"`-style value rather than an error; the envelope CRC checks
//! are the only hard gate.

use vstd::prelude::*;

use crate::enocean::{
    esp3_bytes, esp3_of_enocean_message, esp3_parse_ok, esp3_wf, lemma_esp3_parse_encodes,
    lemma_frame_bytes_esp3_parse, DataType, ESP3,
};
use crate::frame::{frame_bytes, ESP3FrameRef};
use crate::reading::{
    dec_digits, dec_string, hundredths_str, hundredths_string, tenths_str, tenths_string,
    ReadingMap,
};
use crate::{ParseEspError, ParseEspErrorKind};

verus! {

/// The Equipment Profiles this library interprets.
#[derive(PartialEq, Eq, Structural, Debug, Clone, Copy)]
pub enum EEP {
    A50401,
    D2010E,
    D50001,
    F60201,
    F60202,
}

/// The commands this library can address to a D2-01 smart plug.
#[derive(PartialEq, Eq, Structural, Debug, Clone, Copy)]
pub enum D201CommandList {
    On,
    Off,
    QueryEnergy,
    QueryPower,
    DefaultConfig,
}

/// The F6-02 (PTM switch) telegrams this library can emulate.
#[derive(PartialEq, Eq, Structural, Debug, Clone, Copy)]
pub enum F602EmulateCommand {
    MoveBlindClosed,
    MoveBlindOpen,
}

/// The profile a device identifier maps to, if any: the registry is
/// total, unknown identifiers simply map to no profile.
pub open spec fn eep_of(id: Seq<u8>) -> Option<EEP> {
    if id == seq![5u8, 17u8, 114u8, 247u8] {
        Some(EEP::A50401)
    } else if id == seq![254u8, 245u8, 143u8, 245u8] {
        Some(EEP::F60201)
    } else if id == seq![0u8, 49u8, 192u8, 249u8] {
        Some(EEP::F60202)
    } else if id == seq![0x05u8, 0x0au8, 0x3du8, 0x6au8] {
        Some(EEP::D2010E)
    } else if id == seq![0x01u8, 0x92u8, 0x3du8, 0xa8u8] {
        Some(EEP::D50001)
    } else {
        None
    }
}

/// Map an EnOcean device identifier to its Equipment Profile.
pub fn get_eep(id: &[u8; 4]) -> (r: Option<EEP>)
    ensures
        r == eep_of(id@),
{
    if id[0] == 5 && id[1] == 17 && id[2] == 114 && id[3] == 247 {
        proof {
            assert(id@ =~= seq![5u8, 17u8, 114u8, 247u8]);
        }
        Some(EEP::A50401)
    } else if id[0] == 254 && id[1] == 245 && id[2] == 143 && id[3] == 245 {
        proof {
            assert(id@ =~= seq![254u8, 245u8, 143u8, 245u8]);
        }
        Some(EEP::F60201)
    } else if id[0] == 0 && id[1] == 49 && id[2] == 192 && id[3] == 249 {
        proof {
            assert(id@ =~= seq![0u8, 49u8, 192u8, 249u8]);
        }
        Some(EEP::F60202)
    } else if id[0] == 0x05 && id[1] == 0x0a && id[2] == 0x3d && id[3] == 0x6a {
        proof {
            assert(id@ =~= seq![0x05u8, 0x0au8, 0x3du8, 0x6au8]);
        }
        Some(EEP::D2010E)
    } else if id[0] == 0x01 && id[1] == 0x92 && id[2] == 0x3d && id[3] == 0xa8 {
        proof {
            assert(id@ =~= seq![0x01u8, 0x92u8, 0x3du8, 0xa8u8]);
        }
        Some(EEP::D50001)
    } else {
        proof {
            assert(id@.len() == 4);
        }
        None
    }
}

/// The value of one bit of a byte.
pub open spec fn spec_bit_of(byte: u8, bit_nb: u8) -> bool
    recommends
        bit_nb < 8,
{
    (byte >> bit_nb) & 1 != 0
}

/// Get the value of a specific bit in a byte.
pub fn bit_of_byte(bit_nb: u8, byte: &u8) -> (r: bool)
    requires
        bit_nb < 8,
    ensures
        r == spec_bit_of(*byte, bit_nb),
{
    ((*byte >> bit_nb) & 1) != 0
}

/// The bits of a byte, most significant first.
pub open spec fn spec_bits_of(byte: u8) -> Seq<bool> {
    seq![
        spec_bit_of(byte, 7),
        spec_bit_of(byte, 6),
        spec_bit_of(byte, 5),
        spec_bit_of(byte, 4),
        spec_bit_of(byte, 3),
        spec_bit_of(byte, 2),
        spec_bit_of(byte, 1),
        spec_bit_of(byte, 0),
    ]
}

/// Byte to array-of-bits conversion, most significant bit first.
pub fn bits_of_byte(byte: u8) -> (r: [bool; 8])
    ensures
        r@ == spec_bits_of(byte),
{
    let r: [bool; 8] = [
        bit_of_byte(7, &byte),
        bit_of_byte(6, &byte),
        bit_of_byte(5, &byte),
        bit_of_byte(4, &byte),
        bit_of_byte(3, &byte),
        bit_of_byte(2, &byte),
        bit_of_byte(1, &byte),
        bit_of_byte(0, &byte),
    ];
    proof {
        assert(r@ =~= spec_bits_of(byte));
    }
    r
}

/// The rocker action selected by a three-bit pattern, most significant
/// bit first.
pub open spec fn rocker_str(b2: bool, b1: bool, b0: bool) -> Seq<char> {
    if !b2 && !b1 && !b0 {
        "A1"@
    } else if !b2 && !b1 && b0 {
        "A0"@
    } else if !b2 && b1 && !b0 {
        "B1"@
    } else if !b2 && b1 && b0 {
        "B0"@
    } else {
        "Unknown"@
    }
}

/// The measurement unit selected by a three-bit pattern, most
/// significant bit first.
pub open spec fn unit_str(b2: bool, b1: bool, b0: bool) -> Seq<char> {
    if !b2 && !b1 && !b0 {
        "Energy [Ws]"@
    } else if !b2 && !b1 && b0 {
        "Energy [Wh]"@
    } else if !b2 && b1 && !b0 {
        "Energy [KWh]"@
    } else if !b2 && b1 && b0 {
        "Power[W]"@
    } else if b2 && !b1 && !b0 {
        "Power[KW]"@
    } else {
        "Error"@
    }
}

/// The meaning of a seven-bit output value.
pub open spec fn output_value_str(v: u8) -> Seq<char>
    recommends
        v < 0x80,
{
    if v == 0x00 {
        "Output value : 0% or OFF"@
    } else if v == 0x7F {
        "Output value : 1 to 100% or ON"@
    } else if 0x01 <= v && v <= 0x64 {
        "Not used"@
    } else if 0x65 <= v && v <= 0x7E {
        "Output value not valid / not set"@
    } else {
        "Error"@
    }
}

/// The fields a temperature/humidity telegram (A5-04-01) decodes to:
/// humidity in 0.4 % steps, temperature in 40/250 degree steps, the
/// teach-in flag, and the sensor-availability flag.
pub open spec fn a50401_fields(p: Seq<u8>) -> Seq<(Seq<char>, Seq<char>)>
    recommends
        p.len() >= 4,
{
    seq![
        ("HUM"@, tenths_str(p[1] * 4)),
        ("TMP"@, hundredths_str(p[2] * 16)),
        (
            "LRNB"@,
            if spec_bit_of(p[3], 3) {
                "Data telegram"@
            } else {
                "Teach-in telegram"@
            },
        ),
        (
            "TSN"@,
            if spec_bit_of(p[3], 1) {
                "Temperature sensor available"@
            } else {
                "Temperature sensor not available"@
            },
        ),
    ]
}

/// The fields a contact telegram (D5-00-01) decodes to.
pub open spec fn d50001_fields(p: Seq<u8>) -> Seq<(Seq<char>, Seq<char>)>
    recommends
        p.len() >= 1,
{
    seq![
        (
            "LRNB"@,
            if spec_bit_of(p[0], 4) {
                "not pressed"@
            } else {
                "pressed"@
            },
        ),
        (
            "CO"@,
            if spec_bit_of(p[0], 7) {
                "closed"@
            } else {
                "open"@
            },
        ),
    ]
}

/// The fields a single-rocker telegram (F6-02-01) decodes to.
pub open spec fn f60201_fields(p: Seq<u8>) -> Seq<(Seq<char>, Seq<char>)>
    recommends
        p.len() >= 1,
{
    seq![
        (
            "LRNB"@,
            if spec_bit_of(p[0], 3) {
                "Data telegram"@
            } else {
                "Teach-in telegram"@
            },
        ),
        (
            "BTN"@,
            if p[0] == 0x70 {
                "Pressed"@
            } else if p[0] == 0x00 {
                "Released"@
            } else {
                "Unknown"@
            },
        ),
    ]
}

/// The fields a dual-rocker telegram (F6-02-02) decodes to: the payload
/// byte splits into the first rocker's action, the energy-bow flag, the
/// second rocker's action, and the second-action flag.
pub open spec fn f60202_fields(p: Seq<u8>) -> Seq<(Seq<char>, Seq<char>)>
    recommends
        p.len() >= 1,
{
    seq![
        ("R1"@, rocker_str(spec_bit_of(p[0], 7), spec_bit_of(p[0], 6), spec_bit_of(p[0], 5))),
        (
            "EB"@,
            if spec_bit_of(p[0], 4) {
                "Pressed"@
            } else {
                "Released"@
            },
        ),
        ("R2"@, rocker_str(spec_bit_of(p[0], 3), spec_bit_of(p[0], 2), spec_bit_of(p[0], 1))),
        (
            "SA"@,
            if spec_bit_of(p[0], 0) {
                "2nd action valid"@
            } else {
                "No 2nd action"@
            },
        ),
    ]
}

/// The fields a smart-plug telegram (D2-01) decodes to, keyed by the
/// command identifier in the low nibble of the first payload byte:
/// `0x07` is a telemetry report (unit, channel, 24-bit measured value),
/// `0x04` a status report (power-failure flags, output value).
pub open spec fn d201_fields(p: Seq<u8>) -> Seq<(Seq<char>, Seq<char>)>
    recommends
        p.len() >= 1,
        p[0] & 0x0f == 0x07 ==> p.len() >= 6,
        p[0] & 0x0f == 0x04 ==> p.len() >= 3,
{
    let cmd = p[0] & 0x0f;
    if cmd == 0x07 {
        seq![
            ("UN"@, unit_str(spec_bit_of(p[1], 7), spec_bit_of(p[1], 6), spec_bit_of(p[1], 5))),
            ("I/O"@, dec_digits((p[1] & 0x1f) as int)),
            ("MV"@, dec_digits(p[5] + p[4] * 256 + p[3] * 65536)),
        ]
    } else if cmd == 0x04 {
        seq![
            (
                "PF"@,
                if spec_bit_of(p[0], 7) {
                    "Power Failure Detection enabled"@
                } else {
                    "Power Failure Detection disabled/not supported"@
                },
            ),
            (
                "PFD"@,
                if spec_bit_of(p[0], 6) {
                    "Power Failure Detected"@
                } else {
                    "Power Failure Detection disabled/not supported"@
                },
            ),
            ("OV"@, output_value_str(p[2] & 0x7f)),
        ]
    } else {
        seq![("Error"@, "Bad CMD ID"@)]
    }
}

/// The payload length each profile's decoder reads.
pub open spec fn eep_payload_ok(e: EEP, p: Seq<u8>) -> bool {
    match e {
        EEP::A50401 => p.len() >= 4,
        EEP::D2010E => {
            &&& p.len() >= 1
            &&& (p[0] & 0x0f == 0x07 ==> p.len() >= 6)
            &&& (p[0] & 0x0f == 0x04 ==> p.len() >= 3)
        },
        EEP::D50001 => p.len() >= 1,
        EEP::F60201 => p.len() >= 1,
        EEP::F60202 => p.len() >= 1,
    }
}

/// The reading map each profile's decoder produces.
pub open spec fn eep_fields(e: EEP, p: Seq<u8>) -> Seq<(Seq<char>, Seq<char>)>
    recommends
        eep_payload_ok(e, p),
{
    match e {
        EEP::A50401 => a50401_fields(p),
        EEP::D2010E => d201_fields(p),
        EEP::D50001 => d50001_fields(p),
        EEP::F60201 => f60201_fields(p),
        EEP::F60202 => f60202_fields(p),
    }
}

/// Decode a temperature/humidity sensor payload (A5-04-01).
pub fn parse_a50401_data(payload: &Vec<u8>) -> (r: ReadingMap)
    requires
        payload@.len() >= 4,
    ensures
        r@ == a50401_fields(payload@),
{
    let mut parsed = ReadingMap::new();
    parsed.insert("HUM", tenths_string(payload[1] as u32 * 4));
    parsed.insert("TMP", hundredths_string(payload[2] as u32 * 16));
    if bit_of_byte(3, &payload[3]) {
        parsed.insert("LRNB", "Data telegram".to_owned());
    } else {
        parsed.insert("LRNB", "Teach-in telegram".to_owned());
    }
    if bit_of_byte(1, &payload[3]) {
        parsed.insert("TSN", "Temperature sensor available".to_owned());
    } else {
        parsed.insert("TSN", "Temperature sensor not available".to_owned());
    }
    proof {
        assert(parsed@ =~= a50401_fields(payload@));
    }
    parsed
}

/// Decode a contact sensor payload (D5-00-01).
pub fn parse_d50001_data(payload: &Vec<u8>) -> (r: ReadingMap)
    requires
        payload@.len() >= 1,
    ensures
        r@ == d50001_fields(payload@),
{
    let mut parsed = ReadingMap::new();
    if bit_of_byte(4, &payload[0]) {
        parsed.insert("LRNB", "not pressed".to_owned());
    } else {
        parsed.insert("LRNB", "pressed".to_owned());
    }
    if bit_of_byte(7, &payload[0]) {
        parsed.insert("CO", "closed".to_owned());
    } else {
        parsed.insert("CO", "open".to_owned());
    }
    proof {
        assert(parsed@ =~= d50001_fields(payload@));
    }
    parsed
}

/// Decode a single-rocker pushbutton payload (F6-02-01).
pub fn parse_f60201_data(payload: &Vec<u8>) -> (r: ReadingMap)
    requires
        payload@.len() >= 1,
    ensures
        r@ == f60201_fields(payload@),
{
    let mut result = ReadingMap::new();
    if bit_of_byte(3, &payload[0]) {
        result.insert("LRNB", "Data telegram".to_owned());
    } else {
        result.insert("LRNB", "Teach-in telegram".to_owned());
    }
    if payload[0] == 0x70 {
        result.insert("BTN", "Pressed".to_owned());
    } else if payload[0] == 0x00 {
        result.insert("BTN", "Released".to_owned());
    } else {
        result.insert("BTN", "Unknown".to_owned());
    }
    proof {
        assert(result@ =~= f60201_fields(payload@));
    }
    result
}

/// The rocker action selected by three bits, most significant first.
fn rocker_value(b2: bool, b1: bool, b0: bool) -> (r: &'static str)
    ensures
        r@ == rocker_str(b2, b1, b0),
{
    if !b2 && !b1 && !b0 {
        "A1"
    } else if !b2 && !b1 && b0 {
        "A0"
    } else if !b2 && b1 && !b0 {
        "B1"
    } else if !b2 && b1 && b0 {
        "B0"
    } else {
        "Unknown"
    }
}

/// Decode a dual-rocker / soft-remote payload (F6-02-02).
pub fn parse_f60202_data(payload: &Vec<u8>) -> (r: ReadingMap)
    requires
        payload@.len() >= 1,
    ensures
        r@ == f60202_fields(payload@),
{
    let mut result = ReadingMap::new();
    let bits = bits_of_byte(payload[0]);
    result.insert("R1", rocker_value(bits[0], bits[1], bits[2]).to_owned());
    if bits[3] {
        result.insert("EB", "Pressed".to_owned());
    } else {
        result.insert("EB", "Released".to_owned());
    }
    result.insert("R2", rocker_value(bits[4], bits[5], bits[6]).to_owned());
    if bits[7] {
        result.insert("SA", "2nd action valid".to_owned());
    } else {
        result.insert("SA", "No 2nd action".to_owned());
    }
    proof {
        assert(result@ =~= f60202_fields(payload@));
    }
    result
}

/// Decode a micro smart plug payload (D2-01).
pub fn parse_d201_data(payload: &Vec<u8>) -> (r: ReadingMap)
    requires
        payload@.len() >= 1,
        payload@[0] & 0x0f == 0x07 ==> payload@.len() >= 6,
        payload@[0] & 0x0f == 0x04 ==> payload@.len() >= 3,
    ensures
        r@ == d201_fields(payload@),
{
    let command_id: u8 = payload[0] & 0x0f;
    let mut parsed = ReadingMap::new();
    if command_id == 0x07 {
        let unit_bits = bits_of_byte(payload[1]);
        let mut unit: &str = "Error";
        if !unit_bits[0] && !unit_bits[1] && !unit_bits[2] {
            unit = "Energy [Ws]";
        } else if !unit_bits[0] && !unit_bits[1] && unit_bits[2] {
            unit = "Energy [Wh]";
        } else if !unit_bits[0] && unit_bits[1] && !unit_bits[2] {
            unit = "Energy [KWh]";
        } else if !unit_bits[0] && unit_bits[1] && unit_bits[2] {
            unit = "Power[W]";
        } else if unit_bits[0] && !unit_bits[1] && !unit_bits[2] {
            unit = "Power[KW]";
        }
        parsed.insert("UN", unit.to_owned());
        parsed.insert("I/O", dec_string((payload[1] & 0x1f) as u32));
        let measured: u32 = payload[5] as u32 + payload[4] as u32 * 256 + payload[3] as u32
            * 65536;
        parsed.insert("MV", dec_string(measured));
    } else if command_id == 0x04 {
        if bit_of_byte(7, &payload[0]) {
            parsed.insert("PF", "Power Failure Detection enabled".to_owned());
        } else {
            parsed.insert("PF", "Power Failure Detection disabled/not supported".to_owned());
        }
        if bit_of_byte(6, &payload[0]) {
            parsed.insert("PFD", "Power Failure Detected".to_owned());
        } else {
            parsed.insert("PFD", "Power Failure Detection disabled/not supported".to_owned());
        }
        let ov: u8 = payload[2] & 0x7f;
        if ov == 0x00 {
            parsed.insert("OV", "Output value : 0% or OFF".to_owned());
        } else if ov == 0x7F {
            parsed.insert("OV", "Output value : 1 to 100% or ON".to_owned());
        } else if ov <= 0x64 {
            parsed.insert("OV", "Not used".to_owned());
        } else if ov <= 0x7E {
            parsed.insert("OV", "Output value not valid / not set".to_owned());
        } else {
            parsed.insert("OV", "Error".to_owned());
        }
    } else {
        parsed.insert("Error", "Bad CMD ID".to_owned());
    }
    proof {
        assert(parsed@ =~= d201_fields(payload@));
    }
    parsed
}

/// Decode the payload of a radio telegram according to the profile its
/// sender identifier maps to.  Non-telegram packets, unknown senders and
/// payloads shorter than the profile's layout each give their own error;
/// within a known layout, decoding is best effort and total.
pub fn parse_erp1_payload(esp: &ESP3) -> (r: Result<ReadingMap, ParseEspError>)
    ensures
        ({
            match esp.data {
                DataType::Erp1Data { sender_id, payload, .. } => {
                    match eep_of(sender_id@) {
                        Some(profile) => {
                            if eep_payload_ok(profile, payload@) {
                                r matches Ok(m) && m@ == eep_fields(profile, payload@)
                            } else {
                                r matches Err(e) && e.kind
                                    == ParseEspErrorKind::IncompleteMessage && e.message@
                                    == "Payload too short"@ && e.byte_index is None && e.packet@
                                    == esp3_bytes(*esp)
                            }
                        },
                        None => r matches Err(e) && e.kind == ParseEspErrorKind::Unimplemented
                            && e.message@ == "Unknown EEP"@ && e.byte_index is None && e.packet@
                            == esp3_bytes(*esp),
                    }
                },
                _ => r matches Err(e) && e.kind == ParseEspErrorKind::Unimplemented && e.message@
                    == "Unknown or Unimplemented yet packet type"@ && e.byte_index == Some(6i32)
                    && e.packet@ == esp3_bytes(*esp),
            }
        }),
{
    match &esp.data {
        DataType::Erp1Data { sender_id, payload, .. } => {
            match get_eep(sender_id) {
                Some(EEP::A50401) => {
                    if payload.len() >= 4 {
                        Ok(parse_a50401_data(payload))
                    } else {
                        Err(payload_too_short(esp))
                    }
                },
                Some(EEP::F60201) => {
                    if payload.len() >= 1 {
                        Ok(parse_f60201_data(payload))
                    } else {
                        Err(payload_too_short(esp))
                    }
                },
                Some(EEP::F60202) => {
                    if payload.len() >= 1 {
                        Ok(parse_f60202_data(payload))
                    } else {
                        Err(payload_too_short(esp))
                    }
                },
                Some(EEP::D2010E) => {
                    if payload.len() >= 1 {
                        let cmd = payload[0] & 0x0f;
                        if (cmd == 0x07 && payload.len() < 6) || (cmd == 0x04 && payload.len()
                            < 3) {
                            Err(payload_too_short(esp))
                        } else {
                            Ok(parse_d201_data(payload))
                        }
                    } else {
                        Err(payload_too_short(esp))
                    }
                },
                Some(EEP::D50001) => {
                    if payload.len() >= 1 {
                        Ok(parse_d50001_data(payload))
                    } else {
                        Err(payload_too_short(esp))
                    }
                },
                None => {
                    let packet = esp.to_bytes();
                    Err(
                        ParseEspError {
                            kind: ParseEspErrorKind::Unimplemented,
                            message: "Unknown EEP".to_owned(),
                            byte_index: None,
                            packet,
                        },
                    )
                },
            }
        },
        _ => {
            let packet = esp.to_bytes();
            Err(
                ParseEspError {
                    kind: ParseEspErrorKind::Unimplemented,
                    message: "Unknown or Unimplemented yet packet type".to_owned(),
                    byte_index: Some(6),
                    packet,
                },
            )
        },
    }
}

/// The action byte of an emulated F6-02 telegram.
pub open spec fn f602_action_byte(command: F602EmulateCommand) -> u8 {
    match command {
        F602EmulateCommand::MoveBlindClosed => 0x10,
        F602EmulateCommand::MoveBlindOpen => 0x30,
    }
}

/// The data section of an emulated F6-02 telegram: RPS choice byte, the
/// action, the gateway's own identifier, and a status byte with the NU
/// bit set.
pub open spec fn f602_telegram_data(command: F602EmulateCommand) -> Seq<u8> {
    seq![0xf6u8, f602_action_byte(command), 0u8, 0u8, 0u8, 0u8, 0x30u8]
}

/// The optional data every emulated or commanding telegram of this
/// module carries when broadcast: send flag, broadcast destination,
/// placeholder signal strength, no security.
pub open spec fn broadcast_opt_data() -> Seq<u8> {
    seq![0x03u8, 0xffu8, 0xffu8, 0xffu8, 0xffu8, 0xffu8, 0x00u8]
}

/// The optional data of a telegram addressed to one device.
pub open spec fn addressed_opt_data(socket_id: Seq<u8>) -> Seq<u8> {
    seq![0x03u8] + socket_id + seq![0xffu8, 0x00u8]
}

/// The command-specific data bytes of a smart-plug command telegram.
pub open spec fn d201_command_data(command: D201CommandList) -> Seq<u8> {
    match command {
        D201CommandList::Off => seq![0xd2u8, 0x01u8, 0x00u8, 0x00u8],
        D201CommandList::On => seq![0xd2u8, 0x01u8, 0x00u8, 0x01u8],
        D201CommandList::QueryEnergy => seq![0xd2u8, 0x06u8, 0x00u8],
        D201CommandList::QueryPower => seq![0xd2u8, 0x06u8, 0x20u8],
        D201CommandList::DefaultConfig => seq![
            0xd2u8,
            0x05u8,
            0xa0u8,
            0x33u8,
            0x00u8,
            0x06u8,
            0x01u8,
        ],
    }
}

/// The data section of a smart-plug command telegram: the command bytes,
/// the gateway's own identifier as sender, and a zero status byte.
pub open spec fn smart_plug_command_data(command: D201CommandList) -> Seq<u8> {
    d201_command_data(command) + seq![0u8, 0u8, 0u8, 0u8, 0x00u8]
}

/// The data section of the teach-in acceptance telegram for a smart
/// plug: a UTE response mirroring the plug's profile, sent from the
/// gateway's own identifier.
pub open spec fn teach_in_accepted_data() -> Seq<u8> {
    seq![
        0xd4u8,
        0xd1u8,
        1u8,
        70u8,
        0u8,
        14u8,
        1u8,
        210u8,
        0u8,
        0u8,
        0u8,
        0u8,
        0u8,
    ]
}

/// Parse the radio telegram whose serialized bytes are
/// `frame_bytes(0x01, data, opt)`: shared tail of the telegram builders.
fn parse_built_radio_packet(
    packet: &Vec<u8>,
    Ghost(d): Ghost<Seq<u8>>,
    Ghost(o): Ghost<Seq<u8>>,
) -> (r: Result<ESP3, ParseEspError>)
    requires
        6 <= d.len() <= 0xff,
        o.len() == 7,
        packet@ == frame_bytes(0x01u8, d, o),
    ensures
        r matches Ok(e) && esp3_wf(e) && esp3_bytes(e) == frame_bytes(0x01u8, d, o),
{
    proof {
        lemma_frame_bytes_esp3_parse(0x01u8, d, o);
    }
    match esp3_of_enocean_message(packet.as_slice()) {
        Result::Ok(e) => {
            proof {
                lemma_esp3_parse_encodes(e, packet@);
                assert(esp3_bytes(e) =~= packet@);
            }
            Result::Ok(e)
        },
        Result::Err(e) => {
            proof {
                assert(false);
            }
            Result::Err(e)
        },
    }
}

/// Emulate an F6-02 PTM telegram: RORG `F6`, a one-byte action code
/// (`0x10` closed, `0x30` open), status `0x30`, broadcast as the
/// gateway.
pub fn create_f60201_telegram(command: F602EmulateCommand) -> (r: Result<ESP3, ParseEspError>)
    ensures
        r matches Ok(e) && esp3_wf(e) && esp3_bytes(e) == frame_bytes(
            0x01u8,
            f602_telegram_data(command),
            broadcast_opt_data(),
        ),
{
    let mut data: Vec<u8> = Vec::new();
    data.push(0xf6);
    match command {
        F602EmulateCommand::MoveBlindClosed => {
            data.push(0x10);
        },
        F602EmulateCommand::MoveBlindOpen => {
            data.push(0x30);
        },
    }
    data.push(0x00);
    data.push(0x00);
    data.push(0x00);
    data.push(0x00);
    data.push(0x30);
    let mut opt_data: Vec<u8> = Vec::new();
    opt_data.push(0x03);
    opt_data.push(0xff);
    opt_data.push(0xff);
    opt_data.push(0xff);
    opt_data.push(0xff);
    opt_data.push(0xff);
    opt_data.push(0x00);
    proof {
        assert(data@ =~= f602_telegram_data(command));
        assert(opt_data@ =~= broadcast_opt_data());
    }
    let mut packet: Vec<u8> = Vec::new();
    let frame = ESP3FrameRef {
        packet_type: 0x01,
        data: data.as_slice(),
        optional_data: opt_data.as_slice(),
    };
    frame.write_to(&mut packet);
    proof {
        assert(packet@ =~= frame_bytes(0x01u8, f602_telegram_data(command), broadcast_opt_data()));
    }
    parse_built_radio_packet(&packet, Ghost(f602_telegram_data(command)), Ghost(broadcast_opt_data()))
}

/// Build the UTE teach-in acceptance telegram for a smart plug.
pub fn create_smart_plug_teach_in_accepted_response_packet(socket_id: [u8; 4]) -> (r: Result<
    ESP3,
    ParseEspError,
>)
    ensures
        r matches Ok(e) && esp3_wf(e) && esp3_bytes(e) == frame_bytes(
            0x01u8,
            teach_in_accepted_data(),
            addressed_opt_data(socket_id@),
        ),
{
    let mut data: Vec<u8> = Vec::new();
    data.push(0xd4);
    data.push(0xd1);
    data.push(1);
    data.push(70);
    data.push(0);
    data.push(14);
    data.push(1);
    data.push(210);
    data.push(0);
    data.push(0);
    data.push(0);
    data.push(0);
    data.push(0);
    let opt_data = addressed_opt(&socket_id);
    proof {
        assert(data@ =~= teach_in_accepted_data());
    }
    let mut packet: Vec<u8> = Vec::new();
    let frame = ESP3FrameRef {
        packet_type: 0x01,
        data: data.as_slice(),
        optional_data: opt_data.as_slice(),
    };
    frame.write_to(&mut packet);
    proof {
        assert(packet@ =~= frame_bytes(
            0x01u8,
            teach_in_accepted_data(),
            addressed_opt_data(socket_id@),
        ));
    }
    parse_built_radio_packet(
        &packet,
        Ghost(teach_in_accepted_data()),
        Ghost(addressed_opt_data(socket_id@)),
    )
}

/// Build a smart-plug command telegram: the command bytes, the gateway
/// identifier as sender, addressed to the given socket.
pub fn create_smart_plug_command(socket_id: [u8; 4], command: D201CommandList) -> (r: Result<
    ESP3,
    ParseEspError,
>)
    ensures
        r matches Ok(e) && esp3_wf(e) && esp3_bytes(e) == frame_bytes(
            0x01u8,
            smart_plug_command_data(command),
            addressed_opt_data(socket_id@),
        ),
{
    let mut data: Vec<u8> = Vec::new();
    match command {
        D201CommandList::Off => {
            data.push(0xd2);
            data.push(0x01);
            data.push(0x00);
            data.push(0x00);
        },
        D201CommandList::On => {
            data.push(0xd2);
            data.push(0x01);
            data.push(0x00);
            data.push(0x01);
        },
        D201CommandList::QueryEnergy => {
            data.push(0xd2);
            data.push(0x06);
            data.push(0x00);
        },
        D201CommandList::QueryPower => {
            data.push(0xd2);
            data.push(0x06);
            data.push(0x20);
        },
        D201CommandList::DefaultConfig => {
            data.push(0xd2);
            data.push(0x05);
            data.push(0xa0);
            data.push(0x33);
            data.push(0x00);
            data.push(0x06);
            data.push(0x01);
        },
    }
    data.push(0);
    data.push(0);
    data.push(0);
    data.push(0);
    data.push(0x00);
    let opt_data = addressed_opt(&socket_id);
    proof {
        assert(data@ =~= smart_plug_command_data(command));
    }
    let mut packet: Vec<u8> = Vec::new();
    let frame = ESP3FrameRef {
        packet_type: 0x01,
        data: data.as_slice(),
        optional_data: opt_data.as_slice(),
    };
    frame.write_to(&mut packet);
    proof {
        assert(packet@ =~= frame_bytes(
            0x01u8,
            smart_plug_command_data(command),
            addressed_opt_data(socket_id@),
        ));
    }
    parse_built_radio_packet(
        &packet,
        Ghost(smart_plug_command_data(command)),
        Ghost(addressed_opt_data(socket_id@)),
    )
}

/// Build the configuration telegram that puts a smart plug in its
/// default reporting configuration.
pub fn create_smart_plug_default_config_packet(socket_id: [u8; 4]) -> (r: Result<
    ESP3,
    ParseEspError,
>)
    ensures
        r matches Ok(e) && esp3_wf(e) && esp3_bytes(e) == frame_bytes(
            0x01u8,
            smart_plug_command_data(D201CommandList::DefaultConfig),
            addressed_opt_data(socket_id@),
        ),
{
    create_smart_plug_command(socket_id, D201CommandList::DefaultConfig)
}

/// The optional-data bytes of a telegram addressed to one device.
fn addressed_opt(socket_id: &[u8; 4]) -> (r: Vec<u8>)
    ensures
        r@ == addressed_opt_data(socket_id@),
{
    let mut opt_data: Vec<u8> = Vec::new();
    opt_data.push(0x03);
    opt_data.push(socket_id[0]);
    opt_data.push(socket_id[1]);
    opt_data.push(socket_id[2]);
    opt_data.push(socket_id[3]);
    opt_data.push(0xff);
    opt_data.push(0x00);
    proof {
        assert(socket_id@ =~= seq![
            socket_id@[0],
            socket_id@[1],
            socket_id@[2],
            socket_id@[3],
        ]);
        assert(opt_data@ =~= addressed_opt_data(socket_id@));
    }
    opt_data
}

/// The error for a telegram whose payload is shorter than its profile's
/// layout.
fn payload_too_short(esp: &ESP3) -> (r: ParseEspError)
    ensures
        r.kind == ParseEspErrorKind::IncompleteMessage,
        r.message@ == "Payload too short"@,
        r.byte_index is None,
        r.packet@ == esp3_bytes(*esp),
{
    ParseEspError {
        kind: ParseEspErrorKind::IncompleteMessage,
        message: "Payload too short".to_owned(),
        byte_index: None,
        packet: esp.to_bytes(),
    }
}

} // verus!
