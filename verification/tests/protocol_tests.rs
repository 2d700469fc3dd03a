//! Tests of the CRC8 accumulator, the framing layer, the typed packet
//! codec, the streaming link components, and the remaining profile
//! decoders.

use enocean::crc8::{compute_crc8, CRC8};
use enocean::eep::{
    create_smart_plug_command, create_smart_plug_default_config_packet, parse_erp1_payload,
    D201CommandList,
};
use enocean::enocean::{
    esp3_of_enocean_message, get_raw_message, DataType, OptDataType, PacketType, ReturnCode,
    Rorg, ESP3,
};
use enocean::frame::{ESP3Frame, ESP3FrameRef};
use enocean::link::{Correlator, Framer};
use enocean::packet::{
    Address, CommonCommand, Packet, ParseError, RadioErp1, Response, Security, SubtelNum,
    Version, VersionResponse,
};
use enocean::reading::{dec_string, hundredths_string, tenths_string};
use enocean::FrameReadError;

const A50401_FRAME: [u8; 24] = [
    85, 0, 10, 7, 1, 235, 165, 0, 229, 204, 10, 5, 17, 114, 247, 0, 1, 255, 255, 255, 255, 54, 0,
    213,
];

fn erp1_esp3(sender_id: [u8; 4], payload: Vec<u8>) -> ESP3 {
    let data_length = (payload.len() + 6) as u16;
    ESP3 {
        data_length,
        optional_data_length: 7,
        packet_type: PacketType::RadioErp1,
        data: DataType::Erp1Data {
            rorg: Rorg::Vld,
            sender_id,
            status: 0,
            payload,
        },
        opt_data: Some(OptDataType::Erp1OptData {
            subtel_num: 1,
            destination_id: [255, 255, 255, 255],
            rssi: 0x40,
            security_lvl: 0,
        }),
        crc_header: 0,
        crc_data: 0,
    }
}

// CRC8 fixed vectors: the common-command header of the base-identifier
// read, and both checksums of a captured sensor frame.
#[test]
fn crc8_matches_reference_vectors() {
    assert_eq!(compute_crc8(&[0, 5, 1, 2]), 0xDB);
    assert_eq!(compute_crc8(&A50401_FRAME[1..5]), A50401_FRAME[5]);
    assert_eq!(compute_crc8(&A50401_FRAME[6..23]), A50401_FRAME[23]);
}

// Feeding two slices one after the other equals the checksum of their
// concatenation: the header/data CRC split needs exactly this.
#[test]
fn crc8_accumulator_equals_checksum_of_concatenation() {
    let a: Vec<u8> = vec![0xd2, 0x06, 0x20, 7, 9];
    let b: Vec<u8> = vec![0x03, 0xff, 0x00];
    let mut whole: Vec<u8> = a.clone();
    whole.extend_from_slice(&b);

    let mut acc = CRC8::start();
    acc.feed_slice(&a);
    acc.feed_slice(&b);
    assert_eq!(acc.finish(), compute_crc8(&whole));

    let mut bytewise = CRC8::start();
    for byte in &whole {
        bytewise.feed(*byte);
    }
    assert_eq!(bytewise.finish(), compute_crc8(&whole));
}

#[test]
fn frame_read_then_write_reproduces_the_bytes() {
    let (frame, consumed) = ESP3Frame::read_from(&A50401_FRAME).unwrap();
    assert_eq!(consumed, A50401_FRAME.len());
    assert_eq!(frame.packet_type(), 0x01);
    assert_eq!(frame.data(), &A50401_FRAME[6..16]);
    assert_eq!(frame.optional_data(), &A50401_FRAME[16..23]);
    let mut out: Vec<u8> = Vec::new();
    frame.write_to(&mut out);
    assert_eq!(out, A50401_FRAME.to_vec());
}

#[test]
fn frame_assemble_then_read_gives_the_sections_back() {
    let data = [165, 16, 8, 70, 128, 5, 17, 114, 247, 0];
    let optional_data = [1, 255, 255, 255, 255, 55, 0];
    let frame = ESP3Frame::assemble(0x01, &data, &optional_data);
    let mut bytes: Vec<u8> = Vec::new();
    frame.write_to(&mut bytes);
    let (reread, consumed) = ESP3Frame::read_from(&bytes).unwrap();
    assert_eq!(consumed, bytes.len());
    assert_eq!(reread.packet_type(), 0x01);
    assert_eq!(reread.data(), &data);
    assert_eq!(reread.optional_data(), &optional_data);

    let frame_ref = ESP3FrameRef {
        packet_type: 0x01,
        data: &data,
        optional_data: &optional_data,
    };
    let mut written: Vec<u8> = Vec::new();
    frame_ref.write_to(&mut written);
    assert_eq!(written, bytes);
    let owned = frame_ref.to_owned();
    assert_eq!(owned.data(), &data);
    assert_eq!(owned.as_ref().optional_data, &optional_data);
}

// One garbage byte before a valid frame does not change the frame that
// is read, only the skip cost.
#[test]
fn one_garbage_byte_before_a_frame_only_costs_the_skip() {
    let mut noisy: Vec<u8> = vec![0xAA];
    noisy.extend_from_slice(&A50401_FRAME);
    let (frame, consumed) = ESP3Frame::read_from(&noisy).unwrap();
    assert_eq!(consumed, A50401_FRAME.len() + 1);
    let mut out: Vec<u8> = Vec::new();
    frame.write_to(&mut out);
    assert_eq!(out, A50401_FRAME.to_vec());
}

// Flipping the last byte of a valid frame must surface the data-CRC
// error, carrying the corrupted bytes, and must never panic.
#[test]
fn corrupted_data_crc_reports_the_offending_bytes() {
    let mut corrupted = A50401_FRAME.to_vec();
    let last = corrupted.len() - 1;
    corrupted[last] ^= 0xFF;
    match ESP3Frame::read_from(&corrupted) {
        Err(FrameReadError::DataCRC { frame, data_crc }) => {
            assert_eq!(frame, corrupted);
            assert_eq!(data_crc, compute_crc8(&corrupted[6..23]));
        }
        other => panic!("expected a data-CRC error, got {:?}", other.map(|(f, n)| (f.packet_type(), n))),
    }
    let err = esp3_of_enocean_message(&corrupted).unwrap_err();
    assert_eq!(err.message, String::from("CRC Data Error"));
    assert_eq!(err.byte_index, Some(23)); // the stored data-CRC byte
}

#[test]
fn framer_yields_a_frame_once_the_chunks_complete_it() {
    let mut framer = Framer::new();
    framer.push_bytes(&[0x13, 0x77]); // line noise before the frame
    framer.push_bytes(&A50401_FRAME[..10]);
    assert!(matches!(framer.next_frame(), Err(FrameReadError::EOF)));
    framer.push_bytes(&A50401_FRAME[10..]);
    let frame = framer.next_frame().unwrap();
    let mut out: Vec<u8> = Vec::new();
    frame.write_to(&mut out);
    assert_eq!(out, A50401_FRAME.to_vec());
    assert!(matches!(framer.next_frame(), Err(FrameReadError::EOF)));
}

#[test]
fn framer_consumes_a_corrupt_frame_and_reads_on_behind_it() {
    let mut corrupted = A50401_FRAME.to_vec();
    corrupted[22] ^= 0x01; // damage the data section, keep the header
    let mut framer = Framer::new();
    framer.push_bytes(&corrupted);
    framer.push_bytes(&A50401_FRAME);
    assert!(matches!(
        framer.next_frame(),
        Err(FrameReadError::DataCRC { .. })
    ));
    let frame = framer.next_frame().unwrap();
    let mut out: Vec<u8> = Vec::new();
    frame.write_to(&mut out);
    assert_eq!(out, A50401_FRAME.to_vec());
}

#[test]
fn correlator_routes_responses_and_queues_telegrams_in_order() {
    let telegram_a = ESP3Frame::assemble(0x01, &[0xf6, 0x70, 1, 2, 3, 4, 0x30], &[]);
    let telegram_b = ESP3Frame::assemble(0x0A, &[1, 2, 3], &[]);
    let response = ESP3Frame::assemble(0x02, &[0x00], &[]);

    let mut correlator = Correlator::new();
    assert!(correlator.offer(telegram_a).is_none());
    assert!(correlator.offer(telegram_b).is_none());
    assert_eq!(correlator.pending_len(), 2);

    let reply = correlator.offer(response).expect("a response answers the command");
    assert_eq!(reply.packet_type(), 0x02);
    assert_eq!(correlator.pending_len(), 2);

    assert_eq!(correlator.pop_pending().unwrap().packet_type(), 0x01);
    assert_eq!(correlator.pop_pending().unwrap().packet_type(), 0x0A);
    assert!(correlator.pop_pending().is_none());
}

#[test]
fn radio_telegram_packet_round_trips_through_the_codec() {
    let telegram = Packet::RadioErp1(RadioErp1 {
        choice: 0xa5,
        user_data: vec![0, 229, 204, 10],
        sender_id: Address([5, 17, 114, 247]),
        status: 0,
        subtel_num: SubtelNum::Send.to_byte(),
        destination: Address([255, 255, 255, 255]),
        rssi: 54,
        security: Security::NoSecurity.to_byte(),
    });
    let frame = telegram.encode();
    assert_eq!(Packet::decode(frame.as_ref()).unwrap(), telegram);
}

#[test]
fn response_and_command_packets_round_trip_through_the_codec() {
    let response = Packet::Response(Response {
        code: enocean::enocean::ReturnCode::NotSupported,
        data: vec![7, 8, 9],
    });
    let frame = response.encode();
    assert_eq!(frame.packet_type(), 0x02);
    assert_eq!(Packet::decode(frame.as_ref()).unwrap(), response);

    let read_version = Packet::CommonCommand(CommonCommand::ReadVersion);
    let frame = read_version.encode();
    assert_eq!(frame.data(), &[0x03]);
    assert_eq!(Packet::decode(frame.as_ref()).unwrap(), read_version);

    let other_command = Packet::CommonCommand(CommonCommand::Unknown {
        code: 0x08,
        data: vec![1],
        optional: vec![],
    });
    let frame = other_command.encode();
    assert_eq!(Packet::decode(frame.as_ref()).unwrap(), other_command);

    let unknown = Packet::Unknown {
        packet_type: 0x09,
        data: vec![1, 2, 3],
        optional: vec![4],
    };
    let frame = unknown.encode();
    assert_eq!(Packet::decode(frame.as_ref()).unwrap(), unknown);
}

#[test]
fn response_decode_reports_each_error_on_its_input() {
    let not_a_response = ESP3Frame::assemble(0x01, &[1, 2, 3, 4, 5, 6], &[]);
    assert_eq!(
        Response::decode(not_a_response.as_ref()).unwrap_err(),
        ParseError::UnsupportedPacketType
    );

    let empty = ESP3Frame::assemble(0x02, &[], &[]);
    assert_eq!(
        Response::decode(empty.as_ref()).unwrap_err(),
        ParseError::PacketTooShort
    );

    let bad_code = ESP3Frame::assemble(0x02, &[0x42, 1], &[]);
    assert_eq!(
        Response::decode(bad_code.as_ref()).unwrap_err(),
        ParseError::InvalidResultCode(0x42)
    );

    let good = ESP3Frame::assemble(0x02, &[0x02, 9], &[]);
    let decoded = Response::decode(good.as_ref()).unwrap();
    assert_eq!(decoded.code, enocean::enocean::ReturnCode::NotSupported);
    assert_eq!(decoded.data, vec![9]);
}

#[test]
fn version_response_round_trips_and_rejects_bad_payloads() {
    let version = VersionResponse {
        app: Version { main: 2, beta: 11, alpha: 1, build: 0 },
        api: Version { main: 2, beta: 6, alpha: 3, build: 0 },
        chip_id: Address([0xff, 0x9b, 0x12, 0x80]),
        chip_version: [0, 0, 0, 0],
        description: String::from("GATEWAYCTRL_0001"),
    };
    let response = version.encode();
    assert_eq!(response.data.len(), 32);
    assert_eq!(VersionResponse::decode(&response).unwrap(), version);

    let short = Response {
        code: enocean::enocean::ReturnCode::RetOk,
        data: vec![0; 31],
    };
    assert_eq!(
        VersionResponse::decode(&short).unwrap_err(),
        ParseError::PacketTooShort
    );

    let mut bad_text = vec![0u8; 32];
    for byte in bad_text.iter_mut().skip(16) {
        *byte = 0xFF;
    }
    let garbled = Response {
        code: enocean::enocean::ReturnCode::RetOk,
        data: bad_text,
    };
    assert_eq!(
        VersionResponse::decode(&garbled).unwrap_err(),
        ParseError::UTF8
    );
}

// Scenario: the QueryPower command re-decodes to a radio telegram whose
// data section begins `D2 06 20`.
#[test]
fn query_power_command_builds_a_d2_06_20_telegram() {
    let packet = create_smart_plug_command([0x05, 0x0a, 0x3d, 0x6a], D201CommandList::QueryPower)
        .unwrap();
    let bytes = packet.to_bytes();
    assert_eq!(&bytes[6..9], &[0xD2, 0x06, 0x20]);

    let redecoded = esp3_of_enocean_message(&bytes).unwrap();
    match redecoded.data {
        DataType::Erp1Data { rorg, sender_id, payload, .. } => {
            assert_eq!(rorg, Rorg::Vld);
            assert_eq!(sender_id, [0, 0, 0, 0]);
            assert_eq!(payload, vec![0x06, 0x20]);
        }
        other => panic!("expected a radio telegram, got {:?}", other),
    }
    match redecoded.opt_data {
        Some(OptDataType::Erp1OptData { destination_id, .. }) => {
            assert_eq!(destination_id, [0x05, 0x0a, 0x3d, 0x6a]);
        }
        other => panic!("expected telegram optional data, got {:?}", other),
    }
}

#[test]
fn smart_plug_commands_carry_their_command_bytes() {
    let on = create_smart_plug_command([1, 2, 3, 4], D201CommandList::On).unwrap();
    assert_eq!(&on.to_bytes()[6..10], &[0xD2, 0x01, 0x00, 0x01]);
    let off = create_smart_plug_command([1, 2, 3, 4], D201CommandList::Off).unwrap();
    assert_eq!(&off.to_bytes()[6..10], &[0xD2, 0x01, 0x00, 0x00]);
    let energy = create_smart_plug_command([1, 2, 3, 4], D201CommandList::QueryEnergy).unwrap();
    assert_eq!(&energy.to_bytes()[6..9], &[0xD2, 0x06, 0x00]);
    let config = create_smart_plug_default_config_packet([1, 2, 3, 4]).unwrap();
    assert_eq!(
        &config.to_bytes()[6..13],
        &[0xD2, 0x05, 0xA0, 0x33, 0x00, 0x06, 0x01]
    );
}

// Decoding the same payload twice yields identical field maps.
#[test]
fn profile_decode_is_idempotent() {
    let esp = esp3_of_enocean_message(&A50401_FRAME).unwrap();
    let first = parse_erp1_payload(&esp).unwrap();
    let second = parse_erp1_payload(&esp).unwrap();
    assert_eq!(first.len(), second.len());
    for key in ["HUM", "TMP", "LRNB", "TSN"] {
        assert_eq!(first.get(key).unwrap(), second.get(key).unwrap());
    }
}

#[test]
fn contact_profile_decodes_both_bits() {
    let esp = erp1_esp3([0x01, 0x92, 0x3d, 0xa8], vec![0b1000_0000]);
    let fields = parse_erp1_payload(&esp).unwrap();
    assert_eq!(fields.get("CO").unwrap(), &String::from("closed"));
    assert_eq!(fields.get("LRNB").unwrap(), &String::from("pressed"));

    let esp = erp1_esp3([0x01, 0x92, 0x3d, 0xa8], vec![0b0001_0000]);
    let fields = parse_erp1_payload(&esp).unwrap();
    assert_eq!(fields.get("CO").unwrap(), &String::from("open"));
    assert_eq!(fields.get("LRNB").unwrap(), &String::from("not pressed"));
}

#[test]
fn smart_plug_status_report_decodes_flags_and_output_bands() {
    let esp = erp1_esp3([0x05, 0x0a, 0x3d, 0x6a], vec![0xC4, 0, 0x00]);
    let fields = parse_erp1_payload(&esp).unwrap();
    assert_eq!(
        fields.get("PF").unwrap(),
        &String::from("Power Failure Detection enabled")
    );
    assert_eq!(
        fields.get("PFD").unwrap(),
        &String::from("Power Failure Detected")
    );
    assert_eq!(
        fields.get("OV").unwrap(),
        &String::from("Output value : 0% or OFF")
    );

    let esp = erp1_esp3([0x05, 0x0a, 0x3d, 0x6a], vec![0x04, 0, 0x7F]);
    let fields = parse_erp1_payload(&esp).unwrap();
    assert_eq!(
        fields.get("PF").unwrap(),
        &String::from("Power Failure Detection disabled/not supported")
    );
    assert_eq!(
        fields.get("OV").unwrap(),
        &String::from("Output value : 1 to 100% or ON")
    );

    let esp = erp1_esp3([0x05, 0x0a, 0x3d, 0x6a], vec![0x04, 0, 0x30]);
    let fields = parse_erp1_payload(&esp).unwrap();
    assert_eq!(fields.get("OV").unwrap(), &String::from("Not used"));

    let esp = erp1_esp3([0x05, 0x0a, 0x3d, 0x6a], vec![0x04, 0, 0x70]);
    let fields = parse_erp1_payload(&esp).unwrap();
    assert_eq!(
        fields.get("OV").unwrap(),
        &String::from("Output value not valid / not set")
    );

    let esp = erp1_esp3([0x05, 0x0a, 0x3d, 0x6a], vec![0x09]);
    let fields = parse_erp1_payload(&esp).unwrap();
    assert_eq!(fields.get("Error").unwrap(), &String::from("Bad CMD ID"));
}

#[test]
fn unknown_sender_and_foreign_packets_each_get_their_error() {
    let esp = erp1_esp3([9, 9, 9, 9], vec![0]);
    let err = parse_erp1_payload(&esp).unwrap_err();
    assert_eq!(err.message, String::from("Unknown EEP"));

    let response_frame: Vec<u8> = {
        let header: Vec<u8> = vec![0, 1, 0, 2];
        let mut bytes: Vec<u8> = vec![0x55];
        bytes.extend_from_slice(&header);
        bytes.push(compute_crc8(&header));
        bytes.push(0x00);
        bytes.push(compute_crc8(&[0x00]));
        bytes
    };
    let esp = esp3_of_enocean_message(&response_frame).unwrap();
    let err = parse_erp1_payload(&esp).unwrap_err();
    assert_eq!(
        err.message,
        String::from("Unknown or Unimplemented yet packet type")
    );

    let esp = erp1_esp3([5, 17, 114, 247], vec![0, 229]);
    let err = parse_erp1_payload(&esp).unwrap_err();
    assert_eq!(err.message, String::from("Payload too short"));
}

#[test]
fn decimal_strings_render_like_shortest_float_output() {
    assert_eq!(dec_string(0), "0");
    assert_eq!(dec_string(19), "19");
    assert_eq!(dec_string(16711680), "16711680");
    assert_eq!(tenths_string(916), "91.6");
    assert_eq!(tenths_string(920), "92");
    assert_eq!(tenths_string(0), "0");
    assert_eq!(hundredths_string(3264), "32.64");
    assert_eq!(hundredths_string(3280), "32.8");
    assert_eq!(hundredths_string(1600), "16");
    assert_eq!(hundredths_string(80), "0.8");
    assert_eq!(hundredths_string(16), "0.16");
}

// Parsing a valid byte stream and serializing the packet again gives
// the original bytes back, and parsing those gives an equal packet.
#[test]
fn esp3_parse_then_serialize_round_trips() {
    let esp = esp3_of_enocean_message(&A50401_FRAME).unwrap();
    let bytes = esp.to_bytes();
    assert_eq!(bytes, A50401_FRAME.to_vec());
    assert_eq!(esp3_of_enocean_message(&bytes).unwrap(), esp);
}

// A known but uninterpreted packet type is carried verbatim, never an
// error, and serializes back byte for byte.
#[test]
fn uninterpreted_packet_types_pass_through_verbatim() {
    let data = [9u8, 8, 7];
    let optional = [1u8];
    let mut bytes: Vec<u8> = vec![0x55, 0, 3, 1, 0x03];
    bytes.push(compute_crc8(&bytes[1..5]));
    bytes.extend_from_slice(&data);
    bytes.extend_from_slice(&optional);
    bytes.push(compute_crc8(&[9, 8, 7, 1]));

    let esp = esp3_of_enocean_message(&bytes).unwrap();
    assert_eq!(esp.packet_type, PacketType::RadioSubTel);
    match &esp.data {
        DataType::RawData { raw_data } => assert_eq!(raw_data, &vec![9, 8, 7]),
        other => panic!("expected a verbatim data section, got {:?}", other),
    }
    assert_eq!(esp.to_bytes(), bytes);
}

// An unassigned packet type byte is never an error: the packet is
// carried verbatim under `Undefined` and serializes back byte for byte.
#[test]
fn unassigned_packet_type_byte_passes_through_verbatim() {
    let mut bytes: Vec<u8> = vec![0x55, 0, 1, 0, 0x08];
    bytes.push(compute_crc8(&bytes[1..5]));
    bytes.push(0x42);
    bytes.push(compute_crc8(&[0x42]));
    let esp = esp3_of_enocean_message(&bytes).unwrap();
    assert_eq!(esp.packet_type, PacketType::Undefined(0x08));
    match &esp.data {
        DataType::RawData { raw_data } => assert_eq!(raw_data, &vec![0x42]),
        other => panic!("expected a verbatim data section, got {:?}", other),
    }
    assert_eq!(esp.to_bytes(), bytes);
}

// Unassigned radio-organization and return-code bytes are kept in their
// `Undefined` variants, so decode-then-encode reproduces the original
// bytes exactly even for non-canonical frames.
#[test]
fn non_canonical_bytes_round_trip_exactly() {
    let data = [0x00u8, 0xAA, 1, 2, 3, 4, 0x30];
    let optional = [3u8, 255, 255, 255, 255, 45, 0];
    let mut telegram: Vec<u8> = vec![0x55, 0, 7, 7, 1];
    telegram.push(compute_crc8(&telegram[1..5]));
    telegram.extend_from_slice(&data);
    telegram.extend_from_slice(&optional);
    let mut body = data.to_vec();
    body.extend_from_slice(&optional);
    telegram.push(compute_crc8(&body));

    let esp = esp3_of_enocean_message(&telegram).unwrap();
    match &esp.data {
        DataType::Erp1Data { rorg, .. } => assert_eq!(*rorg, Rorg::Undefined(0x00)),
        other => panic!("expected a radio telegram, got {:?}", other),
    }
    assert_eq!(esp.to_bytes(), telegram);

    let mut response: Vec<u8> = vec![0x55, 0, 2, 0, 2];
    response.push(compute_crc8(&response[1..5]));
    response.extend_from_slice(&[0x42, 0x99]);
    response.push(compute_crc8(&[0x42, 0x99]));

    let esp = esp3_of_enocean_message(&response).unwrap();
    match &esp.data {
        DataType::ResponseData { return_code, .. } => {
            assert_eq!(*return_code, ReturnCode::Undefined(0x42));
        }
        other => panic!("expected a response, got {:?}", other),
    }
    assert_eq!(esp.to_bytes(), response);
}

// Asking for the typed packet type of a message still reports the
// unassigned bytes, even though the packet parser carries them through.
#[test]
fn packet_type_lookup_reports_unassigned_bytes() {
    let assigned = [0x55u8, 0, 1, 0, 0x0A];
    assert_eq!(
        enocean::enocean::get_packet_type(&assigned).unwrap(),
        PacketType::RadioErp2
    );
    let unassigned = [0x55u8, 0, 1, 0, 0x08];
    let err = enocean::enocean::get_packet_type(&unassigned).unwrap_err();
    assert_eq!(
        err.message,
        String::from("Invalid or unimplemented yet packet type")
    );
    assert_eq!(err.byte_index, Some(4));
}

#[test]
fn raw_message_buffer_is_kept_verbatim() {
    let message = vec![1, 2, 3, 4];
    assert_eq!(get_raw_message(message.clone()), message);
}
