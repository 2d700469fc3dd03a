//! Tests of the Equipment Profile payload decoders and telegram
//! builders.

use enocean::eep::{
    bit_of_byte, bits_of_byte, create_f60201_telegram, create_smart_plug_teach_in_accepted_response_packet,
    parse_erp1_payload, F602EmulateCommand, EEP,
};
use enocean::enocean::esp3_of_enocean_message;

#[test]
fn given_valid_a50401_esp3_packet_and_its_eep_then_parse_all_data_when_learn_button_not_pressed() {
    let received_message = vec![
        85, 0, 10, 7, 1, 235, 165, 0, 229, 204, 10, 5, 17, 114, 247, 0, 1, 255, 255, 255, 255, 54,
        0, 213,
    ];
    let esp3_packet = esp3_of_enocean_message(&received_message).unwrap();

    let _eep: EEP = EEP::A50401;

    let results = parse_erp1_payload(&esp3_packet);
    let temp = results.unwrap();
    assert_eq!(temp.get("HUM").unwrap(), &String::from("91.6"));
    assert_eq!(temp.get("TMP").unwrap(), &String::from("32.64"));
    assert_eq!(temp.get("LRNB").unwrap(), &String::from("Data telegram"));
    assert_eq!(
        temp.get("TSN").unwrap(),
        &String::from("Temperature sensor available")
    );
}

#[test]
fn given_valid_f60201_esp3_packet_when_pressed_then_parse_all_data() {
    let received_message = vec![
        85, 0, 7, 7, 1, 122, 246, 112, 254, 245, 143, 245, 48, 1, 255, 255, 255, 255, 46, 0, 249,
    ];
    let esp3_packet = esp3_of_enocean_message(&received_message).unwrap();
    let _eep: EEP = EEP::F60201;

    let results = parse_erp1_payload(&esp3_packet).unwrap();

    assert_eq!(results.get("BTN").unwrap(), &String::from("Pressed"));
}

#[test]
fn given_valid_f60202_esp3_packet_when_a0_pushed_then_parse_all_data() {
    let received_message = vec![
        85, 0, 7, 7, 1, 122, 246, 48, 0, 49, 192, 249, 48, 1, 255, 255, 255, 255, 51, 0, 144,
    ];
    let esp3_packet = esp3_of_enocean_message(&received_message).unwrap();
    let results = parse_erp1_payload(&esp3_packet).unwrap();

    assert_eq!(results.get("R1").unwrap(), &String::from("A0"));
}

#[test]
fn given_valid_d2010e_esp3_packet_when_consumption_changes_then_parse_all_data() {
    let received_message = vec![
        0x55, 0x0, 0xC, 0x7, 0x1, 0x96, 0xD2, 0x7, 0x60, 0x0, 0x0, 0x0, 0x13, 0x5, 0xA, 0x3D,
        0x6A, 0x0, 0x1, 0xFF, 0xFF, 0xFF, 0xFF, 0x3D, 0x0, 0xF1,
    ];

    let esp3_packet = esp3_of_enocean_message(&received_message).unwrap();
    let results = parse_erp1_payload(&esp3_packet).unwrap();
    assert_eq!(results.get("MV").unwrap(), &String::from("19"));
    assert_eq!(results.get("UN").unwrap(), &String::from("Power[W]"));
}

#[test]
fn given_f60201_valid_status_then_create_valid_f60201_packet() {
    let created_response_close =
        create_f60201_telegram(F602EmulateCommand::MoveBlindClosed).unwrap();
    // Action code 0x10 moves the blind closed; the trailing byte is the
    // CRC8 of the data and optional-data sections.
    let valid_response_close = vec![
        0x55, 0x0, 0x07, 0x7, 0x1, 122, 0xf6, 0x10, 0x00, 0x00, 0x00, 0x00, 0x30, 0x03, 0xff,
        0xff, 0xff, 0xff, 0xff, 0x0, 19,
    ];

    assert_eq!(valid_response_close, created_response_close.to_bytes());
}

#[test]
fn given_d2010e_valid_esp3_packet_containing_teachin_query_then_create_valid_response_packet() {
    let created_response =
        create_smart_plug_teach_in_accepted_response_packet([0x05, 0x0a, 0x3d, 0x6a]).unwrap();
    let valid_response = vec![
        0x55, 0x0, 0xd, 0x7, 0x1, 0xfd, 0xd4, 0xd1, 0x1, 0x46, 0x0, 0xe, 0x1, 0xd2, 0x0, 0x0,
        0x0, 0x0, 0x0, 0x3, 0x5, 0xa, 0x3d, 0x6a, 0xff, 0x0, 0x6d,
    ];
    assert_eq!(valid_response, created_response.to_bytes());
}

#[test]
fn given_u8_byte_then_get_specific_bit_value() {
    let a: u8 = 0xa5;
    assert_eq!(bit_of_byte(0, &a), true);
    assert_eq!(bit_of_byte(1, &a), false);
    assert_eq!(bit_of_byte(2, &a), true);
    assert_eq!(bit_of_byte(3, &a), false);
    assert_eq!(bit_of_byte(4, &a), false);
    assert_eq!(bit_of_byte(5, &a), true);
    assert_eq!(bit_of_byte(6, &a), false);
    assert_eq!(bit_of_byte(7, &a), true);
}

#[test]
fn given_u8_byte_then_get_bits_values() {
    let a: u8 = 0xff;
    let b: u8 = 0x00;
    let c: u8 = 0x3a;

    assert_eq!(
        bits_of_byte(a),
        [true, true, true, true, true, true, true, true]
    );
    assert_eq!(
        bits_of_byte(b),
        [false, false, false, false, false, false, false, false]
    );
    assert_eq!(
        bits_of_byte(c),
        [false, false, true, true, true, false, true, false]
    );
}
