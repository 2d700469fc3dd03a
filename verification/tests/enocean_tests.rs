//! Tests of the ESP3 byte-level parser and its error reporting.

use enocean::crc8::compute_crc8;
use enocean::enocean::{
    esp3_of_enocean_message, DataType, OptDataType, PacketType, ReturnCode, Rorg, ESP3,
};

#[test]
fn given_valid_a50401_enocean_message_then_return_esp_with_valid_header() {
    // received_message is a valid message from a temperature / Humidity sensor (EEP A5-04-01)
    let received_message = vec![
        85, 0, 10, 7, 1, 235, 165, 16, 8, 70, 128, 5, 17, 114, 247, 0, 1, 255, 255, 255, 255, 65,
        0, 235,
    ];
    let data_length: u16 = 10;
    let optionnal_length: u8 = 7;
    let packet_type = PacketType::RadioErp1;
    let result = esp3_of_enocean_message(&received_message).unwrap();
    assert_eq!(data_length, result.data_length);
    assert_eq!(optionnal_length, result.optional_data_length);
    assert_eq!(packet_type, result.packet_type);
}

#[test]
fn given_valid_f60201_enocean_message_then_return_esp_with_valid_header() {
    // received_message is a valid message from a necklace pushbutton (EEP F6-02-01)
    let received_message = vec![
        85, 0, 7, 7, 1, 122, 246, 0, 254, 245, 143, 212, 32, 2, 255, 255, 255, 255, 48, 0, 39,
    ];
    let data_length: u16 = 7;
    let optionnal_length: u8 = 7;
    let packet_type = PacketType::RadioErp1;
    let result = esp3_of_enocean_message(&received_message).unwrap();
    assert_eq!(data_length, result.data_length);
    assert_eq!(optionnal_length, result.optional_data_length);
    assert_eq!(packet_type, result.packet_type);
}

#[test]
fn given_valid_a50401_message_with_valid_header_then_return_esp_with_valid_crc_header() {
    let received_message = vec![
        85, 0, 7, 7, 1, 122, 246, 0, 254, 245, 143, 212, 32, 2, 255, 255, 255, 255, 48, 0, 39,
    ];
    let crc_header: u8 = 122;
    let result = esp3_of_enocean_message(&received_message).unwrap();
    assert_eq!(crc_header, result.crc_header);
}

#[test]
fn given_valid_f60201_message_with_valid_header_then_compute_crc_header() {
    // Here we test the CRC8H (crc8 computed on header).
    let received_message = vec![
        85, 0, 10, 7, 1, 235, 165, 16, 8, 70, 128, 5, 17, 114, 247, 0, 1, 255, 255, 255, 255, 65,
        0, 235,
    ];
    let result = compute_crc8(&received_message[1..5]);
    let crc_header: u8 = received_message[5];
    assert_eq!(result, crc_header);
}

#[test]
fn given_valid_f60201_enocean_message_then_return_corresponding_esp() {
    let received_message = vec![
        85, 0, 7, 7, 1, 122, 246, 0, 254, 245, 143, 212, 32, 2, 255, 255, 255, 255, 48, 0, 39,
    ];
    let data_length: u16 = 7;
    let optional_data_length: u8 = 7;
    let packet_type = PacketType::RadioErp1;
    let crc_header: u8 = 122;
    let crc_data: u8 = 39;
    let data: DataType;
    data = DataType::Erp1Data {
        rorg: Rorg::Rps,
        sender_id: [254, 245, 143, 212],
        status: 32,
        payload: [0].to_vec(),
    };

    let opt_data = Some(OptDataType::Erp1OptData {
        subtel_num: 2,
        destination_id: [255, 255, 255, 255],
        rssi: 48,
        security_lvl: 0,
    });
    let esp_packet = ESP3 {
        data_length,
        optional_data_length,
        packet_type,
        data,
        opt_data,
        crc_header,
        crc_data,
    };
    let result = esp3_of_enocean_message(&received_message).unwrap();
    assert_eq!(esp_packet, result);
}

#[test]
fn given_invalid_encoean_message_with_invalid_crc_data_then_return_error() {
    let invalid_received_message = vec![
        85, 0, 7, 7, 1, 122, 246, 0, 254, 245, 143, 212, 32, 2, 255, 255, 255, 255, 48, 0, 000,
    ];
    assert_eq!(
        esp3_of_enocean_message(&invalid_received_message)
            .unwrap_err()
            .message,
        String::from("CRC Data Error")
    );
}

#[test]
fn given_invalid_a50401_enocean_message_with_no_sync_byte_then_return_error() {
    let invalid_received_message = vec![
        54, 0, 10, 7, 1, 235, 165, 16, 8, 70, 128, 5, 17, 114, 247, 0, 1, 255, 255, 255, 255, 65,
        0, 235,
    ];
    assert_eq!(
        esp3_of_enocean_message(&invalid_received_message)
            .unwrap_err()
            .message,
        String::from("Sync Byte Error")
    );
}

#[test]
fn given_invalid_enocean_message_with_invalid_crcheader_then_return_error() {
    let invalid_received_message = vec![
        85, 0, 7, 7, 1, 000, 246, 0, 254, 245, 143, 212, 32, 2, 255, 255, 255, 255, 48, 0, 39,
    ];
    assert_eq!(
        esp3_of_enocean_message(&invalid_received_message)
            .unwrap_err()
            .message,
        String::from("CRC Error")
    );
}

#[test]
fn given_incomplete_encoean_message_then_return_invalid_input_error() {
    let invalid_received_message = vec![85, 0, 7, 7, 1];
    assert_eq!(
        esp3_of_enocean_message(&invalid_received_message)
            .unwrap_err()
            .message,
        String::from("Invalid input message")
    );
}

#[test]
fn given_valid_a50401_enocean_message_then_return_corresponding_esp() {
    let received_message = vec![
        85, 0, 10, 7, 1, 235, 165, 0, 229, 204, 10, 5, 17, 114, 247, 0, 1, 255, 255, 255, 255, 54,
        0, 213,
    ];
    let esp3_packet: ESP3 = esp3_of_enocean_message(&received_message).unwrap();
    let valid_sender_id: [u8; 4] = [5, 17, 114, 247];
    let valid_payload = vec![0, 229, 204, 10];
    let valid_rorg = Rorg::Bs4;
    let valid_status = 0x00;

    let result_sender_id: [u8; 4];
    let result_rorg: Rorg;
    let result_status: u8;
    let result_payload: Vec<u8>;

    match esp3_packet.data {
        DataType::Erp1Data {
            rorg,
            sender_id,
            status,
            payload,
        } => {
            result_sender_id = sender_id;
            result_rorg = rorg;
            result_status = status;
            result_payload = payload;
        }
        _ => {
            result_sender_id = [0, 1, 2, 3];
            result_rorg = Rorg::Undefined(0xFF);
            result_status = 0xFF;
            result_payload = vec![0];
        }
    }
    assert_eq!(result_sender_id, valid_sender_id);
    assert_eq!(result_payload, valid_payload);
    assert_eq!(result_rorg, valid_rorg);
    assert_eq!(result_status, valid_status);
}

#[test]
fn given_valid_response_packet_then_return_corresponding_esp() {
    let header: Vec<u8> = vec![0, 01, 0, 2];
    let crc_header = compute_crc8(&header);
    let data: Vec<u8> = vec![0];
    let crc_data = compute_crc8(&data);

    let mut received_message: Vec<u8> = vec![0x55];
    received_message.extend_from_slice(&header);
    received_message.push(crc_header);
    received_message.extend_from_slice(&data);
    received_message.push(crc_data);

    let esp3_packet: ESP3 = esp3_of_enocean_message(&received_message[..]).unwrap();

    let result_return_code: ReturnCode;
    let result_payload: Option<Vec<u8>>;

    match esp3_packet.data {
        DataType::ResponseData {
            response_payload,
            return_code,
        } => {
            result_return_code = return_code;
            result_payload = response_payload;
        }
        _ => {
            result_return_code = ReturnCode::Undefined(0xFF);
            result_payload = Some(vec![0, 1, 2, 3]);
        }
    }
    assert_eq!(result_return_code, ReturnCode::RetOk);
    assert_eq!(result_payload.is_none(), true);
}
