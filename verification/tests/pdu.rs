use bytes::Bytes;
use xchannel::pdu::{
    DecodeError, Exception, ExceptionResponse, Request, RequestPdu, Response, ResponsePdu,
};

fn encoded(request: Request<'_>) -> Vec<u8> {
    assert!(request.is_wf());
    request.to_bytes().to_vec()
}

#[test]
fn read_requests_are_code_address_quantity() {
    assert_eq!(encoded(Request::ReadCoils(0x1234, 0x0010)), vec![0x01, 0x12, 0x34, 0x00, 0x10]);
    assert_eq!(encoded(Request::ReadDiscreteInputs(1, 2)), vec![0x02, 0, 1, 0, 2]);
    assert_eq!(encoded(Request::ReadHoldingRegisters(0xFFFF, 125)), vec![0x03, 0xFF, 0xFF, 0, 125]);
    assert_eq!(encoded(Request::ReadInputRegisters(0x0100, 0x0201)), vec![0x04, 1, 0, 2, 1]);
}

#[test]
fn single_writes_are_code_address_value() {
    assert_eq!(encoded(Request::WriteSingleCoil(1, true)), vec![0x05, 0, 1, 0xFF, 0x00]);
    assert_eq!(encoded(Request::WriteSingleCoil(1, false)), vec![0x05, 0, 1, 0x00, 0x00]);
    assert_eq!(encoded(Request::WriteSingleRegister(2, 0xABCD)), vec![0x06, 0, 2, 0xAB, 0xCD]);
}

#[test]
fn write_multiple_coils_packs_the_bits() {
    let coils = [true, false, true, true, false, false, false, false, true];
    assert_eq!(
        encoded(Request::WriteMultipleCoils(3, &coils)),
        vec![0x0F, 0, 3, 0, 9, 2, 0b0000_1101, 0b0000_0001]
    );
    assert_eq!(encoded(Request::WriteMultipleCoils(3, &[])), vec![0x0F, 0, 3, 0, 0, 0]);
}

#[test]
fn write_multiple_registers_is_big_endian() {
    let words = [0x0102, 0x0304];
    assert_eq!(
        encoded(Request::WriteMultipleRegisters(4, &words)),
        vec![0x10, 0, 4, 0, 2, 4, 1, 2, 3, 4]
    );
    assert_eq!(encoded(Request::WriteMultipleRegisters(4, &[])), vec![0x10, 0, 4, 0, 0, 0]);
}

#[test]
fn largest_writes_fit_the_byte_count() {
    let coils = vec![true; 2040];
    let bytes = encoded(Request::WriteMultipleCoils(0, &coils));
    assert_eq!(bytes.len(), 6 + 255);
    assert_eq!(&bytes[..6], &[0x0F, 0, 0, 0x07, 0xF8, 255]);
    assert!(bytes[6..].iter().all(|b| *b == 0xFF));

    let words = vec![0xBEEF; 127];
    let bytes = encoded(Request::WriteMultipleRegisters(0, &words));
    assert_eq!(bytes.len(), 6 + 254);
    assert_eq!(&bytes[..6], &[0x10, 0, 0, 0, 127, 254]);
    assert_eq!(&bytes[258..], &[0xBE, 0xEF]);
}

#[test]
fn oversized_writes_are_not_well_formed() {
    let coils = vec![false; 2041];
    assert!(!Request::WriteMultipleCoils(0, &coils).is_wf());
    let words = vec![0u16; 128];
    assert!(!Request::WriteMultipleRegisters(0, &words).is_wf());
    assert!(Request::ReadCoils(0, 0xFFFF).is_wf());
}

#[test]
fn request_codes() {
    assert_eq!(Request::ReadCoils(0, 0).code(), 0x01);
    assert_eq!(Request::ReadDiscreteInputs(0, 0).code(), 0x02);
    assert_eq!(Request::ReadHoldingRegisters(0, 0).code(), 0x03);
    assert_eq!(Request::ReadInputRegisters(0, 0).code(), 0x04);
    assert_eq!(Request::WriteSingleCoil(0, true).code(), 0x05);
    assert_eq!(Request::WriteSingleRegister(0, 0).code(), 0x06);
    assert_eq!(Request::WriteMultipleCoils(0, &[]).code(), 0x0F);
    assert_eq!(Request::WriteMultipleRegisters(0, &[]).code(), 0x10);
}

#[test]
fn request_sizes() {
    assert_eq!(Request::ReadCoils(0, 0).req_size(), 5);
    assert_eq!(Request::WriteSingleRegister(0, 0).req_size(), 5);
    assert_eq!(Request::WriteMultipleCoils(0, &[true, false, true]).req_size(), 9);
    assert_eq!(Request::WriteMultipleRegisters(0, &[1, 2]).req_size(), 8);
}

#[test]
fn request_pdu_encodes_its_request() {
    let pdu = RequestPdu(Request::ReadCoils(7, 8));
    assert_eq!(pdu.to_bytes().to_vec(), vec![0x01, 0, 7, 0, 8]);
}

#[test]
fn decode_read_coils_unpacks_every_bit_of_the_bytes() {
    assert_eq!(
        Response::decode(&[0x01, 1, 0b0000_0101]),
        Ok(Response::ReadCoils(vec![true, false, true, false, false, false, false, false]))
    );
    let two = Response::decode(&[0x02, 2, 0x01, 0x80]).unwrap();
    let mut bits = vec![false; 16];
    bits[0] = true;
    bits[15] = true;
    assert_eq!(two, Response::ReadDiscreteInputs(bits));
    assert_eq!(Response::decode(&[0x01, 0]), Ok(Response::ReadCoils(vec![])));
}

#[test]
fn decode_read_registers() {
    assert_eq!(
        Response::decode(&[0x03, 4, 0x00, 0x01, 0xAB, 0xCD]),
        Ok(Response::ReadHoldingRegisters(vec![1, 0xABCD]))
    );
    assert_eq!(Response::decode(&[0x04, 2, 0x12, 0x34]), Ok(Response::ReadInputRegisters(vec![0x1234])));
    assert_eq!(Response::decode(&[0x04, 0]), Ok(Response::ReadInputRegisters(vec![])));
}

#[test]
fn decode_read_registers_drops_an_odd_last_byte() {
    assert_eq!(Response::decode(&[0x03, 3, 0x00, 0x01, 0xFF]), Ok(Response::ReadHoldingRegisters(vec![1])));
}

#[test]
fn decode_write_acknowledgements() {
    assert_eq!(Response::decode(&[0x05, 0, 1, 0xFF, 0x00]), Ok(Response::WriteSingleCoil(1, true)));
    assert_eq!(Response::decode(&[0x05, 0, 1, 0x00, 0x00]), Ok(Response::WriteSingleCoil(1, false)));
    assert_eq!(Response::decode(&[0x06, 0, 2, 0xAB, 0xCD]), Ok(Response::WriteSingleRegister(2, 0xABCD)));
    assert_eq!(Response::decode(&[0x0F, 0, 3, 0, 9]), Ok(Response::WriteMultipleCoils(3, 9)));
    assert_eq!(Response::decode(&[0x10, 0x01, 0x00, 0, 2]), Ok(Response::WriteMultipleRegisters(256, 2)));
}

#[test]
fn decode_passes_over_bytes_after_the_unit() {
    assert_eq!(Response::decode(&[0x06, 0, 2, 0, 3, 9, 9]), Ok(Response::WriteSingleRegister(2, 3)));
}

#[test]
fn decode_unknown_function_is_an_error() {
    assert_eq!(Response::decode(&[0x07, 0, 0]), Err(DecodeError::InvalidFunction(0x07)));
    assert_eq!(Response::decode(&[0x00]), Err(DecodeError::InvalidFunction(0x00)));
    assert_eq!(Response::decode(&[0x83, 0x02]), Err(DecodeError::InvalidFunction(0x83)));
    assert_eq!(ResponsePdu::decode(&[0x7F, 0x02]), Err(DecodeError::InvalidFunction(0x7F)));
}

#[test]
fn decode_short_input_is_an_error() {
    assert_eq!(Response::decode(&[]), Err(DecodeError::UnexpectedEof));
    assert_eq!(Response::decode(&[0x01]), Err(DecodeError::UnexpectedEof));
    assert_eq!(Response::decode(&[0x01, 2, 0xFF]), Err(DecodeError::UnexpectedEof));
    assert_eq!(Response::decode(&[0x03, 4, 0, 1]), Err(DecodeError::UnexpectedEof));
    assert_eq!(Response::decode(&[0x03, 4, 0, 1, 0]), Err(DecodeError::UnexpectedEof));
    assert_eq!(Response::decode(&[0x05, 0, 1, 0xFF]), Err(DecodeError::UnexpectedEof));
    assert_eq!(ResponsePdu::decode(&[]), Err(DecodeError::UnexpectedEof));
    assert_eq!(ResponsePdu::decode(&[0x83]), Err(DecodeError::UnexpectedEof));
    assert_eq!(ExceptionResponse::decode(&[]), Err(DecodeError::UnexpectedEof));
}

#[test]
fn exception_code_0x83_0x02_decodes_to_illegal_data_address() {
    assert_eq!(
        ResponsePdu::decode(&[0x83, 0x02]),
        Ok(ResponsePdu(Err(ExceptionResponse {
            function: 0x03,
            exception: Exception::IllegalDataAddress
        })))
    );
    assert_eq!(
        ExceptionResponse::decode(&[0x83, 0x02]),
        Ok(ExceptionResponse { function: 0x03, exception: Exception::IllegalDataAddress })
    );
}

#[test]
fn every_exception_round_trips_through_its_code() {
    let all = [
        (Exception::IllegalFunction, 0x01),
        (Exception::IllegalDataAddress, 0x02),
        (Exception::IllegalDataValue, 0x03),
        (Exception::ServerDeviceFailure, 0x04),
        (Exception::Acknowledge, 0x05),
        (Exception::ServerDeviceBusy, 0x06),
        (Exception::MemoryParityError, 0x08),
        (Exception::GateWayPathUnavailable, 0x0A),
        (Exception::GatewayTargetDevice, 0x0B),
    ];
    for (exception, code) in all {
        assert_eq!(exception.code(), code);
        assert_eq!(Exception::try_from_code(code), Ok(exception));
        for function in [0x01u8, 0x10, 0x7F] {
            assert_eq!(
                ResponsePdu::decode(&[function + 0x80, code, 0xEE]),
                Ok(ResponsePdu(Err(ExceptionResponse { function, exception })))
            );
        }
    }
}

#[test]
fn unknown_exception_codes_are_errors() {
    for code in [0x00u8, 0x07, 0x09, 0x0C, 0xFF] {
        assert_eq!(Exception::try_from_code(code), Err(DecodeError::InvalidException(code)));
        assert_eq!(ResponsePdu::decode(&[0x81, code]), Err(DecodeError::InvalidException(code)));
    }
}

#[test]
fn a_response_is_no_exception() {
    assert_eq!(ExceptionResponse::decode(&[0x03, 0x02]), Err(DecodeError::InvalidException(0x03)));
}

#[test]
fn pdu_decode_gives_responses_below_0x80() {
    assert_eq!(
        ResponsePdu::decode(&[0x06, 0, 2, 0, 3]),
        Ok(ResponsePdu(Ok(Response::WriteSingleRegister(2, 3))))
    );
}

#[test]
fn decoding_from_a_buffer_reads_its_bytes() {
    assert_eq!(
        Response::try_from_bytes(Bytes::from(vec![0x04, 2, 0x12, 0x34])),
        Ok(Response::ReadInputRegisters(vec![0x1234]))
    );
    assert_eq!(
        ExceptionResponse::try_from_bytes(Bytes::from(vec![0x90, 0x0B])),
        Ok(ExceptionResponse { function: 0x10, exception: Exception::GatewayTargetDevice })
    );
    assert_eq!(
        ResponsePdu::try_from_bytes(Bytes::from(vec![0x01, 1, 3])),
        Ok(ResponsePdu(Ok(Response::ReadCoils(vec![
            true, true, false, false, false, false, false, false
        ]))))
    );
    assert_eq!(ResponsePdu::try_from_bytes(Bytes::new()), Err(DecodeError::UnexpectedEof));
}

#[test]
fn exception_descriptions() {
    assert_eq!(Exception::IllegalFunction.description(), "Illegal function");
    assert_eq!(Exception::IllegalDataAddress.description(), "Illegal data address");
    assert_eq!(Exception::IllegalDataValue.description(), "Illegal data value");
    assert_eq!(Exception::ServerDeviceFailure.description(), "Server device failure");
    assert_eq!(Exception::Acknowledge.description(), "Acknowledge");
    assert_eq!(Exception::ServerDeviceBusy.description(), "Server device busy");
    assert_eq!(Exception::MemoryParityError.description(), "Memory parity error");
    assert_eq!(Exception::GateWayPathUnavailable.description(), "Gate way path unavailable");
    assert_eq!(
        Exception::GatewayTargetDevice.description(),
        "Gateway target device failed to respond"
    );
}

#[test]
fn a_refusal_reports_function_and_description() {
    let refusal = ExceptionResponse { function: 3, exception: Exception::IllegalDataAddress };
    assert_eq!(refusal.message(), "Modbus function 3: Illegal data address");
    let refusal = ExceptionResponse { function: 127, exception: Exception::Acknowledge };
    assert_eq!(refusal.message(), "Modbus function 127: Acknowledge");
    let refusal = ExceptionResponse { function: 0, exception: Exception::GatewayTargetDevice };
    assert_eq!(refusal.message(), "Modbus function 0: Gateway target device failed to respond");
}
