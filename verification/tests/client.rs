use xchannel::client::{
    check_read_coils, check_read_discrete_inputs, check_read_hold_registers,
    check_read_input_registers, check_write_multiple_coils, check_write_multiple_registers,
    check_write_single_coil, check_write_single_register, complete_call, ClientError,
    Transactions,
};
use xchannel::pdu::{Exception, ExceptionResponse, Request, RequestPdu, Response, ResponsePdu};
use xchannel::tcp::{Header, ResponseAdu};

#[test]
fn transaction_ids_count_up_from_zero() {
    let mut t = Transactions::new();
    assert_eq!(t.next_transaction_id(), 0);
    assert_eq!(t.next_transaction_id(), 1);
    assert_eq!(t.next_transaction_id(), 2);
}

#[test]
fn transaction_ids_wrap_to_zero() {
    let mut t = Transactions::new();
    for expected in 0..=0xFFFFu32 {
        assert_eq!(t.next_transaction_id() as u32, expected);
    }
    assert_eq!(t.next_transaction_id(), 0);
    assert_eq!(t.next_transaction_id(), 1);
}

#[test]
fn request_adu_takes_the_next_id_and_the_slave() {
    let mut t = Transactions::new();
    let first = t.next_request_adu(9, Request::ReadCoils(1, 2));
    assert_eq!(first.header, Header { transaction_id: 0, unit_id: 9 });
    assert_eq!(first.pdu, RequestPdu(Request::ReadCoils(1, 2)));
    let second = t.next_request_adu(10, Request::WriteSingleCoil(3, true));
    assert_eq!(second.header, Header { transaction_id: 1, unit_id: 10 });
    assert_eq!(second.pdu.0, Request::WriteSingleCoil(3, true));
}

fn answer(pdu: ResponsePdu) -> ResponseAdu {
    ResponseAdu { header: Header { transaction_id: 0, unit_id: 1 }, pdu }
}

#[test]
fn a_response_completes_the_call() {
    let got = complete_call(answer(ResponsePdu(Ok(Response::WriteSingleRegister(1, 2)))));
    assert_eq!(got, Ok(Response::WriteSingleRegister(1, 2)));
}

#[test]
fn a_refusal_fails_the_call_with_the_exception() {
    let refusal = ExceptionResponse { function: 3, exception: Exception::ServerDeviceBusy };
    let got = complete_call(answer(ResponsePdu(Err(refusal))));
    assert_eq!(got, Err(ClientError::Exception(refusal)));
}

#[test]
fn read_coils_keeps_the_bits_asked_for() {
    let came = vec![true, false, true, false, false, false, false, false];
    assert_eq!(check_read_coils(Response::ReadCoils(came.clone()), 3), Ok(vec![true, false, true]));
    assert_eq!(check_read_coils(Response::ReadCoils(came.clone()), 8), Ok(came.clone()));
    assert_eq!(check_read_coils(Response::ReadCoils(came.clone()), 0), Ok(vec![]));
    assert_eq!(check_read_coils(Response::ReadCoils(came), 9), Err(ClientError::InvalidResponse));
    assert_eq!(
        check_read_coils(Response::ReadDiscreteInputs(vec![true]), 1),
        Err(ClientError::UnexpectedResponse)
    );
}

#[test]
fn read_discrete_inputs_keeps_the_bits_asked_for() {
    let came = vec![false, true, true, false, false, false, false, false];
    assert_eq!(
        check_read_discrete_inputs(Response::ReadDiscreteInputs(came.clone()), 2),
        Ok(vec![false, true])
    );
    assert_eq!(
        check_read_discrete_inputs(Response::ReadDiscreteInputs(came), 16),
        Err(ClientError::InvalidResponse)
    );
    assert_eq!(
        check_read_discrete_inputs(Response::ReadCoils(vec![true]), 1),
        Err(ClientError::UnexpectedResponse)
    );
}

#[test]
fn read_registers_must_come_in_the_number_asked_for() {
    assert_eq!(check_read_input_registers(Response::ReadInputRegisters(vec![1, 2]), 2), Ok(vec![1, 2]));
    assert_eq!(
        check_read_input_registers(Response::ReadInputRegisters(vec![1, 2]), 1),
        Err(ClientError::InvalidResponse)
    );
    assert_eq!(
        check_read_input_registers(Response::ReadInputRegisters(vec![1, 2]), 3),
        Err(ClientError::InvalidResponse)
    );
    assert_eq!(
        check_read_input_registers(Response::ReadHoldingRegisters(vec![1, 2]), 2),
        Err(ClientError::UnexpectedResponse)
    );
    assert_eq!(check_read_hold_registers(Response::ReadHoldingRegisters(vec![7]), 1), Ok(vec![7]));
    assert_eq!(check_read_hold_registers(Response::ReadHoldingRegisters(vec![]), 0), Ok(vec![]));
    assert_eq!(
        check_read_hold_registers(Response::ReadHoldingRegisters(vec![7]), 2),
        Err(ClientError::InvalidResponse)
    );
    assert_eq!(
        check_read_hold_registers(Response::ReadInputRegisters(vec![7]), 1),
        Err(ClientError::UnexpectedResponse)
    );
}

#[test]
fn single_writes_must_be_echoed() {
    assert_eq!(check_write_single_coil(Response::WriteSingleCoil(4, true), 4, true), Ok(()));
    assert_eq!(
        check_write_single_coil(Response::WriteSingleCoil(4, false), 4, true),
        Err(ClientError::InvalidResponse)
    );
    assert_eq!(
        check_write_single_coil(Response::WriteSingleCoil(5, true), 4, true),
        Err(ClientError::InvalidResponse)
    );
    assert_eq!(
        check_write_single_coil(Response::WriteSingleRegister(4, 1), 4, true),
        Err(ClientError::UnexpectedResponse)
    );
    assert_eq!(check_write_single_register(Response::WriteSingleRegister(4, 9), 4, 9), Ok(()));
    assert_eq!(
        check_write_single_register(Response::WriteSingleRegister(4, 8), 4, 9),
        Err(ClientError::InvalidResponse)
    );
    assert_eq!(
        check_write_single_register(Response::WriteSingleRegister(3, 9), 4, 9),
        Err(ClientError::InvalidResponse)
    );
    assert_eq!(
        check_write_single_register(Response::WriteSingleCoil(4, true), 4, 9),
        Err(ClientError::UnexpectedResponse)
    );
}

#[test]
fn multiple_writes_must_echo_address_and_count() {
    assert_eq!(check_write_multiple_coils(Response::WriteMultipleCoils(4, 9), 4, 9), Ok(()));
    assert_eq!(
        check_write_multiple_coils(Response::WriteMultipleCoils(4, 8), 4, 9),
        Err(ClientError::InvalidResponse)
    );
    assert_eq!(
        check_write_multiple_coils(Response::WriteMultipleCoils(5, 9), 4, 9),
        Err(ClientError::InvalidResponse)
    );
    assert_eq!(
        check_write_multiple_coils(Response::WriteMultipleCoils(4, 0), 4, 65536),
        Err(ClientError::InvalidResponse)
    );
    assert_eq!(
        check_write_multiple_coils(Response::WriteMultipleRegisters(4, 9), 4, 9),
        Err(ClientError::UnexpectedResponse)
    );
    assert_eq!(check_write_multiple_registers(Response::WriteMultipleRegisters(4, 2), 4, 2), Ok(()));
    assert_eq!(
        check_write_multiple_registers(Response::WriteMultipleRegisters(4, 3), 4, 2),
        Err(ClientError::InvalidResponse)
    );
    assert_eq!(
        check_write_multiple_registers(Response::WriteMultipleRegisters(0, 2), 4, 2),
        Err(ClientError::InvalidResponse)
    );
    assert_eq!(
        check_write_multiple_registers(Response::WriteMultipleCoils(4, 2), 4, 2),
        Err(ClientError::UnexpectedResponse)
    );
}
