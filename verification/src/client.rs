//! The decisions of a client that has one request in flight at a time.
//!
//! The transport is outside this crate. A caller asks for the frame of the
//! next request, sends it, waits for one answer, and hands the answer back to
//! be judged.

use vstd::prelude::*;
use crate::pdu::{ExceptionResponse, Request, RequestPdu, Response, ResponsePdu, ResponseView};
use crate::tcp::{Header, RequestAdu, ResponseAdu};

verus! {

/// Why a call did not give what was asked for.
#[derive(Debug, Copy, Clone, PartialEq, Eq, Structural)]
pub enum ClientError {
    /// The server refused the request.
    Exception(ExceptionResponse),
    /// The answer is of another function than the request.
    UnexpectedResponse,
    /// The answer does not echo the request, or has another length than asked for.
    InvalidResponse,
}

/// The state of a client between calls: the id of its next transaction.
#[derive(Debug)]
pub struct Transactions {
    next: u16,
}

/// The id after `id`; the last id is followed by zero.
pub open spec fn spec_next_id(id: u16) -> u16 {
    if id == u16::MAX { 0u16 } else { (id + 1) as u16 }
}

impl Transactions {
    /// The id that the next transaction gets.
    pub closed spec fn upcoming(self) -> u16 {
        self.next
    }

    /// A client that has made no call: its first transaction has id zero.
    pub fn new() -> (t: Transactions)
        ensures
            t.upcoming() == 0,
    {
        Transactions { next: 0 }
    }

    /// Hands out the id of the next transaction and moves on to the one after.
    pub fn next_transaction_id(&mut self) -> (id: u16)
        ensures
            id == old(self).upcoming(),
            final(self).upcoming() == spec_next_id(old(self).upcoming()),
    {
        let id: u16 = self.next;
        self.next = id.wrapping_add(1);
        id
    }

    /// The next request on its way to a slave, under a fresh transaction id.
    pub fn next_request_adu<'a>(&mut self, slave_id: u8, request: Request<'a>) -> (adu: RequestAdu<
        'a,
    >)
        ensures
            adu.header == (Header { transaction_id: old(self).upcoming(), unit_id: slave_id }),
            adu.pdu.0 == request,
            final(self).upcoming() == spec_next_id(old(self).upcoming()),
    {
        let header = Header { transaction_id: self.next_transaction_id(), unit_id: slave_id };
        RequestAdu { header, pdu: RequestPdu(request) }
    }
}

/// What a call returns for each answer: the response, or the refusal as an error.
pub open spec fn spec_call_result(answer: Result<ResponseView, ExceptionResponse>) -> Result<
    ResponseView,
    ClientError,
> {
    match answer {
        Ok(v) => Ok(v),
        Err(refusal) => Err(ClientError::Exception(refusal)),
    }
}

/// The view of an answer.
pub open spec fn answer_view(pdu: ResponsePdu) -> Result<ResponseView, ExceptionResponse> {
    match pdu.0 {
        Ok(response) => Ok(response@),
        Err(refusal) => Err(refusal),
    }
}

/// Ends a call with the answer that came in.
pub fn complete_call(answer: ResponseAdu) -> (r: Result<Response, ClientError>)
    ensures
        match spec_call_result(answer_view(answer.pdu)) {
            Ok(v) => r is Ok && r->Ok_0@ == v,
            Err(e) => r is Err && r->Err_0 == e,
        },
{
    match answer.pdu.0 {
        Ok(response) => Ok(response),
        Err(refusal) => Err(ClientError::Exception(refusal)),
    }
}

/// The bits asked for, out of the bits that came: the first `quantity` of
/// them, and an error where fewer came.
pub open spec fn spec_bits(coils: Seq<bool>, quantity: u16) -> Result<Seq<bool>, ClientError> {
    if coils.len() < quantity {
        Err(ClientError::InvalidResponse)
    } else {
        Ok(coils.take(quantity as int))
    }
}

/// The registers asked for: those that came, where they are as many as asked for.
pub open spec fn spec_words(words: Seq<u16>, quantity: u16) -> Result<Seq<u16>, ClientError> {
    if words.len() != quantity {
        Err(ClientError::InvalidResponse)
    } else {
        Ok(words)
    }
}

/// Whether a write was acknowledged: the answer must echo what was written.
pub open spec fn spec_echo(matches: bool) -> Result<(), ClientError> {
    if matches {
        Ok(())
    } else {
        Err(ClientError::InvalidResponse)
    }
}

/// Whether a result holding a vector is the expected one.
pub open spec fn seq_result_matches<T>(
    r: Result<Vec<T>, ClientError>,
    expected: Result<Seq<T>, ClientError>,
) -> bool {
    match expected {
        Ok(s) => r is Ok && r->Ok_0@ == s,
        Err(e) => r is Err && r->Err_0 == e,
    }
}

fn first_bits(coils: Vec<bool>, quantity: u16) -> (r: Result<Vec<bool>, ClientError>)
    ensures
        seq_result_matches(r, spec_bits(coils@, quantity)),
{
    let ghost came = coils@;
    let mut coils = coils;
    if coils.len() < quantity as usize {
        return Err(ClientError::InvalidResponse);
    }
    coils.truncate(quantity as usize);
    proof {
        assert(coils@ =~= came.take(quantity as int));
    }
    Ok(coils)
}

/// The coils read, out of the answer to a request for `quantity` coils.
pub fn check_read_coils(rsp: Response, quantity: u16) -> (r: Result<Vec<bool>, ClientError>)
    ensures
        seq_result_matches(
            r,
            match rsp@ {
                ResponseView::ReadCoils(coils) => spec_bits(coils, quantity),
                _ => Err(ClientError::UnexpectedResponse),
            },
        ),
{
    match rsp {
        Response::ReadCoils(coils) => first_bits(coils, quantity),
        _ => Err(ClientError::UnexpectedResponse),
    }
}

/// The inputs read, out of the answer to a request for `quantity` discrete inputs.
pub fn check_read_discrete_inputs(rsp: Response, quantity: u16) -> (r: Result<
    Vec<bool>,
    ClientError,
>)
    ensures
        seq_result_matches(
            r,
            match rsp@ {
                ResponseView::ReadDiscreteInputs(coils) => spec_bits(coils, quantity),
                _ => Err(ClientError::UnexpectedResponse),
            },
        ),
{
    match rsp {
        Response::ReadDiscreteInputs(coils) => first_bits(coils, quantity),
        _ => Err(ClientError::UnexpectedResponse),
    }
}

/// The registers read, out of the answer to a request for `quantity` input registers.
pub fn check_read_input_registers(rsp: Response, quantity: u16) -> (r: Result<
    Vec<u16>,
    ClientError,
>)
    ensures
        seq_result_matches(
            r,
            match rsp@ {
                ResponseView::ReadInputRegisters(words) => spec_words(words, quantity),
                _ => Err(ClientError::UnexpectedResponse),
            },
        ),
{
    match rsp {
        Response::ReadInputRegisters(words) => {
            if words.len() != quantity as usize {
                return Err(ClientError::InvalidResponse);
            }
            Ok(words)
        },
        _ => Err(ClientError::UnexpectedResponse),
    }
}

/// The registers read, out of the answer to a request for `quantity` holding registers.
pub fn check_read_hold_registers(rsp: Response, quantity: u16) -> (r: Result<
    Vec<u16>,
    ClientError,
>)
    ensures
        seq_result_matches(
            r,
            match rsp@ {
                ResponseView::ReadHoldingRegisters(words) => spec_words(words, quantity),
                _ => Err(ClientError::UnexpectedResponse),
            },
        ),
{
    match rsp {
        Response::ReadHoldingRegisters(words) => {
            if words.len() != quantity as usize {
                return Err(ClientError::InvalidResponse);
            }
            Ok(words)
        },
        _ => Err(ClientError::UnexpectedResponse),
    }
}

/// Judges the answer to the write of one coil.
pub fn check_write_single_coil(rsp: Response, address: u16, value: bool) -> (r: Result<
    (),
    ClientError,
>)
    ensures
        r == (match rsp@ {
            ResponseView::WriteSingleCoil(a, v) => spec_echo(a == address && v == value),
            _ => Err(ClientError::UnexpectedResponse),
        }),
{
    match rsp {
        Response::WriteSingleCoil(rsp_addr, rsp_coil) => {
            if rsp_addr != address || rsp_coil != value {
                return Err(ClientError::InvalidResponse);
            }
            Ok(())
        },
        _ => Err(ClientError::UnexpectedResponse),
    }
}

/// Judges the answer to the write of one register.
pub fn check_write_single_register(rsp: Response, address: u16, data: u16) -> (r: Result<
    (),
    ClientError,
>)
    ensures
        r == (match rsp@ {
            ResponseView::WriteSingleRegister(a, v) => spec_echo(a == address && v == data),
            _ => Err(ClientError::UnexpectedResponse),
        }),
{
    match rsp {
        Response::WriteSingleRegister(rsp_addr, rsp_word) => {
            if rsp_addr != address || rsp_word != data {
                return Err(ClientError::InvalidResponse);
            }
            Ok(())
        },
        _ => Err(ClientError::UnexpectedResponse),
    }
}

/// Judges the answer to the write of `count` coils.
pub fn check_write_multiple_coils(rsp: Response, address: u16, count: usize) -> (r: Result<
    (),
    ClientError,
>)
    ensures
        r == (match rsp@ {
            ResponseView::WriteMultipleCoils(a, n) => spec_echo(a == address && n == count),
            _ => Err(ClientError::UnexpectedResponse),
        }),
{
    match rsp {
        Response::WriteMultipleCoils(rsp_addr, rsp_cnt) => {
            if rsp_addr != address || count != rsp_cnt as usize {
                return Err(ClientError::InvalidResponse);
            }
            Ok(())
        },
        _ => Err(ClientError::UnexpectedResponse),
    }
}

/// Judges the answer to the write of `count` registers.
pub fn check_write_multiple_registers(rsp: Response, address: u16, count: usize) -> (r: Result<
    (),
    ClientError,
>)
    ensures
        r == (match rsp@ {
            ResponseView::WriteMultipleRegisters(a, n) => spec_echo(a == address && n == count),
            _ => Err(ClientError::UnexpectedResponse),
        }),
{
    match rsp {
        Response::WriteMultipleRegisters(rsp_addr, rsp_cnt) => {
            if rsp_addr != address || count != rsp_cnt as usize {
                return Err(ClientError::InvalidResponse);
            }
            Ok(())
        },
        _ => Err(ClientError::UnexpectedResponse),
    }
}

} // verus!
