//! Resolution of a textual tag address into a Modbus location.
//!
//! An address reads `<slave>.<area><register>` with an optional third field,
//! `.<bit>` or `.<length>`. The register is counted from 1, in decimal, or in
//! hexadecimal after an `H`: `1.401` and `1.H401` both name holding register 1
//! of slave 1.

use vstd::prelude::*;
use vstd::slice::slice_subrange;
use vstd::string::*;
use crate::error::{XError, XErrorKind};
use crate::tag::DeviceTag;
use crate::text::{
    find_dot, lemma_find_dot_bound, parse_number, spec_find_dot, spec_parse_number,
    spec_split_dots,
};
use crate::value::{Value, WidthClass};

verus! {

/// The four memory areas of the Modbus data model.
#[derive(Debug, Copy, Clone, PartialEq, Eq, Structural)]
pub enum Area {
    Coil,
    DiscreteInput,
    InputRegister,
    HoldingRegister,
}

/// A resolved location: `address` is the zero-based offset in the area,
/// `quantity` the number of registers (or bits) spanned, `bit` the bit offset
/// in the register of a boolean, `length` the byte length of a text or block.
#[derive(Debug, Copy, Clone, PartialEq, Eq, Structural)]
pub struct Address {
    pub slave: u8,
    pub area: Area,
    pub address: u16,
    pub quantity: u16,
    pub bit: u8,
    pub length: u16,
}

/// What is wrong with an address text.
#[derive(Debug, Copy, Clone, PartialEq, Eq, Structural)]
pub enum AddressFault {
    /// The text holds a character outside ASCII.
    NotAscii,
    /// The text does not have two or three fields, or the area field is too short.
    Format,
    /// The slave field is no number up to 255.
    SlaveId,
    /// The area digit is none of 0, 1, 3, 4.
    AreaCode,
    /// The decimal register number cannot be read.
    Register,
    /// The hexadecimal register number cannot be read.
    HexRegister,
    /// The register number is not between 1 and 65536.
    OutOfRange,
    /// The number of fields does not suit a boolean in this area.
    BitFormat,
    /// The bit field does not start with a digit.
    BitOffset,
    /// A text or block needs a third field with its length.
    LengthFormat,
    /// The length field is no number up to 65535.
    Length,
}

/// Which kind of value does not fit the area.
#[derive(Debug, Copy, Clone, PartialEq, Eq, Structural)]
pub enum TypeFault {
    /// A 16-bit value on a bit area.
    Word,
    /// A 32-bit value on a bit area.
    DoubleWord,
    /// A 64-bit value on a bit area.
    QuadWord,
    /// A text on a bit area.
    Text,
    /// A byte block on a bit area.
    Block,
    /// A value that has no place on a device at all.
    Value,
}

/// Why an address was not resolved.
#[derive(Debug, Copy, Clone, PartialEq, Eq, Structural)]
pub enum AddressError {
    InvalidAddress(AddressFault),
    UnsupportedType(TypeFault),
}

/// The words that explain an address fault.
pub open spec fn spec_fault_message(fault: AddressFault) -> Seq<char> {
    match fault {
        AddressFault::NotAscii => "address must be ASCII"@,
        AddressFault::Format =>
            "address must be in the format: <slave>.<address>.<length/bit><H/L>"@,
        AddressFault::SlaveId => "invalid slave id"@,
        AddressFault::AreaCode => "invalid area code"@,
        AddressFault::Register => "invalid address"@,
        AddressFault::HexRegister => "invalid hex address"@,
        AddressFault::OutOfRange => "address must be in the range: 1 - 65536"@,
        AddressFault::BitFormat => "address must be in the format: <slave>.<address>.<bit>"@,
        AddressFault::BitOffset => "need bit offset"@,
        AddressFault::LengthFormat =>
            "address must be in the format: <slave>.<address>.<length><H/L>"@,
        AddressFault::Length => "need string length"@,
    }
}

/// The words that explain a type fault.
pub open spec fn spec_type_message(fault: TypeFault) -> Seq<char> {
    match fault {
        TypeFault::Word => "unsupport INT16/UINT16/WORD for Coil/DiscreteInput"@,
        TypeFault::DoubleWord => "unsupport INT32/UINT32/FLOAT/DWORD for Coil/DiscreteInput"@,
        TypeFault::QuadWord => "unsupport INT64/UINT64/DOUBLE/LWORD for Coil/DiscreteInput"@,
        TypeFault::Text => "unsupport STRING for Coil/DiscreteInput"@,
        TypeFault::Block => "unsupport BYTES for Coil/DiscreteInput"@,
        TypeFault::Value => "invalid value type for Modbus"@,
    }
}

impl AddressError {
    /// The words that explain the error.
    pub open spec fn spec_message(self) -> Seq<char> {
        match self {
            AddressError::InvalidAddress(fault) => spec_fault_message(fault),
            AddressError::UnsupportedType(fault) => spec_type_message(fault),
        }
    }

    /// The words that explain the error. They inform; the variant is what a
    /// caller decides on.
    pub fn message(&self) -> (text: &'static str)
        ensures
            text@ == self.spec_message(),
    {
        match self {
            AddressError::InvalidAddress(fault) => match fault {
                AddressFault::NotAscii => "address must be ASCII",
                AddressFault::Format =>
                    "address must be in the format: <slave>.<address>.<length/bit><H/L>",
                AddressFault::SlaveId => "invalid slave id",
                AddressFault::AreaCode => "invalid area code",
                AddressFault::Register => "invalid address",
                AddressFault::HexRegister => "invalid hex address",
                AddressFault::OutOfRange => "address must be in the range: 1 - 65536",
                AddressFault::BitFormat => "address must be in the format: <slave>.<address>.<bit>",
                AddressFault::BitOffset => "need bit offset",
                AddressFault::LengthFormat =>
                    "address must be in the format: <slave>.<address>.<length><H/L>",
                AddressFault::Length => "need string length",
            },
            AddressError::UnsupportedType(fault) => match fault {
                TypeFault::Word => "unsupport INT16/UINT16/WORD for Coil/DiscreteInput",
                TypeFault::DoubleWord =>
                    "unsupport INT32/UINT32/FLOAT/DWORD for Coil/DiscreteInput",
                TypeFault::QuadWord =>
                    "unsupport INT64/UINT64/DOUBLE/LWORD for Coil/DiscreteInput",
                TypeFault::Text => "unsupport STRING for Coil/DiscreteInput",
                TypeFault::Block => "unsupport BYTES for Coil/DiscreteInput",
                TypeFault::Value => "invalid value type for Modbus",
            },
        }
    }

    /// The error as the gateway reports it: a tag error without an index.
    pub fn to_xerror(&self) -> (e: XError)
        ensures
            e.spec_kind() == XErrorKind::TagError,
            e.spec_index() == -1,
            e.text() == self.spec_message(),
    {
        XError::new(XErrorKind::TagError, self.message())
    }
}

pub const LETTER_H: u8 = 72u8;

/// The area that an area digit names.
pub open spec fn spec_area(code: u8) -> Option<Area> {
    if code == 48 {
        Some(Area::Coil)
    } else if code == 49 {
        Some(Area::DiscreteInput)
    } else if code == 51 {
        Some(Area::InputRegister)
    } else if code == 52 {
        Some(Area::HoldingRegister)
    } else {
        None
    }
}

/// Whether the area holds single bits rather than registers.
pub open spec fn is_bit_area(area: Area) -> bool {
    area == Area::Coil || area == Area::DiscreteInput
}

/// The area and the one-based register number that the second field names.
pub open spec fn spec_area_register(t: Seq<u8>) -> Result<(Area, nat), AddressError> {
    let hex = t.len() > 0 && t[0] == LETTER_H;
    let at: int = if hex { 1 } else { 0 };
    if t.len() <= at {
        Err(AddressError::InvalidAddress(AddressFault::Format))
    } else {
        match spec_area(t[at]) {
            None => Err(AddressError::InvalidAddress(AddressFault::AreaCode)),
            Some(area) => match spec_parse_number(
                t.skip(at + 1),
                if hex { 16 } else { 10 },
                u32::MAX as nat,
            ) {
                None => Err(
                    AddressError::InvalidAddress(
                        if hex { AddressFault::HexRegister } else { AddressFault::Register },
                    ),
                ),
                Some(n) => Ok((area, n)),
            },
        }
    }
}

/// The location of a value of the given width class at a one-based register of
/// an area. `extra` is the third field of the address, where it has one.
pub open spec fn spec_place(
    class: WidthClass,
    slave: u8,
    area: Area,
    register: nat,
    extra: Option<Seq<u8>>,
) -> Result<Address, AddressError> {
    let plain = Address {
        slave,
        area,
        address: (register - 1) as u16,
        quantity: 1,
        bit: 0,
        length: 0,
    };
    match class {
        WidthClass::Bit => if is_bit_area(area) {
            if extra is None {
                Ok(plain)
            } else {
                Err(AddressError::InvalidAddress(AddressFault::BitFormat))
            }
        } else {
            match extra {
                None => Err(AddressError::InvalidAddress(AddressFault::BitFormat)),
                Some(field) => if field.len() == 0 {
                    Err(AddressError::InvalidAddress(AddressFault::BitFormat))
                } else {
                    match spec_parse_number(field.take(1), 10, 255) {
                        None => Err(AddressError::InvalidAddress(AddressFault::BitOffset)),
                        Some(bit) => Ok(Address { bit: bit as u8, ..plain }),
                    }
                },
            }
        },
        WidthClass::Single => if is_bit_area(area) {
            Err(AddressError::UnsupportedType(TypeFault::Word))
        } else {
            Ok(plain)
        },
        WidthClass::Double => if is_bit_area(area) {
            Err(AddressError::UnsupportedType(TypeFault::DoubleWord))
        } else {
            Ok(Address { quantity: 2, ..plain })
        },
        WidthClass::Quad => if is_bit_area(area) {
            Err(AddressError::UnsupportedType(TypeFault::QuadWord))
        } else {
            Ok(Address { quantity: 4, ..plain })
        },
        WidthClass::Text | WidthClass::Block => if is_bit_area(area) {
            Err(
                AddressError::UnsupportedType(
                    if class == WidthClass::Text { TypeFault::Text } else { TypeFault::Block },
                ),
            )
        } else {
            match extra {
                None => Err(AddressError::InvalidAddress(AddressFault::LengthFormat)),
                Some(field) => match spec_parse_number(field, 10, 65535) {
                    None => Err(AddressError::InvalidAddress(AddressFault::Length)),
                    Some(length) => Ok(
                        Address { quantity: (length / 2) as u16, length: length as u16, ..plain },
                    ),
                },
            }
        },
        WidthClass::Unmapped => Err(AddressError::UnsupportedType(TypeFault::Value)),
    }
}

/// The location that an ASCII address text names for a value of the given
/// width class. The checks come in this order: the number of fields, the slave,
/// the area and register, the register's range, then the value against the area.
pub open spec fn spec_resolve_bytes(class: WidthClass, text: Seq<u8>) -> Result<
    Address,
    AddressError,
> {
    let fields = spec_split_dots(text);
    if fields.len() != 2 && fields.len() != 3 {
        Err(AddressError::InvalidAddress(AddressFault::Format))
    } else {
        match spec_parse_number(fields[0], 10, 255) {
            None => Err(AddressError::InvalidAddress(AddressFault::SlaveId)),
            Some(slave) => match spec_area_register(fields[1]) {
                Err(e) => Err(e),
                Ok((area, register)) => if 1 <= register <= 0x10000 {
                    spec_place(
                        class,
                        slave as u8,
                        area,
                        register,
                        if fields.len() == 3 { Some(fields[2]) } else { None },
                    )
                } else {
                    Err(AddressError::InvalidAddress(AddressFault::OutOfRange))
                },
            },
        }
    }
}

/// The bytes of an ASCII text.
pub open spec fn ascii_bytes(text: Seq<char>) -> Seq<u8> {
    Seq::new(text.len(), |i: int| text[i] as u8)
}

/// The location that an address text names for a value of the given width class.
pub open spec fn spec_resolve(class: WidthClass, text: Seq<char>) -> Result<
    Address,
    AddressError,
> {
    if vstd::utf8::is_ascii_chars(text) {
        spec_resolve_bytes(class, ascii_bytes(text))
    } else {
        Err(AddressError::InvalidAddress(AddressFault::NotAscii))
    }
}

impl Area {
    /// The area named by an area digit.
    pub fn from_code(code: u8) -> (r: Result<Area, AddressError>)
        ensures
            match spec_area(code) {
                Some(area) => r == Ok::<Area, AddressError>(area),
                None => r == Err::<Area, AddressError>(
                    AddressError::InvalidAddress(AddressFault::AreaCode),
                ),
            },
    {
        if code == 48 {
            Ok(Area::Coil)
        } else if code == 49 {
            Ok(Area::DiscreteInput)
        } else if code == 51 {
            Ok(Area::InputRegister)
        } else if code == 52 {
            Ok(Area::HoldingRegister)
        } else {
            Err(AddressError::InvalidAddress(AddressFault::AreaCode))
        }
    }

    /// Whether the area holds single bits rather than registers.
    pub fn is_bits(&self) -> (b: bool)
        ensures
            b == is_bit_area(*self),
    {
        match self {
            Area::Coil | Area::DiscreteInput => true,
            Area::InputRegister | Area::HoldingRegister => false,
        }
    }
}

/// Reads the area and the one-based register number out of the second field.
pub fn area_register(field: &[u8]) -> (r: Result<(Area, u32), AddressError>)
    ensures
        match spec_area_register(field@) {
            Ok((area, n)) => r == Ok::<(Area, u32), AddressError>((area, n as u32)) && n
                <= u32::MAX,
            Err(e) => r == Err::<(Area, u32), AddressError>(e),
        },
{
    let hex: bool = field.len() > 0 && field[0] == LETTER_H;
    let at: usize = if hex {
        1
    } else {
        0
    };
    if field.len() <= at {
        return Err(AddressError::InvalidAddress(AddressFault::Format));
    }
    let area = match Area::from_code(field[at]) {
        Ok(area) => area,
        Err(e) => {
            return Err(e);
        },
    };
    proof {
        assert(field@.skip(at + 1) =~= field@.subrange(at + 1, field.len() as int));
    }
    let radix: u32 = if hex {
        16
    } else {
        10
    };
    match parse_number(field, at + 1, field.len(), radix, u32::MAX) {
        Some(n) => Ok((area, n)),
        None => if hex {
            Err(AddressError::InvalidAddress(AddressFault::HexRegister))
        } else {
            Err(AddressError::InvalidAddress(AddressFault::Register))
        },
    }
}

impl Address {
    /// Places a value at a one-based register of an area. `extra` is the third
    /// field of the address text, where it has one.
    pub fn to(value: &Value, slave: u8, area: Area, address: u32, extra: Option<&[u8]>) -> (r:
        Result<Address, AddressError>)
        requires
            1 <= address <= 0x10000,
        ensures
            r == spec_place(
                value.spec_width_class(),
                slave,
                area,
                address as nat,
                match extra {
                    Some(field) => Some(field@),
                    None => None,
                },
            ),
    {
        let offset: u16 = (address - 1) as u16;
        let plain = Address { slave, area, address: offset, quantity: 1, bit: 0, length: 0 };
        match value.width_class() {
            WidthClass::Bit => {
                if area.is_bits() {
                    match extra {
                        None => Ok(plain),
                        Some(_) => Err(AddressError::InvalidAddress(AddressFault::BitFormat)),
                    }
                } else {
                    match extra {
                        None => Err(AddressError::InvalidAddress(AddressFault::BitFormat)),
                        Some(field) => {
                            if field.len() == 0 {
                                return Err(AddressError::InvalidAddress(AddressFault::BitFormat));
                            }
                            proof {
                                assert(field@.take(1) =~= field@.subrange(0, 1));
                            }
                            match parse_number(field, 0, 1, 10, 255) {
                                None => Err(AddressError::InvalidAddress(AddressFault::BitOffset)),
                                Some(bit) => Ok(
                                    Address {
                                        slave,
                                        area,
                                        address: offset,
                                        quantity: 1,
                                        bit: bit as u8,
                                        length: 0,
                                    },
                                ),
                            }
                        },
                    }
                }
            },
            WidthClass::Single => {
                if area.is_bits() {
                    Err(AddressError::UnsupportedType(TypeFault::Word))
                } else {
                    Ok(plain)
                }
            },
            WidthClass::Double => {
                if area.is_bits() {
                    Err(AddressError::UnsupportedType(TypeFault::DoubleWord))
                } else {
                    Ok(Address { slave, area, address: offset, quantity: 2, bit: 0, length: 0 })
                }
            },
            WidthClass::Quad => {
                if area.is_bits() {
                    Err(AddressError::UnsupportedType(TypeFault::QuadWord))
                } else {
                    Ok(Address { slave, area, address: offset, quantity: 4, bit: 0, length: 0 })
                }
            },
            WidthClass::Text => {
                if area.is_bits() {
                    Err(AddressError::UnsupportedType(TypeFault::Text))
                } else {
                    Address::sized(slave, area, offset, extra)
                }
            },
            WidthClass::Block => {
                if area.is_bits() {
                    Err(AddressError::UnsupportedType(TypeFault::Block))
                } else {
                    Address::sized(slave, area, offset, extra)
                }
            },
            WidthClass::Unmapped => Err(AddressError::UnsupportedType(TypeFault::Value)),
        }
    }

    /// The location of a text or block whose byte length the third field gives.
    /// Two bytes go to a register; an odd last byte is not counted.
    fn sized(slave: u8, area: Area, offset: u16, extra: Option<&[u8]>) -> (r: Result<
        Address,
        AddressError,
    >)
        ensures
            r == (match extra {
                None => Err::<Address, AddressError>(
                    AddressError::InvalidAddress(AddressFault::LengthFormat),
                ),
                Some(field) => match spec_parse_number(field@, 10, 65535) {
                    None => Err(AddressError::InvalidAddress(AddressFault::Length)),
                    Some(length) => Ok(
                        Address {
                            slave,
                            area,
                            address: offset,
                            quantity: (length / 2) as u16,
                            bit: 0,
                            length: length as u16,
                        },
                    ),
                },
            }),
    {
        match extra {
            None => Err(AddressError::InvalidAddress(AddressFault::LengthFormat)),
            Some(field) => {
                proof {
                    assert(field@.subrange(0, field.len() as int) =~= field@);
                }
                match parse_number(field, 0, field.len(), 10, 65535) {
                    None => Err(AddressError::InvalidAddress(AddressFault::Length)),
                    Some(n) => {
                        let length: u16 = n as u16;
                        Ok(
                            Address {
                                slave,
                                area,
                                address: offset,
                                quantity: length / 2,
                                bit: 0,
                                length,
                            },
                        )
                    },
                }
            },
        }
    }

    /// Resolves an ASCII address text, given as bytes, for a value.
    pub fn resolve_bytes(value: &Value, text: &[u8]) -> (r: Result<Address, AddressError>)
        ensures
            r == spec_resolve_bytes(value.spec_width_class(), text@),
    {
        let len: usize = text.len();
        let ghost whole = text@;
        let d0: usize = find_dot(text, 0);
        proof {
            assert(whole.skip(0) =~= whole);
        }
        if d0 == len {
            return Err(AddressError::InvalidAddress(AddressFault::Format));
        }
        let ghost rest1 = whole.skip(d0 + 1);
        let d1: usize = find_dot(text, d0 + 1);
        let ghost f0 = whole.take(d0 as int);
        proof {
            assert(spec_split_dots(whole) == seq![f0] + spec_split_dots(rest1));
            assert(f0 =~= whole.subrange(0, d0 as int));
        }
        let third: Option<&[u8]> = if d1 == len {
            proof {
                assert(spec_split_dots(rest1) == seq![rest1]);
                assert(spec_split_dots(whole) =~= seq![f0, rest1]);
                assert(rest1 =~= whole.subrange(d0 + 1, d1 as int));
            }
            None
        } else {
            let ghost f1 = rest1.take(d1 - d0 - 1);
            let ghost rest2 = rest1.skip(d1 - d0);
            let d2: usize = find_dot(text, d1 + 1);
            proof {
                assert(rest2 =~= whole.skip(d1 + 1));
                assert(spec_split_dots(rest1) == seq![f1] + spec_split_dots(rest2));
                assert(f1 =~= whole.subrange(d0 + 1, d1 as int));
            }
            if d2 != len {
                proof {
                    let rest3 = rest2.skip(d2 - d1);
                    assert(spec_split_dots(rest2) == seq![rest2.take(d2 - d1 - 1)]
                        + spec_split_dots(rest3));
                    lemma_split_dots_nonempty(rest3);
                    assert(spec_split_dots(whole).len() >= 4);
                }
                return Err(AddressError::InvalidAddress(AddressFault::Format));
            }
            proof {
                assert(spec_split_dots(rest2) == seq![rest2]);
                assert(spec_split_dots(whole) =~= seq![f0, f1, rest2]);
                assert(rest2 =~= whole.subrange(d1 + 1, len as int));
            }
            Some(slice_subrange(text, d1 + 1, len))
        };
        let slave: u8 = match parse_number(text, 0, d0, 10, 255) {
            Some(n) => n as u8,
            None => {
                return Err(AddressError::InvalidAddress(AddressFault::SlaveId));
            },
        };
        let (area, register) = match area_register(slice_subrange(text, d0 + 1, d1)) {
            Ok(pair) => pair,
            Err(e) => {
                return Err(e);
            },
        };
        if register > 0 && register <= 0x10000 {
            Address::to(value, slave, area, register, third)
        } else {
            Err(AddressError::InvalidAddress(AddressFault::OutOfRange))
        }
    }

    /// Resolves the address of a tag into its Modbus location.
    pub fn resolve(tag: &DeviceTag) -> (r: Result<Address, AddressError>)
        ensures
            r == spec_resolve(tag.value.spec_width_class(), tag.address@),
    {
        let text: &str = tag.address.as_str();
        if !text.is_ascii() {
            return Err(AddressError::InvalidAddress(AddressFault::NotAscii));
        }
        let bytes: &[u8] = text.as_bytes();
        proof {
            is_ascii_spec_bytes(text);
            assert(bytes@ =~= ascii_bytes(tag.address@));
        }
        Address::resolve_bytes(&tag.value, bytes)
    }
}

/// Whether an address text has two or three fields of which the first is a
/// slave id and the second opens with an area digit, after an `H` or without.
pub open spec fn names_area(text: Seq<u8>) -> bool {
    let fields = spec_split_dots(text);
    let area_at: int = if fields[1].len() > 0 && fields[1][0] == LETTER_H { 1 } else { 0 };
    &&& (fields.len() == 2 || fields.len() == 3)
    &&& spec_parse_number(fields[0], 10, 255) is Some
    &&& fields[1].len() > area_at
    &&& spec_area(fields[1][area_at]) is Some
}

/// The register number of an address counts from 1 to 65536. Where the text
/// names a slave and an area, a register number that cannot be read or lies
/// outside that range is refused as an invalid address, whatever the value; a
/// number inside it, the two ends included, goes on to be placed, and a boolean
/// in a bit area then lands on the offset one below the number.
pub proof fn lemma_register_range(class: WidthClass, text: Seq<u8>)
    requires
        names_area(text),
    ensures
        ({
            let fields = spec_split_dots(text);
            let slave = spec_parse_number(fields[0], 10, 255)->Some_0 as u8;
            let extra = if fields.len() == 3 { Some(fields[2]) } else { None };
            match spec_area_register(fields[1]) {
                Err(e) => e is InvalidAddress && spec_resolve_bytes(class, text) == Err::<
                    Address,
                    AddressError,
                >(e),
                Ok((area, register)) => {
                    &&& (register < 1 || register > 0x10000) ==> spec_resolve_bytes(class, text)
                        == Err::<Address, AddressError>(
                        AddressError::InvalidAddress(AddressFault::OutOfRange),
                    )
                    &&& 1 <= register <= 0x10000 ==> spec_resolve_bytes(class, text) == spec_place(
                        class,
                        slave,
                        area,
                        register,
                        extra,
                    )
                    &&& 1 <= register <= 0x10000 && class == WidthClass::Bit && is_bit_area(area)
                        && extra is None ==> spec_resolve_bytes(class, text) == Ok::<
                        Address,
                        AddressError,
                    >(
                        Address {
                            slave,
                            area,
                            address: (register - 1) as u16,
                            quantity: 1,
                            bit: 0,
                            length: 0,
                        },
                    )
                },
            }
        }),
{
}

/// A register written in hexadecimal after an `H` names the same area and
/// register as the same number written in decimal.
pub proof fn lemma_hex_names_the_same_register(code: u8, hex: Seq<u8>, decimal: Seq<u8>)
    requires
        spec_area(code) is Some,
        spec_parse_number(hex, 16, u32::MAX as nat) is Some,
        spec_parse_number(hex, 16, u32::MAX as nat) == spec_parse_number(
            decimal,
            10,
            u32::MAX as nat,
        ),
    ensures
        spec_area_register(seq![LETTER_H, code] + hex) == spec_area_register(seq![code] + decimal),
        spec_area_register(seq![code] + decimal) == Ok::<(Area, nat), AddressError>(
            (spec_area(code)->Some_0, spec_parse_number(decimal, 10, u32::MAX as nat)->Some_0),
        ),
{
    let with_h = seq![LETTER_H, code] + hex;
    let plain = seq![code] + decimal;
    assert(with_h.skip(2) =~= hex);
    assert(plain.skip(1) =~= decimal);
    assert(with_h[0] == LETTER_H && with_h[1] == code);
    assert(plain[0] == code);
}

/// Whether a value of the width class can live in the area: a boolean
/// anywhere, a register value in a register area only, and a value without a
/// width class nowhere.
pub open spec fn compatible(class: WidthClass, area: Area) -> bool {
    class == WidthClass::Bit || (class != WidthClass::Unmapped && !is_bit_area(area))
}

/// The number of registers that a value of a fixed width class spans.
pub open spec fn fixed_quantity(class: WidthClass) -> u16 {
    match class {
        WidthClass::Double => 2,
        WidthClass::Quad => 4,
        _ => 1,
    }
}

/// A value that cannot live in an area is refused as an unsupported type;
/// one that can is placed, where its third field is in order, with the
/// quantity of its width class: one for a boolean or a 16-bit value, two for
/// 32 bits, four for 64 bits, and half the byte length for a text or a block.
pub proof fn lemma_area_type_compatibility(
    class: WidthClass,
    slave: u8,
    area: Area,
    register: nat,
    extra: Option<Seq<u8>>,
)
    requires
        1 <= register <= 0x10000,
    ensures
        !compatible(class, area) ==> spec_place(class, slave, area, register, extra) is Err
            && spec_place(class, slave, area, register, extra)->Err_0 is UnsupportedType,
        compatible(class, area) ==> !(spec_place(class, slave, area, register, extra) is Err
            && spec_place(class, slave, area, register, extra)->Err_0 is UnsupportedType),
        compatible(class, area) && (class == WidthClass::Single || class == WidthClass::Double
            || class == WidthClass::Quad) ==> spec_place(class, slave, area, register, extra)
            == Ok::<Address, AddressError>(
            Address {
                slave,
                area,
                address: (register - 1) as u16,
                quantity: fixed_quantity(class),
                bit: 0,
                length: 0,
            },
        ),
        class == WidthClass::Bit && is_bit_area(area) && extra is None ==> spec_place(
            class,
            slave,
            area,
            register,
            extra,
        ) == Ok::<Address, AddressError>(
            Address { slave, area, address: (register - 1) as u16, quantity: 1, bit: 0, length: 0 },
        ),
        class == WidthClass::Bit && !is_bit_area(area) && extra is Some && extra->Some_0.len() > 0
            && spec_parse_number(extra->Some_0.take(1), 10, 255) is Some ==> spec_place(
            class,
            slave,
            area,
            register,
            extra,
        ) == Ok::<Address, AddressError>(
            Address {
                slave,
                area,
                address: (register - 1) as u16,
                quantity: 1,
                bit: spec_parse_number(extra->Some_0.take(1), 10, 255)->Some_0 as u8,
                length: 0,
            },
        ),
        compatible(class, area) && (class == WidthClass::Text || class == WidthClass::Block)
            && extra is Some && spec_parse_number(extra->Some_0, 10, 65535) is Some ==> spec_place(
            class,
            slave,
            area,
            register,
            extra,
        ) == Ok::<Address, AddressError>(
            Address {
                slave,
                area,
                address: (register - 1) as u16,
                quantity: (spec_parse_number(extra->Some_0, 10, 65535)->Some_0 / 2) as u16,
                bit: 0,
                length: spec_parse_number(extra->Some_0, 10, 65535)->Some_0 as u16,
            },
        ),
{
}

/// A text always splits into at least one field.
pub proof fn lemma_split_dots_nonempty(s: Seq<u8>)
    ensures
        spec_split_dots(s).len() >= 1,
    decreases s.len(),
{
    lemma_find_dot_bound(s);
    let d = spec_find_dot(s) as int;
    if d < s.len() {
        lemma_split_dots_nonempty(s.skip(d + 1));
    }
}

} // verus!
