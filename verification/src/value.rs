//! The tag value model: logical data types and typed values.
//!
//! Floating-point values are carried as their IEEE 754 bit patterns, so that a
//! value is plain data throughout.

use vstd::prelude::*;

verus! {

/// The storage type of a scalar value.
#[derive(Debug, Copy, Clone, PartialEq, Eq, Structural)]
pub enum ValueType {
    BIT,
    BOOL,
    UINT8,
    INT8,
    UINT16,
    INT16,
    UINT32,
    INT32,
    FLOAT,
    UINT64,
    INT64,
    DOUBLE,
    STRING,
    BYTES,
}

/// The data type that a tag is declared with.
#[derive(Debug, Copy, Clone, PartialEq, Eq, Structural)]
pub enum DataType {
    BIT,
    BOOL,
    BYTE,
    CHAR,
    WCHAR,
    WORD,
    DWORD,
    LWORD,
    SINT,
    USINT,
    INT,
    UINT,
    DINT,
    UDINT,
    LINT,
    ULINT,
    Real,
    LReal,
    FLOAT,
    DOUBLE,
    STRING,
    WSTRING,
}

/// A scalar value. `FLOAT` and `DOUBLE` hold the bit pattern of the number.
#[derive(Debug, Clone)]
#[allow(inconsistent_fields)]
pub enum BaseValue {
    BIT(u8),
    BOOL(bool),
    UINT8(u8),
    INT8(i8),
    UINT16(u16),
    INT16(i16),
    WORD(u16),
    UINT32(u32),
    INT32(i32),
    FLOAT(u32),
    DWORD(u32),
    UINT64(u64),
    INT64(i64),
    DOUBLE(u64),
    LWORD(u64),
    STRING { length: u16, content: Option<String> },
    BYTES { length: u16, content: Option<Vec<u8>> },
}

/// A tag value: a scalar, or a structured value made of scalars.
#[derive(Debug, Clone)]
pub enum Value {
    Base(BaseValue),
    Array(Vec<BaseValue>),
    Struct(Vec<BaseValue>),
}

/// How many device registers a value spans.
#[derive(Debug, Copy, Clone, PartialEq, Eq, Structural)]
pub enum WidthClass {
    /// A single bit.
    Bit,
    /// One 16-bit register.
    Single,
    /// Two registers.
    Double,
    /// Four registers.
    Quad,
    /// A text of a declared byte length, two bytes to a register.
    Text,
    /// A byte block of a declared byte length, two bytes to a register.
    Block,
    /// The value cannot be placed on a device.
    Unmapped,
}

impl DataType {
    /// The storage type behind a declared data type.
    pub open spec fn spec_value_type(self) -> ValueType {
        match self {
            DataType::BIT => ValueType::BIT,
            DataType::BOOL => ValueType::BOOL,
            DataType::BYTE | DataType::CHAR | DataType::USINT => ValueType::UINT8,
            DataType::SINT => ValueType::INT8,
            DataType::WCHAR | DataType::WORD | DataType::UINT => ValueType::UINT16,
            DataType::INT => ValueType::INT16,
            DataType::DWORD | DataType::UDINT => ValueType::UINT32,
            DataType::DINT => ValueType::INT32,
            DataType::LWORD | DataType::ULINT => ValueType::UINT64,
            DataType::LINT => ValueType::INT64,
            DataType::Real | DataType::FLOAT => ValueType::FLOAT,
            DataType::LReal | DataType::DOUBLE => ValueType::DOUBLE,
            DataType::STRING | DataType::WSTRING => ValueType::STRING,
        }
    }

    pub fn value_type(&self) -> (vt: ValueType)
        ensures
            vt == self.spec_value_type(),
    {
        match self {
            DataType::BIT => ValueType::BIT,
            DataType::BOOL => ValueType::BOOL,
            DataType::BYTE => ValueType::UINT8,
            DataType::CHAR => ValueType::UINT8,
            DataType::WCHAR => ValueType::UINT16,
            DataType::WORD => ValueType::UINT16,
            DataType::DWORD => ValueType::UINT32,
            DataType::LWORD => ValueType::UINT64,
            DataType::SINT => ValueType::INT8,
            DataType::USINT => ValueType::UINT8,
            DataType::INT => ValueType::INT16,
            DataType::UINT => ValueType::UINT16,
            DataType::DINT => ValueType::INT32,
            DataType::UDINT => ValueType::UINT32,
            DataType::LINT => ValueType::INT64,
            DataType::ULINT => ValueType::UINT64,
            DataType::Real => ValueType::FLOAT,
            DataType::LReal => ValueType::DOUBLE,
            DataType::FLOAT => ValueType::FLOAT,
            DataType::DOUBLE => ValueType::DOUBLE,
            DataType::STRING => ValueType::STRING,
            DataType::WSTRING => ValueType::STRING,
        }
    }

    /// The zero value of the storage type behind the data type.
    pub fn default_value(&self) -> (v: Value)
        ensures
            v == self.spec_value_type().spec_default_value(),
    {
        self.value_type().default_value()
    }
}

impl ValueType {
    /// The zero value of a storage type: number zero, `false`, or an empty
    /// text or block of declared length zero.
    pub open spec fn spec_default_value(self) -> Value {
        Value::Base(
            match self {
                ValueType::BIT => BaseValue::BIT(0),
                ValueType::BOOL => BaseValue::BOOL(false),
                ValueType::UINT8 => BaseValue::UINT8(0),
                ValueType::INT8 => BaseValue::INT8(0),
                ValueType::UINT16 => BaseValue::UINT16(0),
                ValueType::INT16 => BaseValue::INT16(0),
                ValueType::UINT32 => BaseValue::UINT32(0),
                ValueType::INT32 => BaseValue::INT32(0),
                ValueType::FLOAT => BaseValue::FLOAT(0),
                ValueType::UINT64 => BaseValue::UINT64(0),
                ValueType::INT64 => BaseValue::INT64(0),
                ValueType::DOUBLE => BaseValue::DOUBLE(0),
                ValueType::STRING => BaseValue::STRING { length: 0, content: None },
                ValueType::BYTES => BaseValue::BYTES { length: 0, content: None },
            },
        )
    }

    pub fn default_value(&self) -> (v: Value)
        ensures
            v == self.spec_default_value(),
    {
        let base = match self {
            ValueType::BIT => BaseValue::BIT(0),
            ValueType::BOOL => BaseValue::BOOL(false),
            ValueType::UINT8 => BaseValue::UINT8(0),
            ValueType::INT8 => BaseValue::INT8(0),
            ValueType::UINT16 => BaseValue::UINT16(0),
            ValueType::INT16 => BaseValue::INT16(0),
            ValueType::UINT32 => BaseValue::UINT32(0),
            ValueType::INT32 => BaseValue::INT32(0),
            ValueType::FLOAT => BaseValue::FLOAT(0),
            ValueType::UINT64 => BaseValue::UINT64(0),
            ValueType::INT64 => BaseValue::INT64(0),
            ValueType::DOUBLE => BaseValue::DOUBLE(0),
            ValueType::STRING => BaseValue::STRING { length: 0, content: None },
            ValueType::BYTES => BaseValue::BYTES { length: 0, content: None },
        };
        Value::Base(base)
    }
}

impl BaseValue {
    /// The storage type of a scalar: the word types are unsigned integers of
    /// their width.
    pub open spec fn spec_v_type(self) -> ValueType {
        match self {
            BaseValue::BIT(_) => ValueType::BIT,
            BaseValue::BOOL(_) => ValueType::BOOL,
            BaseValue::UINT8(_) => ValueType::UINT8,
            BaseValue::INT8(_) => ValueType::INT8,
            BaseValue::UINT16(_) | BaseValue::WORD(_) => ValueType::UINT16,
            BaseValue::INT16(_) => ValueType::INT16,
            BaseValue::UINT32(_) | BaseValue::DWORD(_) => ValueType::UINT32,
            BaseValue::INT32(_) => ValueType::INT32,
            BaseValue::FLOAT(_) => ValueType::FLOAT,
            BaseValue::UINT64(_) | BaseValue::LWORD(_) => ValueType::UINT64,
            BaseValue::INT64(_) => ValueType::INT64,
            BaseValue::DOUBLE(_) => ValueType::DOUBLE,
            BaseValue::STRING { .. } => ValueType::STRING,
            BaseValue::BYTES { .. } => ValueType::BYTES,
        }
    }

    pub fn v_type(&self) -> (vt: ValueType)
        ensures
            vt == self.spec_v_type(),
    {
        match self {
            BaseValue::BIT(_) => ValueType::BIT,
            BaseValue::BOOL(_) => ValueType::BOOL,
            BaseValue::UINT8(_) => ValueType::UINT8,
            BaseValue::INT8(_) => ValueType::INT8,
            BaseValue::UINT16(_) => ValueType::UINT16,
            BaseValue::INT16(_) => ValueType::INT16,
            BaseValue::WORD(_) => ValueType::UINT16,
            BaseValue::UINT32(_) => ValueType::UINT32,
            BaseValue::INT32(_) => ValueType::INT32,
            BaseValue::FLOAT(_) => ValueType::FLOAT,
            BaseValue::DWORD(_) => ValueType::UINT32,
            BaseValue::UINT64(_) => ValueType::UINT64,
            BaseValue::INT64(_) => ValueType::INT64,
            BaseValue::DOUBLE(_) => ValueType::DOUBLE,
            BaseValue::LWORD(_) => ValueType::UINT64,
            BaseValue::STRING { .. } => ValueType::STRING,
            BaseValue::BYTES { .. } => ValueType::BYTES,
        }
    }

    /// The width class of a scalar. It depends on the variant alone, never on
    /// the value carried. Eight-bit integers have no place on a device.
    pub open spec fn spec_width_class(self) -> WidthClass {
        match self {
            BaseValue::BIT(_) | BaseValue::BOOL(_) => WidthClass::Bit,
            BaseValue::UINT16(_) | BaseValue::INT16(_) | BaseValue::WORD(_) => WidthClass::Single,
            BaseValue::UINT32(_) | BaseValue::INT32(_) | BaseValue::FLOAT(_) | BaseValue::DWORD(
                _,
            ) => WidthClass::Double,
            BaseValue::UINT64(_) | BaseValue::INT64(_) | BaseValue::DOUBLE(_) | BaseValue::LWORD(
                _,
            ) => WidthClass::Quad,
            BaseValue::STRING { .. } => WidthClass::Text,
            BaseValue::BYTES { .. } => WidthClass::Block,
            BaseValue::UINT8(_) | BaseValue::INT8(_) => WidthClass::Unmapped,
        }
    }

    pub fn width_class(&self) -> (w: WidthClass)
        ensures
            w == self.spec_width_class(),
    {
        match self {
            BaseValue::BIT(_) | BaseValue::BOOL(_) => WidthClass::Bit,
            BaseValue::UINT16(_) | BaseValue::INT16(_) | BaseValue::WORD(_) => WidthClass::Single,
            BaseValue::UINT32(_) | BaseValue::INT32(_) | BaseValue::FLOAT(_) | BaseValue::DWORD(
                _,
            ) => WidthClass::Double,
            BaseValue::UINT64(_) | BaseValue::INT64(_) | BaseValue::DOUBLE(_) | BaseValue::LWORD(
                _,
            ) => WidthClass::Quad,
            BaseValue::STRING { .. } => WidthClass::Text,
            BaseValue::BYTES { .. } => WidthClass::Block,
            BaseValue::UINT8(_) | BaseValue::INT8(_) => WidthClass::Unmapped,
        }
    }
}

impl Value {
    /// Whether the value is a scalar.
    pub open spec fn spec_is_base(self) -> bool {
        self is Base
    }

    pub fn is_base(&self) -> (b: bool)
        ensures
            b == self.spec_is_base(),
    {
        match self {
            Value::Base(_) => true,
            _ => false,
        }
    }

    /// The width class of a value: that of the scalar, and none for a
    /// structured value.
    pub open spec fn spec_width_class(self) -> WidthClass {
        match self {
            Value::Base(base) => base.spec_width_class(),
            _ => WidthClass::Unmapped,
        }
    }

    pub fn width_class(&self) -> (w: WidthClass)
        ensures
            w == self.spec_width_class(),
    {
        match self {
            Value::Base(base) => base.width_class(),
            _ => WidthClass::Unmapped,
        }
    }
}

} // verus!
