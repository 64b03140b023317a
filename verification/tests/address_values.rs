use xchannel::address::{Address, AddressError, Area};
use xchannel::tag::DeviceTag;
use xchannel::value::{BaseValue, Value};

fn tag_check(value: Value, str_address: &str, is_ok: bool, check_address: Option<Address>) {
    let tag = &DeviceTag {
        name: "test".to_string(),
        value,
        address: str_address.to_string(),
    };

    let address: Result<Address, AddressError> = Address::resolve(tag);
    if is_ok {
        assert!(address.is_ok());
        assert_eq!(address.unwrap(), check_address.unwrap());
    } else {
        assert!(address.is_err());
    }
}

#[test]
fn tag_parse_error() {
    tag_check(Value::Base(BaseValue::BIT(0)), "1.00", false, None);
    tag_check(Value::Base(BaseValue::BIT(0)), "1.065537", false, None);
    tag_check(Value::Base(BaseValue::BIT(0)), "1.265537", false, None);
    tag_check(Value::Base(BaseValue::UINT8(0)), "1.01", false, None);
    tag_check(Value::Base(BaseValue::UINT8(0)), "1.11", false, None);
}

#[test]
fn tag_parse_hex() {
    let address = Address {
        slave: 1,
        area: Area::Coil,
        address: 15,
        quantity: 1,
        bit: 0,
        length: 0,
    };
    tag_check(
        Value::Base(BaseValue::BIT(0)),
        "1.H010",
        true,
        Some(address),
    );
}

#[test]
fn tag_parse_coil() {
    let address = Address {
        slave: 1,
        area: Area::Coil,
        address: 0,
        quantity: 1,
        bit: 0,
        length: 0,
    };
    tag_check(Value::Base(BaseValue::BIT(0)), "1.01", true, Some(address));

    let address = Address {
        slave: 1,
        area: Area::Coil,
        address: 0,
        quantity: 1,
        bit: 0,
        length: 0,
    };
    tag_check(
        Value::Base(BaseValue::BOOL(false)),
        "1.01",
        true,
        Some(address),
    );
}

#[test]
fn tag_parse_input() {
    let address = Address {
        slave: 1,
        area: Area::DiscreteInput,
        address: 0,
        quantity: 1,
        bit: 0,
        length: 0,
    };
    tag_check(Value::Base(BaseValue::BIT(0)), "1.11", true, Some(address));

    let address = Address {
        slave: 1,
        area: Area::DiscreteInput,
        address: 0,
        quantity: 1,
        bit: 0,
        length: 0,
    };
    tag_check(
        Value::Base(BaseValue::BOOL(false)),
        "1.11",
        true,
        Some(address),
    );
}

#[test]
fn tag_parse_input_reg() {
    let address = Address {
        slave: 1,
        area: Area::InputRegister,
        address: 0,
        quantity: 1,
        bit: 0,
        length: 0,
    };
    tag_check(
        Value::Base(BaseValue::UINT16(0)),
        "1.31",
        true,
        Some(address),
    );

    let address = Address {
        slave: 1,
        area: Area::InputRegister,
        address: 0,
        quantity: 1,
        bit: 0,
        length: 0,
    };
    tag_check(
        Value::Base(BaseValue::INT16(0)),
        "1.31",
        true,
        Some(address),
    );

    let address = Address {
        slave: 1,
        area: Area::InputRegister,
        address: 0,
        quantity: 1,
        bit: 0,
        length: 0,
    };
    tag_check(Value::Base(BaseValue::WORD(0)), "1.31", true, Some(address));

    let address = Address {
        slave: 1,
        area: Area::InputRegister,
        address: 0,
        quantity: 2,
        bit: 0,
        length: 0,
    };
    tag_check(
        Value::Base(BaseValue::INT32(0)),
        "1.31",
        true,
        Some(address),
    );

    let address = Address {
        slave: 1,
        area: Area::InputRegister,
        address: 0,
        quantity: 2,
        bit: 0,
        length: 0,
    };
    tag_check(
        Value::Base(BaseValue::UINT32(0)),
        "1.31",
        true,
        Some(address),
    );

    let address = Address {
        slave: 1,
        area: Area::InputRegister,
        address: 0,
        quantity: 2,
        bit: 0,
        length: 0,
    };
    tag_check(
        Value::Base(BaseValue::FLOAT(0.0f32.to_bits())),
        "1.31",
        true,
        Some(address),
    );

    let address = Address {
        slave: 1,
        area: Area::InputRegister,
        address: 0,
        quantity: 2,
        bit: 0,
        length: 0,
    };
    tag_check(
        Value::Base(BaseValue::DWORD(0)),
        "1.31",
        true,
        Some(address),
    );

    let address = Address {
        slave: 1,
        area: Area::InputRegister,
        address: 0,
        quantity: 4,
        bit: 0,
        length: 0,
    };
    tag_check(
        Value::Base(BaseValue::INT64(0)),
        "1.31",
        true,
        Some(address),
    );

    let address = Address {
        slave: 1,
        area: Area::InputRegister,
        address: 0,
        quantity: 4,
        bit: 0,
        length: 0,
    };
    tag_check(
        Value::Base(BaseValue::UINT64(0)),
        "1.31",
        true,
        Some(address),
    );

    let address = Address {
        slave: 1,
        area: Area::InputRegister,
        address: 0,
        quantity: 4,
        bit: 0,
        length: 0,
    };
    tag_check(
        Value::Base(BaseValue::DOUBLE(0.0f64.to_bits())),
        "1.31",
        true,
        Some(address),
    );

    let address = Address {
        slave: 1,
        area: Area::InputRegister,
        address: 0,
        quantity: 4,
        bit: 0,
        length: 0,
    };
    tag_check(
        Value::Base(BaseValue::LWORD(0)),
        "1.31",
        true,
        Some(address),
    );

    let address = Address {
        slave: 1,
        area: Area::InputRegister,
        address: 0,
        quantity: 5,
        bit: 0,
        length: 10,
    };
    tag_check(
        Value::Base(BaseValue::STRING { length: 0, content: None }),
        "1.31.10",
        true,
        Some(address),
    );

    let address = Address {
        slave: 1,
        area: Area::InputRegister,
        address: 0,
        quantity: 5,
        bit: 0,
        length: 10,
    };
    tag_check(
        Value::Base(BaseValue::BYTES { length: 0, content: None }),
        "1.31.10",
        true,
        Some(address),
    );
}

#[test]
fn tag_parse_hold_reg() {
    let address = Address {
        slave: 1,
        area: Area::HoldingRegister,
        address: 0,
        quantity: 1,
        bit: 0,
        length: 0,
    };
    tag_check(
        Value::Base(BaseValue::UINT16(0)),
        "1.41",
        true,
        Some(address),
    );

    let address = Address {
        slave: 1,
        area: Area::HoldingRegister,
        address: 0,
        quantity: 1,
        bit: 0,
        length: 0,
    };
    tag_check(
        Value::Base(BaseValue::INT16(0)),
        "1.41",
        true,
        Some(address),
    );

    let address = Address {
        slave: 1,
        area: Area::HoldingRegister,
        address: 0,
        quantity: 1,
        bit: 0,
        length: 0,
    };
    tag_check(Value::Base(BaseValue::WORD(0)), "1.41", true, Some(address));

    let address = Address {
        slave: 1,
        area: Area::HoldingRegister,
        address: 0,
        quantity: 2,
        bit: 0,
        length: 0,
    };
    tag_check(
        Value::Base(BaseValue::INT32(0)),
        "1.41",
        true,
        Some(address),
    );

    let address = Address {
        slave: 1,
        area: Area::HoldingRegister,
        address: 0,
        quantity: 2,
        bit: 0,
        length: 0,
    };
    tag_check(
        Value::Base(BaseValue::UINT32(0)),
        "1.41",
        true,
        Some(address),
    );

    let address = Address {
        slave: 1,
        area: Area::HoldingRegister,
        address: 0,
        quantity: 2,
        bit: 0,
        length: 0,
    };
    tag_check(
        Value::Base(BaseValue::FLOAT(0.0f32.to_bits())),
        "1.41",
        true,
        Some(address),
    );

    let address = Address {
        slave: 1,
        area: Area::HoldingRegister,
        address: 0,
        quantity: 2,
        bit: 0,
        length: 0,
    };
    tag_check(
        Value::Base(BaseValue::DWORD(0)),
        "1.41",
        true,
        Some(address),
    );

    let address = Address {
        slave: 1,
        area: Area::HoldingRegister,
        address: 0,
        quantity: 4,
        bit: 0,
        length: 0,
    };
    tag_check(
        Value::Base(BaseValue::INT64(0)),
        "1.41",
        true,
        Some(address),
    );

    let address = Address {
        slave: 1,
        area: Area::HoldingRegister,
        address: 0,
        quantity: 4,
        bit: 0,
        length: 0,
    };
    tag_check(
        Value::Base(BaseValue::UINT64(0)),
        "1.41",
        true,
        Some(address),
    );

    let address = Address {
        slave: 1,
        area: Area::HoldingRegister,
        address: 0,
        quantity: 4,
        bit: 0,
        length: 0,
    };
    tag_check(
        Value::Base(BaseValue::DOUBLE(0.0f64.to_bits())),
        "1.41",
        true,
        Some(address),
    );

    let address = Address {
        slave: 1,
        area: Area::HoldingRegister,
        address: 0,
        quantity: 4,
        bit: 0,
        length: 0,
    };
    tag_check(
        Value::Base(BaseValue::LWORD(0)),
        "1.41",
        true,
        Some(address),
    );

    let address = Address {
        slave: 1,
        area: Area::HoldingRegister,
        address: 0,
        quantity: 5,
        bit: 0,
        length: 10,
    };
    tag_check(
        Value::Base(BaseValue::STRING { length: 0, content: None }),
        "1.41.10",
        true,
        Some(address),
    );

    let address = Address {
        slave: 1,
        area: Area::HoldingRegister,
        address: 0,
        quantity: 5,
        bit: 0,
        length: 10,
    };
    tag_check(
        Value::Base(BaseValue::BYTES { length: 0, content: None }),
        "1.41.10",
        true,
        Some(address),
    );
}
