//! The kinds of device that the gateway knows by name.

use vstd::prelude::*;

verus! {

#[derive(Debug, Copy, Clone, PartialEq, Eq, Structural)]
pub enum DeviceType {
    Modbus(ModbusType),
    Siemens(SiemensType),
}

#[derive(Debug, Copy, Clone, PartialEq, Eq, Structural)]
pub enum ModbusType {
    RTU,
    TCP,
}

#[allow(non_camel_case_types)]
#[derive(Debug, Copy, Clone, PartialEq, Eq, Structural)]
pub enum SiemensType {
    S7_200,
    S7_200Smart,
    S7_300,
    S7_400,
    S7_1200,
    S7_1500,
}

} // verus!
