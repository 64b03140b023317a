//! The Modbus TCP driver as the gateway lists and configures it.

use vstd::prelude::*;
use vstd::string::*;
use crate::address::{spec_resolve, Address};
use crate::error::{XError, XErrorKind, XResult};
use crate::tag::{DeviceTag, MAX_BATCH};

verus! {

/// What a driver says of itself.
#[derive(Debug, Clone)]
pub struct DriverInfo {
    pub name: String,
    pub description: String,
    pub version: String,
}

/// One named setting of a device or a table.
#[derive(Debug, Clone)]
pub struct Parameter {
    pub name: String,
    pub value: String,
}

/// Where a Modbus TCP device is reached.
#[derive(Debug, Clone)]
pub struct ModbusTCPSetting {
    pub host: String,
    pub port: u16,
    pub timeout: u16,
}

/// The Modbus TCP driver.
#[derive(Debug)]
pub struct ModbusTCP {}

impl ModbusTCP {
    pub fn new() -> (driver: ModbusTCP)
        ensures
            driver == (ModbusTCP {  }),
    {
        ModbusTCP {  }
    }

    /// The name, description and version of the driver.
    pub fn info(&self) -> (info: DriverInfo)
        ensures
            info.name@ == "Modbus TCP"@,
            info.description@ == "Modbus TCP is simply the Modbus RTU protocol with a TCP interface that runs on Ethernet."@,
            info.version@ == "0.1.0"@,
    {
        DriverInfo {
            name: String::from_str("Modbus TCP"),
            description: String::from_str(
                "Modbus TCP is simply the Modbus RTU protocol with a TCP interface that runs on Ethernet.",
            ),
            version: String::from_str("0.1.0"),
        }
    }

    /// Judges where the device is reached. Every setting is accepted.
    pub fn setting(&self, _setting: &ModbusTCPSetting) -> (r: XResult<()>)
        ensures
            r is Ok,
    {
        Ok(())
    }

    /// Checks that the address of every tag of a batch resolves.
    pub fn validate(&self, tags: &[DeviceTag]) -> (r: XResult<()>)
        requires
            tags.len() <= MAX_BATCH,
        ensures
            batch_outcome(r, tags@),
    {
        validate_tags(tags)
    }
}

/// Whether the address of tag `i` resolves.
pub open spec fn resolves(tags: Seq<DeviceTag>, i: int) -> bool {
    spec_resolve(tags[i].value.spec_width_class(), tags[i].address@) is Ok
}

/// What the check of a batch gives: success where every address resolves;
/// else a tag error with the one-based index of the first tag whose address
/// does not, and the words of that tag's address error.
pub open spec fn batch_outcome(r: XResult<()>, tags: Seq<DeviceTag>) -> bool {
    &&& r is Ok <==> forall|i: int| 0 <= i < tags.len() ==> resolves(tags, i)
    &&& r is Err ==> {
        let at = r->Err_0.spec_index() - 1;
        &&& r->Err_0.spec_kind() == XErrorKind::TagError
        &&& 0 <= at < tags.len()
        &&& !resolves(tags, at)
        &&& forall|i: int| 0 <= i < at ==> resolves(tags, i)
        &&& r->Err_0.text() == spec_resolve(
            tags[at].value.spec_width_class(),
            tags[at].address@,
        )->Err_0.spec_message()
    }
}

/// Checks that the address of every tag of a batch resolves. The error of a
/// batch is that of its first tag that does not, and carries the one-based
/// index of that tag.
pub fn validate_tags(tags: &[DeviceTag]) -> (r: XResult<()>)
    requires
        tags.len() <= MAX_BATCH,
    ensures
        batch_outcome(r, tags@),
{
    let mut i: usize = 0;
    while i < tags.len()
        invariant
            i <= tags.len() <= MAX_BATCH,
            forall|k: int| 0 <= k < i ==> resolves(tags@, k),
        decreases tags.len() - i,
    {
        match Address::resolve(&tags[i]) {
            Err(err) => {
                assert(!resolves(tags@, i as int));
                return Err(err.to_xerror().with_index(i as i32 + 1));
            },
            Ok(_) => {},
        }
        i += 1;
    }
    Ok(())
}

/// The settings of a device, one parameter after the other.
pub type Setting = Vec<Parameter>;

/// What a running Modbus TCP device holds between calls.
#[derive(Debug)]
pub struct ModbusTcpContext {}

/// A Modbus TCP device as it is configured.
#[derive(Debug)]
pub struct ModbusTcp {
    pub setting: Option<Setting>,
    pub context: Option<ModbusTcpContext>,
}

impl Default for ModbusTcp {
    fn default() -> (driver: Self)
        ensures
            driver.setting is None,
            driver.context is None,
    {
        ModbusTcp { setting: None, context: None }
    }
}

impl ModbusTcp {
    /// A device without settings that is not running.
    pub fn new() -> (driver: ModbusTcp)
        ensures
            driver.setting is None,
            driver.context is None,
    {
        ModbusTcp { setting: None, context: None }
    }

    /// The name, description and version of the driver.
    pub fn info(&self) -> (info: DriverInfo)
        ensures
            info.name@ == "Modbus TCP"@,
            info.description@ == "Modbus TCP description"@,
            info.version@ == "0.1.0"@,
    {
        DriverInfo {
            name: String::from_str("Modbus TCP"),
            description: String::from_str("Modbus TCP description"),
            version: String::from_str("0.1.0"),
        }
    }

    /// Judges the settings of a device. Every setting is accepted.
    pub fn setting(&self, _setting: &Setting) -> (r: XResult<()>)
        ensures
            r is Ok,
    {
        Ok(())
    }

    /// Checks that the address of every tag of a batch resolves.
    pub fn tag(&self, tags: &[DeviceTag]) -> (r: XResult<()>)
        requires
            tags.len() <= MAX_BATCH,
        ensures
            batch_outcome(r, tags@),
    {
        validate_tags(tags)
    }

    /// Judges the parameter of a table. Every parameter is accepted.
    pub fn table_parameter(&self, _parameter: &Parameter) -> (r: XResult<()>)
        ensures
            r is Ok,
    {
        Ok(())
    }
}

/// The drivers that the gateway has. The set is closed: at present it holds
/// Modbus TCP alone.
#[derive(Debug)]
pub struct Drivers {}

/// The words of the error for a driver that the gateway does not have.
pub open spec fn spec_unknown_driver(name: Seq<char>) -> Seq<char> {
    "driver not found: "@ + name
}

impl Drivers {
    pub fn new() -> (drivers: Drivers)
        ensures
            drivers == (Drivers {  }),
    {
        Drivers {  }
    }

    /// Whether the gateway has a driver of that name.
    pub open spec fn spec_has(name: Seq<char>) -> bool {
        name == "Modbus TCP"@
    }

    /// Whether the gateway has a driver of that name.
    pub fn has(&self, name: &str) -> (found: bool)
        ensures
            found == Self::spec_has(name@),
    {
        String::from_str(name) == String::from_str("Modbus TCP")
    }

    /// What each driver says of itself.
    pub fn get_drivers(&self) -> (infos: Vec<DriverInfo>)
        ensures
            infos.len() == 1,
            infos[0].name@ == "Modbus TCP"@,
            infos[0].description@ == "Modbus TCP description"@,
            infos[0].version@ == "0.1.0"@,
    {
        let mut infos: Vec<DriverInfo> = Vec::new();
        infos.push(ModbusTcp::new().info());
        infos
    }

    /// A fresh device of the named driver, or a driver error that names what
    /// was asked for.
    pub fn create(&self, name: &str) -> (r: XResult<ModbusTcp>)
        ensures
            Self::spec_has(name@) ==> r is Ok && r->Ok_0.setting is None && r->Ok_0.context is None,
            !Self::spec_has(name@) ==> r is Err && r->Err_0.spec_kind() == XErrorKind::DriverError
                && r->Err_0.text() == spec_unknown_driver(name@),
    {
        if self.has(name) {
            Ok(ModbusTcp::new())
        } else {
            let text = String::from_str("driver not found: ").concat(name);
            Err(XError::new(XErrorKind::DriverError, text.as_str()))
        }
    }

    /// Checks a batch of tags with the named driver. A driver that the gateway
    /// does not have is a driver error.
    pub fn validate(&self, name: &str, tags: &[DeviceTag]) -> (r: XResult<()>)
        requires
            tags.len() <= MAX_BATCH,
        ensures
            Self::spec_has(name@) ==> batch_outcome(r, tags@),
            !Self::spec_has(name@) ==> r is Err && r->Err_0.spec_kind() == XErrorKind::DriverError
                && r->Err_0.text() == spec_unknown_driver(name@),
    {
        if self.has(name) {
            validate_tags(tags)
        } else {
            let text = String::from_str("driver not found: ").concat(name);
            Err(XError::new(XErrorKind::DriverError, text.as_str()))
        }
    }
}

} // verus!
