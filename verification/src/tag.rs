//! Tags: named, typed points of a device.

use vstd::prelude::*;
use vstd::string::*;
use crate::error::{XError, XErrorKind, XResult};
use crate::value::{DataType, Value};

verus! {

/// A tag as it is configured. Only a scalar tag may carry a device address; a
/// member of a structured tag names that tag as its parent.
#[derive(Debug, Clone)]
pub struct Tag {
    pub name: String,
    pub value: Value,
    pub address: Option<String>,
    pub parent: Option<String>,
    pub description: Option<String>,
}

/// A tag as a driver sees it: one that has a device address.
#[derive(Debug, Clone)]
pub struct DeviceTag {
    pub name: String,
    pub value: Value,
    pub address: String,
}

/// What is wrong with a configured tag.
#[derive(Debug, Copy, Clone, PartialEq, Eq, Structural)]
pub enum TagFault {
    /// A scalar tag names itself as its parent.
    ParentIsSelf,
    /// A structured tag has a parent.
    StructuredWithParent,
    /// A structured tag has a device address.
    StructuredWithAddress,
}

/// The words that explain a tag fault.
pub open spec fn spec_tag_fault_message(fault: TagFault) -> Seq<char> {
    match fault {
        TagFault::ParentIsSelf => "Parent can't be self"@,
        TagFault::StructuredWithParent => "Array or Struct shouldn't have parent"@,
        TagFault::StructuredWithAddress => "Array or Struct shouldn't have address"@,
    }
}

/// The largest batch whose one-based indices fit an error.
pub const MAX_BATCH: usize = 0x7FFF_FFFE;

impl Tag {
    /// The fault of a tag, if it has one.
    pub open spec fn spec_fault(self) -> Option<TagFault> {
        if self.value is Base {
            if self.parent is Some && self.parent->Some_0@ == self.name@ {
                Some(TagFault::ParentIsSelf)
            } else {
                None
            }
        } else if self.parent is Some {
            Some(TagFault::StructuredWithParent)
        } else if self.address is Some {
            Some(TagFault::StructuredWithAddress)
        } else {
            None
        }
    }

    /// The fault of the tag, if it has one.
    pub fn fault(&self) -> (f: Option<TagFault>)
        ensures
            f == self.spec_fault(),
    {
        if self.value.is_base() {
            match &self.parent {
                Some(parent) => {
                    if *parent == self.name {
                        Some(TagFault::ParentIsSelf)
                    } else {
                        None
                    }
                },
                None => None,
            }
        } else if self.parent.is_some() {
            Some(TagFault::StructuredWithParent)
        } else if self.address.is_some() {
            Some(TagFault::StructuredWithAddress)
        } else {
            None
        }
    }

    /// Checks a batch of tags. The error of a batch is that of its first faulty
    /// tag and carries the one-based index of that tag.
    pub fn check(tags: &[Tag]) -> (r: XResult<()>)
        requires
            tags.len() <= MAX_BATCH,
        ensures
            r is Ok <==> forall|i: int| 0 <= i < tags.len() ==> tags[i].spec_fault() is None,
            r is Err ==> {
                let at = r->Err_0.spec_index() - 1;
                &&& r->Err_0.spec_kind() == XErrorKind::TagError
                &&& 0 <= at < tags.len()
                &&& tags[at].spec_fault() is Some
                &&& forall|i: int| 0 <= i < at ==> tags[i].spec_fault() is None
                &&& r->Err_0.text() == spec_tag_fault_message(tags[at].spec_fault()->Some_0)
            },
    {
        let mut i: usize = 0;
        while i < tags.len()
            invariant
                i <= tags.len() <= MAX_BATCH,
                forall|k: int| 0 <= k < i ==> tags[k].spec_fault() is None,
            decreases tags.len() - i,
        {
            match tags[i].fault() {
                Some(fault) => {
                    let text: &'static str = match fault {
                        TagFault::ParentIsSelf => "Parent can't be self",
                        TagFault::StructuredWithParent => "Array or Struct shouldn't have parent",
                        TagFault::StructuredWithAddress => "Array or Struct shouldn't have address",
                    };
                    return Err(XError::new(XErrorKind::TagError, text).with_index(i as i32 + 1));
                },
                None => {},
            }
            i += 1;
        }
        Ok(())
    }
}

/// The value of a tag that is declared with a data type: the value given,
/// which must be a scalar of the storage type behind the data type, or the
/// zero value of that type where none is given.
pub open spec fn spec_typed_value(dtype: DataType, value: Option<Value>) -> Option<Value> {
    match value {
        None => Some(dtype.spec_value_type().spec_default_value()),
        Some(Value::Base(base)) => if base.spec_v_type() == dtype.spec_value_type() {
            value
        } else {
            None
        },
        Some(_) => None,
    }
}

/// The value of a tag that is declared with a data type. A value of another
/// type is refused.
pub fn typed_value(dtype: DataType, value: Option<Value>) -> (r: XResult<Value>)
    ensures
        match spec_typed_value(dtype, value) {
            Some(v) => r is Ok && r->Ok_0 == v,
            None => r is Err && r->Err_0.spec_kind() == XErrorKind::TagError
                && r->Err_0.spec_index() == -1 && r->Err_0.text() == "Tag value type mismatch"@,
        },
{
    match value {
        None => Ok(dtype.default_value()),
        Some(Value::Base(base)) => {
            if base.v_type() == dtype.value_type() {
                Ok(Value::Base(base))
            } else {
                Err(XError::new(XErrorKind::TagError, "Tag value type mismatch"))
            }
        },
        Some(_) => Err(XError::new(XErrorKind::TagError, "Tag value type mismatch")),
    }
}

impl DeviceTag {
    /// The tag as a driver sees it. A tag without an address is refused.
    pub fn try_from_tag(tag: Tag) -> (r: XResult<DeviceTag>)
        ensures
            match tag.address {
                Some(address) => r is Ok && r->Ok_0.name == tag.name && r->Ok_0.value
                    == tag.value && r->Ok_0.address == address,
                None => r is Err && r->Err_0.spec_kind() == XErrorKind::TagError
                    && r->Err_0.spec_index() == -1 && r->Err_0.text() == "Tag address is empty"@,
            },
    {
        match tag.address {
            Some(address) => Ok(DeviceTag { name: tag.name, value: tag.value, address }),
            None => Err(XError::new(XErrorKind::TagError, "Tag address is empty")),
        }
    }
}

} // verus!
