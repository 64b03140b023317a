//! The error type that the gateway reports to its users.

use vstd::prelude::*;
use vstd::string::*;

verus! {

/// An error of the gateway. A tag error carries the one-based index of the tag
/// in its batch, or -1 where it has none.
#[derive(Clone, Debug)]
pub enum XError {
    DriverError(String),
    DeviceError(String),
    TableError(String),
    TagError(i32, String),
    ParameterError(String),
    DBError(String),
    IOError(String),
}

/// The kind of an error, without its text.
#[derive(Debug, Copy, Clone, PartialEq, Eq, Structural)]
pub enum XErrorKind {
    DriverError,
    DeviceError,
    TableError,
    TagError,
    ParameterError,
    DBError,
    IOError,
}

pub type XResult<T> = Result<T, XError>;

/// The character of a decimal digit.
pub open spec fn digit_char(d: nat) -> char {
    (48 + d) as char
}

/// The decimal writing of a natural number, without leading zeros.
pub open spec fn decimal_nat(n: nat) -> Seq<char>
    decreases n,
{
    if n < 10 {
        seq![digit_char(n)]
    } else {
        decimal_nat(n / 10).push(digit_char(n % 10))
    }
}

/// The decimal writing of an integer, with a minus sign where it is negative.
pub open spec fn decimal_int(i: int) -> Seq<char> {
    if i < 0 {
        seq!['-'] + decimal_nat((-i) as nat)
    } else {
        decimal_nat(i as nat)
    }
}

/// The numeric code of each kind of error.
pub open spec fn spec_code(kind: XErrorKind) -> i64 {
    match kind {
        XErrorKind::DriverError => 1001,
        XErrorKind::DeviceError => 1002,
        XErrorKind::TableError => 1003,
        XErrorKind::TagError => 1004,
        XErrorKind::ParameterError => 1005,
        XErrorKind::DBError => 1101,
        XErrorKind::IOError => 1201,
    }
}

/// The words that a message of each kind opens with.
pub open spec fn spec_prefix(kind: XErrorKind) -> Seq<char> {
    match kind {
        XErrorKind::DriverError => "Driver Error: "@,
        XErrorKind::DeviceError => "Device Error: "@,
        XErrorKind::TableError => "Table Error: "@,
        XErrorKind::TagError => "Tag Error: "@,
        XErrorKind::ParameterError => "Parameter Error: "@,
        XErrorKind::DBError => "DB Error: "@,
        XErrorKind::IOError => "Other Error: "@,
    }
}

/// One decimal digit as text.
fn digit_text(d: u32) -> (t: &'static str)
    requires
        d < 10,
    ensures
        t@ == seq![digit_char(d as nat)],
{
    proof {
        reveal_strlit("0");
        reveal_strlit("1");
        reveal_strlit("2");
        reveal_strlit("3");
        reveal_strlit("4");
        reveal_strlit("5");
        reveal_strlit("6");
        reveal_strlit("7");
        reveal_strlit("8");
        reveal_strlit("9");
    }
    let t = if d == 0 {
        "0"
    } else if d == 1 {
        "1"
    } else if d == 2 {
        "2"
    } else if d == 3 {
        "3"
    } else if d == 4 {
        "4"
    } else if d == 5 {
        "5"
    } else if d == 6 {
        "6"
    } else if d == 7 {
        "7"
    } else if d == 8 {
        "8"
    } else {
        "9"
    };
    assert(t@ =~= seq![digit_char(d as nat)]);
    t
}

/// Appends the decimal writing of a number to a text.
pub(crate) fn push_decimal(out: &mut String, n: u32)
    ensures
        final(out)@ == old(out)@ + decimal_nat(n as nat),
    decreases n,
{
    if n >= 10 {
        push_decimal(out, n / 10);
    }
    out.append(digit_text(n % 10));
    proof {
        if n >= 10 {
            assert(final(out)@ =~= old(out)@ + decimal_nat(n as nat));
        } else {
            assert(final(out)@ =~= old(out)@ + decimal_nat(n as nat));
        }
    }
}

impl XError {
    /// The kind of the error.
    pub open spec fn spec_kind(self) -> XErrorKind {
        match self {
            XError::DriverError(_) => XErrorKind::DriverError,
            XError::DeviceError(_) => XErrorKind::DeviceError,
            XError::TableError(_) => XErrorKind::TableError,
            XError::TagError(_, _) => XErrorKind::TagError,
            XError::ParameterError(_) => XErrorKind::ParameterError,
            XError::DBError(_) => XErrorKind::DBError,
            XError::IOError(_) => XErrorKind::IOError,
        }
    }

    /// The text that the error was made with.
    pub open spec fn text(self) -> Seq<char> {
        match self {
            XError::DriverError(m) => m@,
            XError::DeviceError(m) => m@,
            XError::TableError(m) => m@,
            XError::TagError(_, m) => m@,
            XError::ParameterError(m) => m@,
            XError::DBError(m) => m@,
            XError::IOError(m) => m@,
        }
    }

    /// The index of a tag error; -1 for every other kind.
    pub open spec fn spec_index(self) -> i32 {
        match self {
            XError::TagError(index, _) => index,
            _ => -1i32,
        }
    }

    /// The message shown to a user: the words of the kind, then the text, and
    /// for a tag error the index in brackets.
    pub open spec fn spec_message(self) -> Seq<char> {
        match self {
            XError::TagError(index, m) => spec_prefix(XErrorKind::TagError) + m@ + " ("@
                + decimal_int(index as int) + ")"@,
            _ => spec_prefix(self.spec_kind()) + self.text(),
        }
    }

    /// An error of the given kind; a tag error starts without an index.
    pub fn new(kind: XErrorKind, msg: &str) -> (e: XError)
        ensures
            e.spec_kind() == kind,
            e.text() == msg@,
            e.spec_index() == -1,
    {
        match kind {
            XErrorKind::DriverError => XError::DriverError(String::from_str(msg)),
            XErrorKind::DeviceError => XError::DeviceError(String::from_str(msg)),
            XErrorKind::TableError => XError::TableError(String::from_str(msg)),
            XErrorKind::TagError => XError::TagError(-1, String::from_str(msg)),
            XErrorKind::ParameterError => XError::ParameterError(String::from_str(msg)),
            XErrorKind::DBError => XError::DBError(String::from_str(msg)),
            XErrorKind::IOError => XError::IOError(String::from_str(msg)),
        }
    }

    pub fn code(&self) -> (c: i64)
        ensures
            c == spec_code(self.spec_kind()),
    {
        match self {
            XError::DriverError(_) => 1001,
            XError::DeviceError(_) => 1002,
            XError::TableError(_) => 1003,
            XError::TagError(_, _) => 1004,
            XError::ParameterError(_) => 1005,
            XError::DBError(_) => 1101,
            XError::IOError(_) => 1201,
        }
    }

    pub fn message(&self) -> (m: String)
        ensures
            m@ == self.spec_message(),
    {
        match self {
            XError::DriverError(text) => String::from_str("Driver Error: ").concat(text.as_str()),
            XError::DeviceError(text) => String::from_str("Device Error: ").concat(text.as_str()),
            XError::TableError(text) => String::from_str("Table Error: ").concat(text.as_str()),
            XError::TagError(index, text) => {
                let mut out = String::from_str("Tag Error: ").concat(text.as_str());
                out.append(" (");
                let wide: i64 = *index as i64;
                if wide < 0 {
                    proof {
                        reveal_strlit("-");
                    }
                    out.append("-");
                    push_decimal(&mut out, (-wide) as u32);
                } else {
                    push_decimal(&mut out, wide as u32);
                }
                out.append(")");
                proof {
                    assert(out@ =~= self.spec_message());
                }
                out
            },
            XError::ParameterError(text) => String::from_str("Parameter Error: ").concat(
                text.as_str(),
            ),
            XError::DBError(text) => String::from_str("DB Error: ").concat(text.as_str()),
            XError::IOError(text) => String::from_str("Other Error: ").concat(text.as_str()),
        }
    }

    /// The same error with the index set, where it is a tag error; every other
    /// error unchanged.
    pub fn with_index(&self, index: i32) -> (e: XError)
        ensures
            e.spec_kind() == self.spec_kind(),
            e.text() == self.text(),
            e.spec_index() == (if self.spec_kind() == XErrorKind::TagError {
                index
            } else {
                -1i32
            }),
    {
        match self {
            XError::DriverError(text) => XError::DriverError(text.clone()),
            XError::DeviceError(text) => XError::DeviceError(text.clone()),
            XError::TableError(text) => XError::TableError(text.clone()),
            XError::TagError(_, text) => XError::TagError(index, text.clone()),
            XError::ParameterError(text) => XError::ParameterError(text.clone()),
            XError::DBError(text) => XError::DBError(text.clone()),
            XError::IOError(text) => XError::IOError(text.clone()),
        }
    }

    pub fn get_index(&self) -> (index: i32)
        ensures
            index == self.spec_index(),
    {
        match self {
            XError::TagError(index, _) => *index,
            _ => -1,
        }
    }

    pub fn kind(&self) -> (k: XErrorKind)
        ensures
            k == self.spec_kind(),
    {
        match self {
            XError::DriverError(_) => XErrorKind::DriverError,
            XError::DeviceError(_) => XErrorKind::DeviceError,
            XError::TableError(_) => XErrorKind::TableError,
            XError::TagError(_, _) => XErrorKind::TagError,
            XError::ParameterError(_) => XErrorKind::ParameterError,
            XError::DBError(_) => XErrorKind::DBError,
            XError::IOError(_) => XErrorKind::IOError,
        }
    }
}

} // verus!
