//! Status codes of the native layer and the error value built from them.
use vstd::prelude::*;
use vstd::std_specs::convert::FromSpecImpl;

verus! {

/// The kinds of status that the native layer reports.
///
/// Every native call hands back a small signed integer. The known values have a
/// kind of their own; every other value is folded into `Unknown`.
#[derive(Clone, Copy, Debug, PartialEq, Eq, Structural)]
pub enum XCamReturn {
    NoError,
    Bypass,
    Failed,
    Param,
    Mem,
    File,
    Analyzer,
    Isp,
    Sensor,
    Thread,
    Ioctl,
    Order,
    Timeout,
    OutOfRange,
    Unknown,
}

impl XCamReturn {
    /// The kind that the status code `code` stands for.
    pub open spec fn of_code(code: int) -> XCamReturn {
        if code == 0 {
            XCamReturn::NoError
        } else if code == 1 {
            XCamReturn::Bypass
        } else if code == -1 {
            XCamReturn::Failed
        } else if code == -2 {
            XCamReturn::Param
        } else if code == -3 {
            XCamReturn::Mem
        } else if code == -4 {
            XCamReturn::File
        } else if code == -5 {
            XCamReturn::Analyzer
        } else if code == -6 {
            XCamReturn::Isp
        } else if code == -7 {
            XCamReturn::Sensor
        } else if code == -8 {
            XCamReturn::Thread
        } else if code == -9 {
            XCamReturn::Ioctl
        } else if code == -10 {
            XCamReturn::Order
        } else if code == -20 {
            XCamReturn::Timeout
        } else if code == -21 {
            XCamReturn::OutOfRange
        } else {
            XCamReturn::Unknown
        }
    }

    /// The status code that stands for this kind. `Unknown` has the code -255,
    /// which is the code of no other kind.
    pub open spec fn spec_code(self) -> int {
        match self {
            XCamReturn::NoError => 0,
            XCamReturn::Bypass => 1,
            XCamReturn::Failed => -1,
            XCamReturn::Param => -2,
            XCamReturn::Mem => -3,
            XCamReturn::File => -4,
            XCamReturn::Analyzer => -5,
            XCamReturn::Isp => -6,
            XCamReturn::Sensor => -7,
            XCamReturn::Thread => -8,
            XCamReturn::Ioctl => -9,
            XCamReturn::Order => -10,
            XCamReturn::Timeout => -20,
            XCamReturn::OutOfRange => -21,
            XCamReturn::Unknown => -255,
        }
    }

    /// The text that describes this kind to a person.
    pub open spec fn spec_description(self) -> Seq<char> {
        match self {
            XCamReturn::NoError => "No Error"@,
            XCamReturn::Bypass => "ByPass"@,
            XCamReturn::Failed => "Failed"@,
            XCamReturn::Param => "Bad Parameters"@,
            XCamReturn::Mem => "No Memory"@,
            XCamReturn::File => "File Error"@,
            XCamReturn::Analyzer => "Analyzer Error"@,
            XCamReturn::Isp => "ISP Error"@,
            XCamReturn::Sensor => "Sensor Error"@,
            XCamReturn::Thread => "Thread Error"@,
            XCamReturn::Ioctl => "IOCTL Error"@,
            XCamReturn::Order => "Wrong Order"@,
            XCamReturn::Timeout => "Timeout"@,
            XCamReturn::OutOfRange => "Out of Range"@,
            XCamReturn::Unknown => "Unknown"@,
        }
    }

    /// Classifies a status code.
    pub fn from_code(code: i32) -> (kind: XCamReturn)
        ensures
            kind == XCamReturn::of_code(code as int),
    {
        match code {
            0 => XCamReturn::NoError,
            1 => XCamReturn::Bypass,
            -1 => XCamReturn::Failed,
            -2 => XCamReturn::Param,
            -3 => XCamReturn::Mem,
            -4 => XCamReturn::File,
            -5 => XCamReturn::Analyzer,
            -6 => XCamReturn::Isp,
            -7 => XCamReturn::Sensor,
            -8 => XCamReturn::Thread,
            -9 => XCamReturn::Ioctl,
            -10 => XCamReturn::Order,
            -20 => XCamReturn::Timeout,
            -21 => XCamReturn::OutOfRange,
            _ => XCamReturn::Unknown,
        }
    }

    /// The status code of this kind.
    pub fn code(self) -> (code: i32)
        ensures
            code as int == self.spec_code(),
    {
        match self {
            XCamReturn::NoError => 0,
            XCamReturn::Bypass => 1,
            XCamReturn::Failed => -1,
            XCamReturn::Param => -2,
            XCamReturn::Mem => -3,
            XCamReturn::File => -4,
            XCamReturn::Analyzer => -5,
            XCamReturn::Isp => -6,
            XCamReturn::Sensor => -7,
            XCamReturn::Thread => -8,
            XCamReturn::Ioctl => -9,
            XCamReturn::Order => -10,
            XCamReturn::Timeout => -20,
            XCamReturn::OutOfRange => -21,
            XCamReturn::Unknown => -255,
        }
    }

    /// The description of this kind.
    pub fn description(self) -> (text: &'static str)
        ensures
            text@ == self.spec_description(),
    {
        match self {
            XCamReturn::NoError => "No Error",
            XCamReturn::Bypass => "ByPass",
            XCamReturn::Failed => "Failed",
            XCamReturn::Param => "Bad Parameters",
            XCamReturn::Mem => "No Memory",
            XCamReturn::File => "File Error",
            XCamReturn::Analyzer => "Analyzer Error",
            XCamReturn::Isp => "ISP Error",
            XCamReturn::Sensor => "Sensor Error",
            XCamReturn::Thread => "Thread Error",
            XCamReturn::Ioctl => "IOCTL Error",
            XCamReturn::Order => "Wrong Order",
            XCamReturn::Timeout => "Timeout",
            XCamReturn::OutOfRange => "Out of Range",
            XCamReturn::Unknown => "Unknown",
        }
    }
}

/// The outcome of a native call as a value: the status kind it reported.
///
/// Only `NoError` counts as success; `ok` turns every other kind into `Err`.
#[derive(Clone, Copy, Debug, PartialEq, Eq, Structural)]
pub struct XCamError(pub XCamReturn);

/// What an operation of the binding returns.
pub type XCamResult<T> = Result<T, XCamError>;

impl XCamError {
    /// What `ok` returns: success for `NoError`, the value itself as the error
    /// for every other kind.
    pub open spec fn spec_ok(self) -> Result<(), XCamError> {
        if self.0 == XCamReturn::NoError {
            Ok(())
        } else {
            Err(self)
        }
    }

    /// Splits success from failure.
    pub fn ok(self) -> (r: Result<(), XCamError>)
        ensures
            r == self.spec_ok(),
    {
        match self.0 {
            XCamReturn::NoError => Ok(()),
            _ => Err(self),
        }
    }

    /// What a query returns whose native call reported this status and filled in
    /// `value`: the value on success, the status as the error otherwise.
    pub fn ok_with<T>(self, value: T) -> (r: Result<T, XCamError>)
        ensures
            r == (if self.0 == XCamReturn::NoError {
                Ok::<T, XCamError>(value)
            } else {
                Err(self)
            }),
    {
        match self.0 {
            XCamReturn::NoError => Ok(value),
            _ => Err(self),
        }
    }

    /// The status kind.
    pub fn kind(self) -> (kind: XCamReturn)
        ensures
            kind == self.0,
    {
        self.0
    }

    /// The status code of the kind.
    pub fn code(self) -> (code: i32)
        ensures
            code as int == self.0.spec_code(),
    {
        self.0.code()
    }

    /// The description of the kind, as an owned string.
    pub fn to_string(&self) -> (text: String)
        ensures
            text@ == self.0.spec_description(),
    {
        self.0.description().to_owned()
    }
}

impl From<i32> for XCamError {
    fn from(val: i32) -> (r: XCamError) {
        XCamError(XCamReturn::from_code(val))
    }
}

impl FromSpecImpl<i32> for XCamError {
    open spec fn obeys_from_spec() -> bool {
        true
    }

    open spec fn from_spec(val: i32) -> XCamError {
        XCamError(XCamReturn::of_code(val as int))
    }
}

impl From<XCamReturn> for XCamError {
    fn from(val: XCamReturn) -> (r: XCamError) {
        XCamError(val)
    }
}

impl FromSpecImpl<XCamReturn> for XCamError {
    open spec fn obeys_from_spec() -> bool {
        true
    }

    open spec fn from_spec(val: XCamReturn) -> XCamError {
        XCamError(val)
    }
}

/// Every kind is found again from its own code.
pub proof fn lemma_kind_of_its_code(kind: XCamReturn)
    ensures
        XCamReturn::of_code(kind.spec_code()) == kind,
{
}

/// A code that has a kind of its own is the code of that kind, and the codes with
/// a kind of their own are exactly 1, 0, -1 to -10, -20 and -21.
pub proof fn lemma_code_of_its_kind(code: int)
    ensures
        XCamReturn::of_code(code) != XCamReturn::Unknown ==> XCamReturn::of_code(code).spec_code()
            == code,
        XCamReturn::of_code(code) != XCamReturn::Unknown <==> (-10 <= code <= 1 || code == -20
            || code == -21),
{
}

/// A status code is a success exactly when it is zero, and a failure carries the
/// kind of the code.
pub proof fn lemma_ok_exactly_on_zero(code: int)
    ensures
        XCamError(XCamReturn::of_code(code)).spec_ok() is Ok <==> code == 0,
        code != 0 ==> XCamError(XCamReturn::of_code(code)).spec_ok() == Err::<(), XCamError>(
            XCamError(XCamReturn::of_code(code)),
        ),
{
}

} // verus!
