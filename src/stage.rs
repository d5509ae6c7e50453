//! Status codes and axis descriptions of the motorised stage controllers.
use vstd::prelude::*;

verus! {

/// Status code of a call that succeeded.
pub const MCL_SUCCESS: i32 = 0;
pub const MCL_GENERAL_ERROR: i32 = -1;
pub const MCL_DEV_ERROR: i32 = -2;
pub const MCL_DEV_NOT_ATTACHED: i32 = -3;
pub const MCL_USAGE_ERROR: i32 = -4;
pub const MCL_DEV_NOT_READY: i32 = -5;
pub const MCL_ARGUMENT_ERROR: i32 = -6;
pub const MCL_INVALID_AXIS: i32 = -7;
pub const MCL_INVALID_HANDLE: i32 = -8;

/// A controller's status, decoded.
#[derive(Debug, Clone, Copy, PartialEq, Eq, Structural)]
pub enum Errors {
    NoError,
    GeneralError,
    DevError,
    DevNotAttached,
    UsageError,
    DevNotReady,
    ArgumentError,
    InvalidAxis,
    InvalidHandle,
    UnknownError(i64),
}

/// The status that `code` stands for.
pub open spec fn status_of(code: i32) -> Errors {
    if code == MCL_SUCCESS {
        Errors::NoError
    } else if code == MCL_GENERAL_ERROR {
        Errors::GeneralError
    } else if code == MCL_DEV_ERROR {
        Errors::DevError
    } else if code == MCL_DEV_NOT_ATTACHED {
        Errors::DevNotAttached
    } else if code == MCL_USAGE_ERROR {
        Errors::UsageError
    } else if code == MCL_DEV_NOT_READY {
        Errors::DevNotReady
    } else if code == MCL_ARGUMENT_ERROR {
        Errors::ArgumentError
    } else if code == MCL_INVALID_AXIS {
        Errors::InvalidAxis
    } else if code == MCL_INVALID_HANDLE {
        Errors::InvalidHandle
    } else {
        Errors::UnknownError(code as i64)
    }
}

/// A status as a result: success, or the status as the error.
pub open spec fn status_result(e: Errors) -> Result<(), Errors> {
    match e {
        Errors::NoError => Ok(()),
        _ => Err(e),
    }
}

impl From<i32> for Errors {
    fn from(code: i32) -> (e: Errors) {
        if code == MCL_SUCCESS {
            Errors::NoError
        } else if code == MCL_GENERAL_ERROR {
            Errors::GeneralError
        } else if code == MCL_DEV_ERROR {
            Errors::DevError
        } else if code == MCL_DEV_NOT_ATTACHED {
            Errors::DevNotAttached
        } else if code == MCL_USAGE_ERROR {
            Errors::UsageError
        } else if code == MCL_DEV_NOT_READY {
            Errors::DevNotReady
        } else if code == MCL_ARGUMENT_ERROR {
            Errors::ArgumentError
        } else if code == MCL_INVALID_AXIS {
            Errors::InvalidAxis
        } else if code == MCL_INVALID_HANDLE {
            Errors::InvalidHandle
        } else {
            Errors::UnknownError(code as i64)
        }
    }
}

impl vstd::std_specs::convert::FromSpecImpl<i32> for Errors {
    open spec fn obeys_from_spec() -> bool {
        true
    }

    open spec fn from_spec(code: i32) -> Errors {
        status_of(code)
    }
}

impl From<Errors> for Result<(), Errors> {
    fn from(e: Errors) -> (r: Result<(), Errors>) {
        match e {
            Errors::NoError => Ok(()),
            e => Err(e),
        }
    }
}

impl vstd::std_specs::convert::FromSpecImpl<Errors> for Result<(), Errors> {
    open spec fn obeys_from_spec() -> bool {
        true
    }

    open spec fn from_spec(e: Errors) -> Result<(), Errors> {
        status_result(e)
    }
}

/// `value` when the status `error` is a success, else the status as an error.
/// The result is that for the status `e` that `error` converts to; for a
/// status code that is `status_of(code)`.
pub fn error_or<T, E: Into<Errors>>(error: E, value: T) -> (r: Result<T, Errors>)
    requires
        call_requires(E::into, (error,)),
    ensures
        exists|e: Errors|
            call_ensures(E::into, (error,), e) && r == match status_result(e) {
                Ok(()) => Ok(value),
                Err(s) => Err::<T, Errors>(s),
            },
{
    let status: Errors = error.into();
    assert(call_ensures(E::into, (error,), status));
    match Result::<(), Errors>::from(status) {
        Ok(()) => Ok(value),
        Err(e) => Err(e),
    }
}

/// Controller products.
pub enum Products {
    MicroDrive6,
    MicroDrive4,
    MicroDrive3,
    MicroDrive,
    NanoCyteMicroDrive,
    MicroDrive1,
    Unknown(u16),
}

/// A stage axis; `NoAxis` fills an unused axis of a multi-axis move.
#[derive(Debug, Clone, Copy, PartialEq, Eq, Structural)]
pub enum Axis {
    NoAxis,
    M1,
    M2,
    M3,
    M4,
    M5,
    M6,
}

impl Axis {
    /// The axis number the controller uses: 0 for `NoAxis`, else 1 to 6.
    pub open spec fn code_spec(&self) -> u32 {
        match self {
            Axis::NoAxis => 0,
            Axis::M1 => 1,
            Axis::M2 => 2,
            Axis::M3 => 3,
            Axis::M4 => 4,
            Axis::M5 => 5,
            Axis::M6 => 6,
        }
    }

    pub fn code(&self) -> (c: u32)
        ensures
            c == self.code_spec(),
    {
        match self {
            Axis::NoAxis => 0,
            Axis::M1 => 1,
            Axis::M2 => 2,
            Axis::M3 => 3,
            Axis::M4 => 4,
            Axis::M5 => 5,
            Axis::M6 => 6,
        }
    }
}

/// Whether bit `axis - 1` of `bitmap` is set.
pub open spec fn axis_bit(bitmap: u8, axis: u8) -> bool {
    1 <= axis <= 6 && (bitmap >> ((axis - 1) as u8)) & 1u8 == 1u8
}

/// Which axes a controller drives: bit `i - 1` is set for axis `Mi`.
#[derive(Debug, Clone, Copy)]
pub struct AxisInfo {
    bitmap: u8,
}

impl AxisInfo {
    pub closed spec fn bitmap_spec(&self) -> u8 {
        self.bitmap
    }

    pub fn new(bitmap: u8) -> (a: AxisInfo)
        ensures
            a.bitmap_spec() == bitmap,
    {
        AxisInfo { bitmap }
    }

    /// Whether axis `axis` (1 to 6) is available; other numbers are an
    /// argument error.
    pub fn axis_is_available(&self, axis: u8) -> (r: Result<bool, Errors>)
        ensures
            (axis < 1 || axis > 6) <==> r == Err::<bool, Errors>(Errors::ArgumentError),
            1 <= axis <= 6 ==> r == Ok::<bool, Errors>(axis_bit(self.bitmap_spec(), axis)),
    {
        if axis > 6 || axis < 1 {
            Err(Errors::ArgumentError)
        } else {
            let bitmap = self.bitmap;
            let shift: u8 = axis - 1;
            let set = bitmap & (1u8 << shift) != 0;
            assert(set == ((bitmap >> shift) & 1u8 == 1u8)) by (bit_vector)
                requires
                    shift < 8,
                    set == (bitmap & (1u8 << shift) != 0),
            ;
            Ok(set)
        }
    }

    #[allow(non_snake_case)]
    pub fn axis_M1_is_available(&self) -> (b: bool)
        ensures
            b == axis_bit(self.bitmap_spec(), 1),
    {
        match self.axis_is_available(1) {
            Ok(b) => b,
            Err(_) => false,
        }
    }
    #[allow(non_snake_case)]
    pub fn axis_M2_is_available(&self) -> (b: bool)
        ensures
            b == axis_bit(self.bitmap_spec(), 2),
    {
        match self.axis_is_available(2) {
            Ok(b) => b,
            Err(_) => false,
        }
    }
    #[allow(non_snake_case)]
    pub fn axis_M3_is_available(&self) -> (b: bool)
        ensures
            b == axis_bit(self.bitmap_spec(), 3),
    {
        match self.axis_is_available(3) {
            Ok(b) => b,
            Err(_) => false,
        }
    }
    #[allow(non_snake_case)]
    pub fn axis_M4_is_available(&self) -> (b: bool)
        ensures
            b == axis_bit(self.bitmap_spec(), 4),
    {
        match self.axis_is_available(4) {
            Ok(b) => b,
            Err(_) => false,
        }
    }
    #[allow(non_snake_case)]
    pub fn axis_M5_is_available(&self) -> (b: bool)
        ensures
            b == axis_bit(self.bitmap_spec(), 5),
    {
        match self.axis_is_available(5) {
            Ok(b) => b,
            Err(_) => false,
        }
    }
    #[allow(non_snake_case)]
    pub fn axis_M6_is_available(&self) -> (b: bool)
        ensures
            b == axis_bit(self.bitmap_spec(), 6),
    {
        match self.axis_is_available(6) {
            Ok(b) => b,
            Err(_) => false,
        }
    }
}

} // verus!
