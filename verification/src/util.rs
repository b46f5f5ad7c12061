//! Status codes of the device driver and the errors of the output channel.

use vstd::prelude::*;

verus! {

/// A failure status of the driver, decoded from its 32-bit result code.
#[derive(Debug, Clone, Copy, PartialEq, Eq, Structural)]
pub enum SdkError {
    FALSE,
    UNEXPECTED,
    NOTIMPL,
    OUTOFMEMORY,
    INVALIDARG,
    NOINTERFACE,
    POINTER,
    HANDLE,
    ABORT,
    FAIL,
    ACCESSDENIED,
    /// A status that has no name here; the driver's code is kept.
    DriverFailure(i32),
}

/// The status with which the driver reports success.
pub const STATUS_OK: i32 = 0;

/// The status with which the driver reports "no, but nothing went wrong".
pub const STATUS_FALSE: i32 = 1;

/// The status with which the driver reports a failure that it does not explain.
pub const STATUS_FAIL: i32 = -8;

impl SdkError {
    /// The result code that stands for this status.
    pub open spec fn spec_code(self) -> i32 {
        match self {
            SdkError::FALSE => 1i32,
            SdkError::UNEXPECTED => -0xFFFFi32,
            SdkError::NOTIMPL => -1i32,
            SdkError::OUTOFMEMORY => -2i32,
            SdkError::INVALIDARG => -3i32,
            SdkError::NOINTERFACE => -4i32,
            SdkError::POINTER => -5i32,
            SdkError::HANDLE => -6i32,
            SdkError::ABORT => -7i32,
            SdkError::FAIL => -8i32,
            SdkError::ACCESSDENIED => -9i32,
            SdkError::DriverFailure(code) => code,
        }
    }

    /// The status that a result code stands for: the one that the code names,
    /// and for a code that names none the failure that carries the code.
    pub open spec fn spec_from(value: i32) -> SdkError {
        if value == STATUS_FALSE {
            SdkError::FALSE
        } else if value == -0xFFFFi32 {
            SdkError::UNEXPECTED
        } else if value == -1i32 {
            SdkError::NOTIMPL
        } else if value == -2i32 {
            SdkError::OUTOFMEMORY
        } else if value == -3i32 {
            SdkError::INVALIDARG
        } else if value == -4i32 {
            SdkError::NOINTERFACE
        } else if value == -5i32 {
            SdkError::POINTER
        } else if value == -6i32 {
            SdkError::HANDLE
        } else if value == -7i32 {
            SdkError::ABORT
        } else if value == -8i32 {
            SdkError::FAIL
        } else if value == -9i32 {
            SdkError::ACCESSDENIED
        } else {
            SdkError::DriverFailure(value)
        }
    }

    /// Whether this is an error that decoding gives: a named status, or a
    /// kept code that names none.
    pub open spec fn is_decoded(self) -> bool {
        self matches SdkError::DriverFailure(code) ==> Self::spec_from(code) == self
    }

    pub fn code(self) -> (c: i32)
        ensures
            c == self.spec_code(),
    {
        match self {
            SdkError::FALSE => 1,
            SdkError::UNEXPECTED => -0xFFFF,
            SdkError::NOTIMPL => -1,
            SdkError::OUTOFMEMORY => -2,
            SdkError::INVALIDARG => -3,
            SdkError::NOINTERFACE => -4,
            SdkError::POINTER => -5,
            SdkError::HANDLE => -6,
            SdkError::ABORT => -7,
            SdkError::FAIL => -8,
            SdkError::ACCESSDENIED => -9,
            SdkError::DriverFailure(code) => code,
        }
    }

    pub fn from(value: i32) -> (e: SdkError)
        ensures
            e == Self::spec_from(value),
    {
        if value == STATUS_FALSE {
            SdkError::FALSE
        } else if value == -0xFFFF {
            SdkError::UNEXPECTED
        } else if value == -1 {
            SdkError::NOTIMPL
        } else if value == -2 {
            SdkError::OUTOFMEMORY
        } else if value == -3 {
            SdkError::INVALIDARG
        } else if value == -4 {
            SdkError::NOINTERFACE
        } else if value == -5 {
            SdkError::POINTER
        } else if value == -6 {
            SdkError::HANDLE
        } else if value == -7 {
            SdkError::ABORT
        } else if value == -8 {
            SdkError::FAIL
        } else if value == -9 {
            SdkError::ACCESSDENIED
        } else {
            SdkError::DriverFailure(value)
        }
    }

    pub fn is_false(value: i32) -> (b: bool)
        ensures
            b == (value == STATUS_FALSE),
    {
        value == STATUS_FALSE
    }

    /// Whether a result code is one of success, plain or qualified.
    pub fn succeeded(value: i32) -> (b: bool)
        ensures
            b == (value >= 0),
    {
        value >= 0
    }

    pub fn is_ok(value: i32) -> (b: bool)
        ensures
            b == (value == STATUS_OK),
    {
        value == STATUS_OK
    }

    /// What the status of a step through a list of the driver means: `Ok(true)`
    /// for an item, `Ok(false)` for the end of the list, and the failure otherwise.
    pub open spec fn spec_iteration_step(status: i32) -> Result<bool, SdkError> {
        if status == STATUS_OK {
            Ok(true)
        } else if status == STATUS_FALSE {
            Ok(false)
        } else {
            Err(Self::spec_from(status))
        }
    }

    pub fn iteration_step(status: i32) -> (r: Result<bool, SdkError>)
        ensures
            r == Self::spec_iteration_step(status),
    {
        if Self::is_ok(status) {
            Ok(true)
        } else if Self::is_false(status) {
            Ok(false)
        } else {
            Err(Self::from(status))
        }
    }

    /// What a driver call that hands back `value` beside its status `r` amounts to.
    pub open spec fn spec_result_or<T>(r: i32, value: T) -> Result<T, SdkError> {
        if r == STATUS_OK {
            Ok(value)
        } else {
            Err(Self::spec_from(r))
        }
    }

    pub fn result<T: Default>(r: i32) -> (res: Result<T, SdkError>)
        ensures
            r == STATUS_OK ==> res is Ok && call_ensures(T::default, (), res->Ok_0),
            r != STATUS_OK ==> res == Err::<T, SdkError>(Self::spec_from(r)),
    {
        if Self::is_ok(r) {
            Ok(T::default())
        } else {
            Err(Self::from(r))
        }
    }

    pub fn result_or<T>(r: i32, def: T) -> (res: Result<T, SdkError>)
        ensures
            res == Self::spec_result_or(r, def),
    {
        if Self::is_ok(r) {
            Ok(def)
        } else {
            Err(Self::from(r))
        }
    }

    pub fn result_or_else<T, F: FnOnce() -> T>(r: i32, ok: F) -> (res: Result<T, SdkError>)
        requires
            r == STATUS_OK ==> ok.requires(()),
        ensures
            r == STATUS_OK ==> res is Ok && ok.ensures((), res->Ok_0),
            r != STATUS_OK ==> res == Err::<T, SdkError>(Self::spec_from(r)),
    {
        if Self::is_ok(r) {
            Ok(ok())
        } else {
            Err(Self::from(r))
        }
    }
}

/// No status of the driver is lost in decoding: the error that a code
/// stands for has that code, so two different codes never give the same
/// error.
pub proof fn lemma_status_code_round_trip(status: i32, other: i32)
    ensures
        SdkError::spec_from(status).spec_code() == status,
        status != other ==> SdkError::spec_from(status) != SdkError::spec_from(other),
        SdkError::spec_from(status).is_decoded(),
{
}

/// Decoding the code of an error that came out of decoding gives that error
/// back.
pub proof fn lemma_status_decode_round_trip(e: SdkError)
    requires
        e.is_decoded(),
    ensures
        SdkError::spec_from(e.spec_code()) == e,
{
}

/// Why an operation on an output channel or on a frame was refused.
#[derive(Debug, Clone, Copy, PartialEq, Eq, Structural)]
pub enum OutputError {
    /// The capability is already claimed.
    AccessDenied,
    /// A buffer of the wrong size, or a frame geometry that cannot be used.
    InvalidArgument,
    /// The operation does not fit the state of the channel.
    InvalidState,
    /// The frame holds no bytes.
    Unavailable,
    /// The driver answered with this status, which is not success.
    DriverFailure(i32),
}

impl OutputError {
    /// What a driver call that hands back `value` beside `status` amounts to.
    pub open spec fn spec_check<T>(status: i32, value: T) -> Result<T, OutputError> {
        if status == STATUS_OK {
            Ok(value)
        } else {
            Err(OutputError::DriverFailure(status))
        }
    }

    /// Turns the answer of a driver call into a result: `value` on success,
    /// otherwise the failure with the driver's status in it.
    pub fn check<T>(status: i32, value: T) -> (res: Result<T, OutputError>)
        ensures
            res == Self::spec_check(status, value),
    {
        if status == STATUS_OK {
            Ok(value)
        } else {
            Err(OutputError::DriverFailure(status))
        }
    }

    /// The driver status that corresponds to this error.
    pub open spec fn spec_sdk_error(self) -> SdkError {
        match self {
            OutputError::AccessDenied => SdkError::ACCESSDENIED,
            OutputError::InvalidArgument => SdkError::INVALIDARG,
            OutputError::InvalidState => SdkError::FALSE,
            OutputError::Unavailable => SdkError::FALSE,
            OutputError::DriverFailure(status) => SdkError::spec_from(status),
        }
    }

    pub fn sdk_error(self) -> (e: SdkError)
        ensures
            e == self.spec_sdk_error(),
    {
        match self {
            OutputError::AccessDenied => SdkError::ACCESSDENIED,
            OutputError::InvalidArgument => SdkError::INVALIDARG,
            OutputError::InvalidState => SdkError::FALSE,
            OutputError::Unavailable => SdkError::FALSE,
            OutputError::DriverFailure(status) => SdkError::from(status),
        }
    }
}

} // verus!
