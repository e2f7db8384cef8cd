//! Result codes for reporting errors across the FFI boundary.
//!
//! Catching a panic itself happens outside the library (it needs
//! `std::panic`); what is decided around it stands here: which message a
//! caught payload reports, and the result that a call or a panic gives.

use vstd::prelude::*;

verus! {

/// Error codes for cross-FFI error reporting.
#[derive(Debug, Clone, Copy, PartialEq, Eq, Structural)]
pub enum MojoError {
    Success,
    Panic,
    InvalidArg,
    ShapeMismatch,
    OutOfMemory,
    Other,
}

impl MojoError {
    /// The `u32` code that Mojo reads.
    pub open spec fn spec_code(self) -> u32 {
        match self {
            MojoError::Success => 0,
            MojoError::Panic => 1,
            MojoError::InvalidArg => 2,
            MojoError::ShapeMismatch => 3,
            MojoError::OutOfMemory => 4,
            MojoError::Other => 255,
        }
    }

    /// The `u32` code that Mojo reads.
    pub fn code(self) -> (c: u32)
        ensures
            c == self.spec_code(),
    {
        match self {
            MojoError::Success => 0,
            MojoError::Panic => 1,
            MojoError::InvalidArg => 2,
            MojoError::ShapeMismatch => 3,
            MojoError::OutOfMemory => 4,
            MojoError::Other => 255,
        }
    }
}

/// Distinct error kinds have distinct codes, and only `Success` has code 0.
pub proof fn lemma_error_code_injective(a: MojoError, b: MojoError)
    ensures
        a.spec_code() == b.spec_code() <==> a == b,
        a.spec_code() == 0 <==> a == MojoError::Success,
{
}

/// A result that can cross the FFI boundary: Mojo reads `error` first; when
/// it is `Success`, `value` holds the result.
#[derive(Debug)]
pub struct MojoResult<T> {
    pub error: MojoError,
    pub value: Option<T>,
}

impl<T> MojoResult<T> {
    /// The successful result carrying `value`.
    pub open spec fn spec_ok(value: T) -> MojoResult<T> {
        MojoResult { error: MojoError::Success, value: Some(value) }
    }

    /// The failed result with error `code` and no value.
    pub open spec fn spec_err(code: MojoError) -> MojoResult<T> {
        MojoResult { error: code, value: None }
    }

    pub open spec fn spec_is_ok(&self) -> bool {
        self.error == MojoError::Success
    }

    /// A successful result holds its value.
    pub open spec fn wf(&self) -> bool {
        self.spec_is_ok() ==> self.value is Some
    }

    pub fn ok(value: T) -> (r: Self)
        ensures
            r == Self::spec_ok(value),
            r.error == MojoError::Success,
            r.value == Some(value),
    {
        MojoResult { error: MojoError::Success, value: Some(value) }
    }

    /// The failed result with error `code`; `code` is an error, not
    /// `Success`.
    pub fn err(code: MojoError) -> (r: Self)
        requires
            code != MojoError::Success,
        ensures
            r == Self::spec_err(code),
            r.error == code,
            r.value is None,
    {
        MojoResult { error: code, value: None }
    }

    pub fn is_ok(&self) -> (b: bool)
        ensures
            b == self.spec_is_ok(),
    {
        self.error == MojoError::Success
    }

    /// Extract the value of a successful result.
    pub fn unwrap(self) -> (v: T)
        requires
            self.spec_is_ok(),
            self.wf(),
        ensures
            self.value == Some(v),
    {
        self.value.unwrap()
    }
}

/// A successful result is ok, holds its value and unwraps to it; a failed
/// result carries the error it was made with, is not ok and holds no value.
/// Either way a result that is ok has a value.
pub proof fn lemma_result_roundtrip<T>(value: T, code: MojoError)
    requires
        code != MojoError::Success,
    ensures
        MojoResult::<T>::spec_ok(value).spec_is_ok(),
        MojoResult::<T>::spec_ok(value).value == Some(value),
        MojoResult::<T>::spec_ok(value).wf(),
        MojoResult::<T>::spec_err(code).error == code,
        MojoResult::<T>::spec_err(code).error.spec_code() == code.spec_code(),
        !MojoResult::<T>::spec_err(code).spec_is_ok(),
        MojoResult::<T>::spec_err(code).value is None,
        MojoResult::<T>::spec_err(code).wf(),
{
}

/// Failed results made with different errors differ, and keep the codes
/// apart: Mojo reads back exactly the error that was reported.
pub proof fn lemma_err_distinguishes<T>(a: MojoError, b: MojoError)
    requires
        a != MojoError::Success,
        b != MojoError::Success,
    ensures
        (MojoResult::<T>::spec_err(a) == MojoResult::<T>::spec_err(b)) <==> a == b,
        (MojoResult::<T>::spec_err(a).error.spec_code() == MojoResult::<T>::spec_err(b).error.spec_code())
            <==> a == b,
{
    lemma_error_code_injective(a, b);
    lemma_error_code_injective(MojoResult::<T>::spec_err(a).error, MojoResult::<T>::spec_err(b).error);
}

/// The result of a call that returned `outcome`, or panicked when it is
/// `None`.
pub open spec fn spec_call_result<T>(outcome: Option<T>) -> MojoResult<T> {
    match outcome {
        Some(v) => MojoResult::spec_ok(v),
        None => MojoResult::spec_err(MojoError::Panic),
    }
}

/// The result a call gives: its value when it returned, the `Panic` error
/// when it panicked (`None`).
pub fn call_result<T>(outcome: Option<T>) -> (r: MojoResult<T>)
    ensures
        r == spec_call_result(outcome),
{
    match outcome {
        Some(v) => MojoResult::ok(v),
        None => MojoResult::err(MojoError::Panic),
    }
}

/// The value a call gives: what it returned, or `T::default()` when it
/// panicked (`None`).
pub fn call_value<T: Default>(outcome: Option<T>) -> (r: T)
    ensures
        outcome matches Some(v) ==> r == v,
        outcome is None ==> call_ensures(T::default, (), r),
{
    match outcome {
        Some(v) => v,
        None => T::default(),
    }
}

/// The message a caught panic reports: its `&str` payload if it has one,
/// else its `String` payload, else "unknown panic".
pub fn panic_message<'a>(str_payload: Option<&'a str>, string_payload: Option<&'a str>) -> (m: &'a str)
    ensures
        m@ == match str_payload {
            Some(s) => s@,
            None => match string_payload {
                Some(s) => s@,
                None => "unknown panic"@,
            },
        },
{
    match str_payload {
        Some(s) => s,
        None => match string_payload {
            Some(s) => s,
            None => "unknown panic",
        },
    }
}

} // verus!
