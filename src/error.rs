//! The ways in which an operation on the two control surfaces fails.

use vstd::prelude::*;

verus! {

/// A failed operation.
#[derive(Debug)]
pub enum NvctlError {
    /// The power pseudo-file could not be opened, read or written; `cause`
    /// describes the underlying I/O error.
    PowerSurfaceUnavailable { cause: String },
    /// The power pseudo-file held neither "ON" nor "OFF" at its end; `state` is
    /// its trimmed content.
    UnknownPowerState { state: String },
    /// The selector helper exited with a non-zero status (`code`), or was
    /// terminated by a signal (`code` is `None`).
    SelectorFailed { code: Option<i32> },
    /// The selector helper named neither "intel" nor "nvidia"; `name` is its
    /// trimmed output.
    UnrecognizedGpuName { name: String },
}

/// The mathematical value of an `NvctlError`: texts as character sequences.
pub enum Failure {
    PowerSurfaceUnavailable(Seq<char>),
    UnknownPowerState(Seq<char>),
    SelectorFailed(Option<i32>),
    UnrecognizedGpuName(Seq<char>),
}

impl View for NvctlError {
    type V = Failure;

    open spec fn view(&self) -> Failure {
        match self {
            NvctlError::PowerSurfaceUnavailable { cause } => Failure::PowerSurfaceUnavailable(cause@),
            NvctlError::UnknownPowerState { state } => Failure::UnknownPowerState(state@),
            NvctlError::SelectorFailed { code } => Failure::SelectorFailed(*code),
            NvctlError::UnrecognizedGpuName { name } => Failure::UnrecognizedGpuName(name@),
        }
    }
}

/// A result with its error seen through its view.
pub open spec fn outcome<T>(r: Result<T, NvctlError>) -> Result<T, Failure> {
    match r {
        Ok(v) => Ok(v),
        Err(e) => Err(e@),
    }
}

} // verus!
