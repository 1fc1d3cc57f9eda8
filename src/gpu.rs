//! The GPU selector: the arguments handed to the selector helper and the
//! classification of its exit status and output.

use vstd::prelude::*;
use crate::error::{Failure, NvctlError, outcome};
use crate::text::{decode_lossy, lossy_utf8, same_text, trim, trimmed};

verus! {

/// The GPU in use.
#[derive(Clone, Copy, Debug, PartialEq, Eq, Structural)]
pub enum Gpu {
    Intel,
    Nvidia,
}

/// The name of `gpu`: the helper's argument that switches to it, and the word
/// that the helper prints and a query prints for it.
pub open spec fn gpu_name_of(gpu: Gpu) -> Seq<char> {
    match gpu {
        Gpu::Intel => "intel"@,
        Gpu::Nvidia => "nvidia"@,
    }
}

/// What an exit status makes of a helper run: exit code 0 succeeds; another
/// code, or termination by a signal (no code), is a selector failure.
pub open spec fn status_outcome(code: Option<i32>) -> Result<(), Failure> {
    if code == Some(0i32) {
        Ok(())
    } else {
        Err(Failure::SelectorFailed(code))
    }
}

/// What a query makes of the helper's decoded output: "intel" or "nvidia"
/// once trimmed, else an unrecognized name that carries the trimmed text.
pub open spec fn classify_gpu(out: Seq<char>) -> Result<Gpu, Failure> {
    let t = trimmed(out);
    if t == "intel"@ {
        Ok(Gpu::Intel)
    } else if t == "nvidia"@ {
        Ok(Gpu::Nvidia)
    } else {
        Err(Failure::UnrecognizedGpuName(t))
    }
}

/// What a query makes of a helper run: the exit status is checked first, and
/// the output, decoded lossily, is classified only after a success.
pub open spec fn gpu_query_outcome(code: Option<i32>, stdout: Seq<u8>) -> Result<Gpu, Failure> {
    match status_outcome(code) {
        Ok(()) => classify_gpu(lossy_utf8(stdout)),
        Err(f) => Err(f),
    }
}

impl Gpu {
    /// The name of this GPU: "intel" or "nvidia".
    pub fn name(&self) -> (r: &'static str)
        ensures
            r@ == gpu_name_of(*self),
    {
        match self {
            Gpu::Intel => "intel",
            Gpu::Nvidia => "nvidia",
        }
    }
}

/// The helper's argument that switches to the Intel GPU: "intel".
pub fn gpu_intel() -> (r: &'static str)
    ensures
        r@ == gpu_name_of(Gpu::Intel),
        r@ == "intel"@,
{
    Gpu::Intel.name()
}

/// The helper's argument that switches to the Nvidia GPU: "nvidia".
pub fn gpu_nvidia() -> (r: &'static str)
    ensures
        r@ == gpu_name_of(Gpu::Nvidia),
        r@ == "nvidia"@,
{
    Gpu::Nvidia.name()
}

/// The helper's argument that asks which GPU is in use: "query".
pub fn gpu_query_argument() -> (r: &'static str)
    ensures
        r@ == "query"@,
{
    "query"
}

/// The outcome of a helper run, given its exit code (`None` when a signal
/// ended it).
pub fn selector_status(code: Option<i32>) -> (r: Result<(), NvctlError>)
    ensures
        outcome(r) == status_outcome(code),
{
    match code {
        Some(0i32) => Ok(()),
        _ => Err(NvctlError::SelectorFailed { code }),
    }
}

/// Classifies the helper's output to a query, once decoded.
pub fn parse_gpu_name(out: &str) -> (r: Result<Gpu, NvctlError>)
    ensures
        outcome(r) == classify_gpu(out@),
{
    let t = trim(out);
    if same_text(t, "intel") {
        Ok(Gpu::Intel)
    } else if same_text(t, "nvidia") {
        Ok(Gpu::Nvidia)
    } else {
        Err(NvctlError::UnrecognizedGpuName { name: t.to_owned() })
    }
}

/// The outcome of a GPU query, given the helper's exit code and the bytes it
/// printed.
pub fn gpu_query(code: Option<i32>, stdout: &[u8]) -> (r: Result<Gpu, NvctlError>)
    ensures
        outcome(r) == gpu_query_outcome(code, stdout@),
{
    match selector_status(code) {
        Ok(()) => {
            let out = decode_lossy(stdout);
            parse_gpu_name(out.as_str())
        },
        Err(e) => Err(e),
    }
}

} // verus!
