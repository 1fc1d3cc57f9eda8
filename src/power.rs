//! The power controller: the tokens written to the power pseudo-file and the
//! classification of what it reads back.

use vstd::prelude::*;
use crate::error::{Failure, NvctlError, outcome};
use crate::text::{ends_with, has_suffix, trim, trim_end, trim_start, trimmed};

verus! {

/// The power state of the discrete GPU.
#[derive(Clone, Copy, Debug, PartialEq, Eq, Structural)]
pub enum PowerState {
    On,
    Off,
}

/// The token that requests `state` when written to the power pseudo-file.
pub open spec fn power_token_of(state: PowerState) -> Seq<char> {
    match state {
        PowerState::On => "ON"@,
        PowerState::Off => "OFF"@,
    }
}

/// The word printed for `state` by a query.
pub open spec fn power_name_of(state: PowerState) -> Seq<char> {
    match state {
        PowerState::On => "on"@,
        PowerState::Off => "off"@,
    }
}

/// What a query makes of the pseudo-file's contents `c`: the trimmed text
/// ending in "ON" is on, ending in "OFF" is off, and anything else is an
/// unknown state that carries the trimmed text.
pub open spec fn classify_power(c: Seq<char>) -> Result<PowerState, Failure> {
    let t = trimmed(c);
    if has_suffix(t, "ON"@) {
        Ok(PowerState::On)
    } else if has_suffix(t, "OFF"@) {
        Ok(PowerState::Off)
    } else {
        Err(Failure::UnknownPowerState(t))
    }
}

impl PowerState {
    /// The word printed for this state: "on" or "off".
    pub fn name(&self) -> (r: &'static str)
        ensures
            r@ == power_name_of(*self),
    {
        match self {
            PowerState::On => "on",
            PowerState::Off => "off",
        }
    }
}

/// The token to write to the power pseudo-file to request `state`.
pub fn power_token(state: PowerState) -> (r: &'static str)
    ensures
        r@ == power_token_of(state),
{
    match state {
        PowerState::On => "ON",
        PowerState::Off => "OFF",
    }
}

/// The token that turns the discrete GPU on: "ON".
pub fn power_on() -> (r: &'static str)
    ensures
        r@ == power_token_of(PowerState::On),
        r@ == "ON"@,
{
    power_token(PowerState::On)
}

/// The token that turns the discrete GPU off: "OFF".
pub fn power_off() -> (r: &'static str)
    ensures
        r@ == power_token_of(PowerState::Off),
        r@ == "OFF"@,
{
    power_token(PowerState::Off)
}

/// Classifies the contents of the power pseudo-file.
pub fn parse_power_state(contents: &str) -> (r: Result<PowerState, NvctlError>)
    ensures
        outcome(r) == classify_power(contents@),
{
    let t = trim(contents);
    if ends_with(t, "ON") {
        Ok(PowerState::On)
    } else if ends_with(t, "OFF") {
        Ok(PowerState::Off)
    } else {
        Err(NvctlError::UnknownPowerState { state: t.to_owned() })
    }
}

/// The outcome of a power query, given the outcome of reading the pseudo-file:
/// its contents, or a description of the I/O error.
pub fn power_query(read: Result<String, String>) -> (r: Result<PowerState, NvctlError>)
    ensures
        match read {
            Ok(contents) => outcome(r) == classify_power(contents@),
            Err(cause) => outcome(r) == Err::<PowerState, Failure>(
                Failure::PowerSurfaceUnavailable(cause@),
            ),
        },
{
    match read {
        Ok(contents) => parse_power_state(contents.as_str()),
        Err(cause) => Err(NvctlError::PowerSurfaceUnavailable { cause }),
    }
}

/// The outcome of writing a token to the power pseudo-file, given the outcome
/// of the write: nothing, or a description of the I/O error.
pub fn power_write_result(written: Result<(), String>) -> (r: Result<(), NvctlError>)
    ensures
        match written {
            Ok(()) => outcome(r) == Ok::<(), Failure>(()),
            Err(cause) => outcome(r) == Err::<(), Failure>(Failure::PowerSurfaceUnavailable(cause@)),
        },
{
    match written {
        Ok(()) => Ok(()),
        Err(cause) => Err(NvctlError::PowerSurfaceUnavailable { cause }),
    }
}

/// A query of a power pseudo-file that holds what was last written to it
/// reports the state that the write requested: "ON" reads back as on, "OFF" as
/// off.
pub proof fn lemma_query_reads_back_write(state: PowerState)
    ensures
        classify_power(power_token_of(state)) == Ok::<PowerState, Failure>(state),
{
    reveal_strlit("ON");
    reveal_strlit("OFF");
    let t = power_token_of(state);
    assert(trim_start(t) == t);
    assert(trim_end(t) == t);
    assert(trimmed(t) == t);
    match state {
        PowerState::On => {
            assert(t.subrange(0, 2) =~= "ON"@);
        },
        PowerState::Off => {
            assert(t.subrange(1, 3)[0] != ("ON"@)[0]);
            assert(!has_suffix(t, "ON"@));
            assert(t.subrange(0, 3) =~= "OFF"@);
        },
    }
}

} // verus!
