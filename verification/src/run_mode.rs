//! How a run of the loop is bounded.
use crate::errno::EINVAL;
use vstd::prelude::*;

verus! {

/// How long a run keeps going and whether its poll may wait for events.
#[derive(Debug, Clone, Copy, PartialEq, Eq, Structural)]
pub enum RunMode {
    /// Run until nothing keeps the loop alive, or until it is told to stop.
    Default,
    /// Wait for one batch of events, handle it and return.
    Once,
    /// Handle the events that are ready now, without waiting, and return.
    NoWait,
}

impl RunMode {
    /// The number that stands for this mode outside the library.
    pub open spec fn raw(self) -> u32 {
        match self {
            RunMode::Default => 0,
            RunMode::Once => 1,
            RunMode::NoWait => 2,
        }
    }

    /// The mode that `raw` stands for, or `EINVAL` if it stands for none.
    pub open spec fn parse(raw: u32) -> Result<RunMode, i32> {
        if raw == 0 {
            Ok(RunMode::Default)
        } else if raw == 1 {
            Ok(RunMode::Once)
        } else if raw == 2 {
            Ok(RunMode::NoWait)
        } else {
            Err(EINVAL)
        }
    }

    /// Returns the number that stands for this mode outside the library.
    pub fn to_raw(self) -> (raw: u32)
        ensures
            raw == self.raw(),
            RunMode::parse(raw) == Ok::<RunMode, i32>(self),
    {
        match self {
            RunMode::Default => 0,
            RunMode::Once => 1,
            RunMode::NoWait => 2,
        }
    }

    /// Reads a mode from its number. Any number but those of the three modes
    /// is refused with `EINVAL`.
    pub fn from_raw(raw: u32) -> (r: Result<RunMode, i32>)
        ensures
            r == RunMode::parse(raw),
            r is Ok <==> raw <= 2,
            r matches Ok(mode) ==> mode.raw() == raw,
            r matches Err(e) ==> e == EINVAL,
    {
        if raw == 0 {
            Ok(RunMode::Default)
        } else if raw == 1 {
            Ok(RunMode::Once)
        } else if raw == 2 {
            Ok(RunMode::NoWait)
        } else {
            Err(EINVAL)
        }
    }

    /// Every mode survives the way out and back: reading the number of a mode
    /// gives that mode again.
    pub proof fn law_raw_round_trip(mode: RunMode)
        ensures
            RunMode::parse(mode.raw()) == Ok::<RunMode, i32>(mode),
    {
    }

    /// A number that reads as a mode is the number of that mode, so no two
    /// numbers read as the same mode.
    pub proof fn law_parse_round_trip(raw: u32)
        ensures
            RunMode::parse(raw) matches Ok(mode) ==> mode.raw() == raw,
            RunMode::parse(raw) is Err <==> raw > 2,
    {
    }
}

} // verus!
