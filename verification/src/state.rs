//! The loop as a mathematical state, and each operation as a function on it.
//!
//! [`LoopState`] is what a [`crate::Loop`] is to its callers. Every operation
//! of the loop is stated here as a function from the state before to the state
//! after, and the executable loop is proved to follow it.
use crate::errno::EINVAL;
use crate::handle::{earliest_due, some_live, HandleState};
use crate::run_mode::RunMode;
use vstd::prelude::*;

verus! {

/// For how long a poll may wait when no event is ready.
#[derive(Debug, Clone, Copy, PartialEq, Eq, Structural)]
pub enum Timeout {
    /// At most this long, in the units of the loop's clock. Zero means that
    /// the poll returns at once.
    AtMost(u64),
    /// Until an event is ready.
    Forever,
}

/// What the caller of a run does next.
#[derive(Debug, Clone, Copy, PartialEq, Eq, Structural)]
pub enum Step {
    /// Poll for ready events, waiting no longer than the timeout, dispatch
    /// them, and report back with `resume`.
    Poll(Timeout),
    /// The run is over.
    Done,
}

/// The state of a loop.
#[verifier::ext_equal]
pub struct LoopState {
    /// The loop has not been torn down.
    pub open: bool,
    /// The mode of the run in progress, if there is one.
    pub running: Option<RunMode>,
    /// The run in progress was asked to stop.
    pub stopping: bool,
    /// The cached time.
    pub now: u64,
    /// One slot for each handle ever registered, in order of registration;
    /// the slot of a handle that has left is empty.
    pub handles: Seq<Option<HandleState>>,
}

impl LoopState {
    /// What holds of every loop: a closed loop has no handles and no run, and
    /// only a run in progress can have been asked to stop.
    pub open spec fn consistent(self) -> bool {
        &&& !self.open ==> self.handles.len() == 0 && self.running is None
        &&& self.stopping ==> self.running is Some
    }

    /// A newly made loop: open, at rest, with no handles, its clock at
    /// `sample`.
    pub open spec fn created(sample: u64) -> LoopState {
        LoopState {
            open: true,
            running: None,
            stopping: false,
            now: sample,
            handles: Seq::empty(),
        }
    }

    /// The outcome of making a loop when the backend's set-up reported
    /// `status`: a new loop for zero, else the status as the error.
    pub open spec fn construct(status: i32, sample: u64) -> Result<LoopState, i32> {
        if status == 0 {
            Ok(LoopState::created(sample))
        } else {
            Err(status)
        }
    }

    /// Whether some handle keeps the loop alive.
    pub open spec fn alive(self) -> bool {
        some_live(self.handles)
    }

    /// The state after the clock was refreshed from `sample`. The clock never
    /// runs backwards, and a closed loop keeps the time it had.
    pub open spec fn clock(self, sample: u64) -> LoopState {
        if self.open && sample > self.now {
            LoopState { now: sample, ..self }
        } else {
            self
        }
    }

    /// The state after a request to stop: it marks the run in progress and
    /// changes nothing when there is none.
    pub open spec fn stop(self) -> LoopState {
        if self.running is Some {
            LoopState { stopping: true, ..self }
        } else {
            self
        }
    }

    /// The state after teardown: closed, with every handle detached and any
    /// run given up. The clock keeps its time.
    pub open spec fn close(self) -> LoopState {
        LoopState {
            open: false,
            running: None,
            stopping: false,
            now: self.now,
            handles: Seq::empty(),
        }
    }

    /// The state after a handle was registered. A closed loop takes none.
    pub open spec fn register(self) -> LoopState {
        if self.open {
            LoopState { handles: self.handles.push(Some(HandleState::initial())), ..self }
        } else {
            self
        }
    }

    /// The state of the handle with index `h`, if it is attached.
    pub open spec fn slot(self, h: int) -> Option<HandleState> {
        if 0 <= h < self.handles.len() {
            self.handles[h]
        } else {
            None
        }
    }

    /// The state in which the handle with index `h` has state `next`. A handle
    /// that is not attached stays so.
    pub open spec fn put(self, h: int, next: HandleState) -> LoopState {
        if self.slot(h) is Some {
            LoopState { handles: self.handles.update(h, Some(next)), ..self }
        } else {
            self
        }
    }

    /// The state after handle `h` was told to count, or not to count, towards
    /// the liveness of the loop.
    pub open spec fn reference(self, h: int, on: bool) -> LoopState {
        match self.slot(h) {
            Some(state) => self.put(h, HandleState { referenced: on, ..state }),
            None => self,
        }
    }

    /// The state after handle `h` reported that it is, or is not, active.
    pub open spec fn activity(self, h: int, on: bool) -> LoopState {
        match self.slot(h) {
            Some(state) => self.put(h, HandleState { active: on, ..state }),
            None => self,
        }
    }

    /// The state after handle `h` reported that it is, or is not, closing.
    pub open spec fn closing(self, h: int, on: bool) -> LoopState {
        match self.slot(h) {
            Some(state) => self.put(h, HandleState { closing: on, ..state }),
            None => self,
        }
    }

    /// The state after handle `h` asked for service at `at`, or withdrew its
    /// request.
    pub open spec fn due(self, h: int, at: Option<u64>) -> LoopState {
        match self.slot(h) {
            Some(state) => self.put(h, HandleState { due: at, ..state }),
            None => self,
        }
    }

    /// The state after handle `h` left the loop.
    pub open spec fn detach(self, h: int) -> LoopState {
        if self.slot(h) is Some {
            LoopState { handles: self.handles.update(h, None), ..self }
        } else {
            self
        }
    }

    /// For how long the next poll of a run in `mode` may wait: not at all in
    /// `NoWait`; else until the earliest time at which a handle needs service,
    /// and without limit when no handle asks for any.
    pub open spec fn timeout(self, mode: RunMode) -> Timeout {
        if mode == RunMode::NoWait {
            Timeout::AtMost(0)
        } else {
            match earliest_due(self.handles) {
                Some(t) => Timeout::AtMost(
                    if t > self.now {
                        (t - self.now) as u64
                    } else {
                        0
                    },
                ),
                None => Timeout::Forever,
            }
        }
    }

    /// The state when a run is over: at rest, with the request to stop
    /// forgotten.
    pub open spec fn at_rest(self) -> LoopState {
        LoopState { running: None, stopping: false, ..self }
    }

    /// Whether a run may begin: the loop is open and no run is in progress.
    pub open spec fn can_run(self) -> bool {
        self.open && self.running is None
    }

    /// The state after a run in `mode` was asked for at time `sample`.
    ///
    /// A loop that is closed or already running refuses and stays as it is.
    /// Otherwise the clock is refreshed; a loop that nothing keeps alive stays
    /// at rest, and any other enters the run.
    pub open spec fn begin(self, mode: RunMode, sample: u64) -> LoopState {
        if !self.can_run() {
            self
        } else if self.clock(sample).alive() {
            LoopState { running: Some(mode), ..self.clock(sample) }
        } else {
            self.clock(sample)
        }
    }

    /// What the caller is told when a run in `mode` is asked for at time
    /// `sample`: `EINVAL` if the loop is closed or already running, `Done` if
    /// nothing keeps it alive, else to poll.
    pub open spec fn begin_step(self, mode: RunMode, sample: u64) -> Result<Step, i32> {
        if !self.can_run() {
            Err(EINVAL)
        } else if self.clock(sample).alive() {
            Ok(Step::Poll(self.clock(sample).timeout(mode)))
        } else {
            Ok(Step::Done)
        }
    }

    /// Whether the run in progress goes on to another poll after one that
    /// reported `status` at time `sample`: only a `Default` run does, after a
    /// poll that succeeded, while something keeps the loop alive and nobody
    /// asked it to stop.
    pub open spec fn continues(self, status: i32, sample: u64) -> bool {
        &&& self.running == Some(RunMode::Default)
        &&& status == 0
        &&& !self.stopping
        &&& self.clock(sample).alive()
    }

    /// The state after a poll of the run in progress reported `status` at time
    /// `sample`. With no run in progress nothing changes. Otherwise the clock
    /// is refreshed, and the run either goes on or comes to rest.
    pub open spec fn resume(self, status: i32, sample: u64) -> LoopState {
        if self.running is None {
            self
        } else if self.continues(status, sample) {
            self.clock(sample)
        } else {
            self.clock(sample).at_rest()
        }
    }

    /// What the caller is told after a poll of the run in progress reported
    /// `status` at time `sample`: `EINVAL` with no run in progress, the status
    /// itself if the poll failed, to poll again if the run goes on, else
    /// `Done`.
    pub open spec fn resume_step(self, status: i32, sample: u64) -> Result<Step, i32> {
        if self.running is None {
            Err(EINVAL)
        } else if status != 0 {
            Err(status)
        } else if self.continues(status, sample) {
            Ok(Step::Poll(self.clock(sample).timeout(RunMode::Default)))
        } else {
            Ok(Step::Done)
        }
    }
}

} // verus!
