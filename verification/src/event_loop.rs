//! The executable loop.
use crate::errno::{check_status, EINVAL};
use crate::handle::{
    earlier, earliest_due, lemma_live_count_bound, lemma_live_count_push,
    lemma_live_count_update, lemma_live_count_zero, live_count, slot_due, slot_live, HandleState,
};
use crate::run_mode::RunMode;
use crate::state::{LoopState, Step, Timeout};
use vstd::prelude::*;

verus! {

/// A single-threaded event loop: the handles registered with it, its cached
/// clock, and the run in progress.
///
/// The loop does not poll and does not read a clock. Its caller does both and
/// tells the loop what came of it: `run` and `resume` take the current time
/// and answer with the next [`Step`].
#[derive(Debug)]
pub struct Loop {
    open: bool,
    running: Option<RunMode>,
    stopping: bool,
    time: u64,
    slots: Vec<Option<HandleState>>,
    /// The number of slots whose handle keeps the loop alive.
    live: usize,
}

/// The name by which the owner of a handle refers to it at its loop: the
/// index of the handle's slot. It does not own the loop. At another loop it
/// names whatever handle has the same index there.
#[derive(Debug, Clone, Copy, PartialEq, Eq, Structural)]
pub struct Handle {
    slot: usize,
}

impl View for Handle {
    type V = int;

    /// The index of the handle's slot.
    closed spec fn view(&self) -> int {
        self.slot as int
    }
}

impl View for Loop {
    type V = LoopState;

    closed spec fn view(&self) -> LoopState {
        LoopState {
            open: self.open,
            running: self.running,
            stopping: self.stopping,
            now: self.time,
            handles: self.slots@,
        }
    }
}

fn keeps_alive(slot: &Option<HandleState>) -> (r: bool)
    ensures
        r == slot_live(*slot),
{
    match slot {
        Some(state) => state.active && state.referenced,
        None => false,
    }
}

fn due_of(slot: &Option<HandleState>) -> (r: Option<u64>)
    ensures
        r == slot_due(*slot),
{
    match slot {
        Some(state) => if state.active {
            state.due
        } else {
            None
        },
        None => None,
    }
}

fn sooner(a: Option<u64>, b: Option<u64>) -> (r: Option<u64>)
    ensures
        r == earlier(a, b),
{
    match (a, b) {
        (Some(x), Some(y)) => if x <= y {
            a
        } else {
            b
        },
        (Some(_), None) => a,
        (None, _) => b,
    }
}

impl Loop {
    /// The invariant of the representation: the state is consistent and the
    /// count of live handles is right.
    pub closed spec fn wf(&self) -> bool {
        &&& self@.consistent()
        &&& self.live == live_count(self.slots@)
    }

    /// A well-formed loop is in a consistent state: closed only without
    /// handles and without a run, asked to stop only while it runs.
    pub proof fn wf_is_consistent(&self)
        requires
            self.wf(),
        ensures
            self@.consistent(),
    {
    }

    /// Makes a loop once the backend has been set up. `status` is what the
    /// set-up reported and `now` the current time. A status other than zero
    /// is returned as the error, and no loop is made.
    pub fn new(status: i32, now: u64) -> (r: Result<Loop, i32>)
        ensures
            r is Ok <==> status == 0,
            r matches Ok(lp) ==> lp.wf() && LoopState::construct(status, now) == Ok::<
                LoopState,
                i32,
            >(lp@),
            r matches Err(e) ==> LoopState::construct(status, now) == Err::<LoopState, i32>(e),
    {
        match check_status(status) {
            Err(e) => {
                return Err(e);
            },
            Ok(()) => {},
        }
        let lp = Loop {
            open: true,
            running: None,
            stopping: false,
            time: now,
            slots: Vec::new(),
            live: 0,
        };
        assert(lp@ =~= LoopState::created(now));
        Ok(lp)
    }

    /// Tears the loop down: every handle is detached, a run in progress is
    /// given up, and the loop is closed for good. On a closed loop this does
    /// nothing.
    pub fn close(&mut self)
        requires
            old(self).wf(),
        ensures
            final(self).wf(),
            final(self)@ == old(self)@.close(),
            !old(self)@.open ==> final(self)@ == old(self)@,
            !final(self)@.open,
            final(self)@.now == old(self)@.now,
    {
        self.open = false;
        self.running = None;
        self.stopping = false;
        self.slots.clear();
        self.live = 0;
        assert(final(self)@ =~= old(self)@.close());
        assert(!old(self)@.open ==> old(self)@ =~= old(self)@.close());
    }

    /// Whether some attached handle is both active and referenced.
    pub fn is_alive(&self) -> (alive: bool)
        requires
            self.wf(),
        ensures
            alive == self@.alive(),
    {
        proof {
            lemma_live_count_zero(self.slots@);
        }
        self.live > 0
    }

    /// The cached time. It changes only when the clock is refreshed.
    pub fn now(&self) -> (t: u64)
        ensures
            t == self@.now,
    {
        self.time
    }

    /// Refreshes the cached time from `sample`, the current reading of the
    /// clock's source. A reading behind the cached time is ignored, and so is
    /// any reading once the loop is closed.
    pub fn update_time(&mut self, sample: u64)
        requires
            old(self).wf(),
        ensures
            final(self).wf(),
            final(self)@ == old(self)@.clock(sample),
            final(self)@.now >= old(self)@.now,
            old(self)@.open && sample >= old(self)@.now ==> final(self)@.now == sample,
    {
        if self.open && sample > self.time {
            self.time = sample;
        }
    }

    /// Asks the run in progress to end. The request is seen when the run next
    /// decides whether to poll again. With no run in progress nothing
    /// changes.
    pub fn stop(&mut self)
        requires
            old(self).wf(),
        ensures
            final(self).wf(),
            final(self)@ == old(self)@.stop(),
            old(self)@.running is None ==> final(self)@ == old(self)@,
            final(self)@.now == old(self)@.now,
    {
        if self.running.is_some() {
            self.stopping = true;
        }
    }

    /// Whether a run is in progress.
    pub fn is_running(&self) -> (r: bool)
        ensures
            r == (self@.running is Some),
    {
        self.running.is_some()
    }

    /// Whether the loop has been torn down.
    pub fn is_closed(&self) -> (r: bool)
        ensures
            r == !self@.open,
    {
        !self.open
    }

    /// Registers a new handle: referenced, not active, not closing, with no
    /// service time. A closed loop refuses with `EINVAL`.
    pub fn register(&mut self) -> (r: Result<Handle, i32>)
        requires
            old(self).wf(),
        ensures
            final(self).wf(),
            final(self)@ == old(self)@.register(),
            r is Ok <==> old(self)@.open,
            r matches Ok(h) ==> h@ == old(self)@.handles.len() && final(self)@.slot(h@) == Some(
                HandleState::initial(),
            ),
            r matches Err(e) ==> e == EINVAL,
            final(self)@.now == old(self)@.now,
    {
        if !self.open {
            return Err(EINVAL);
        }
        let slot = self.slots.len();
        proof {
            lemma_live_count_push(self.slots@, Some(HandleState::initial()));
        }
        self.slots.push(
            Some(HandleState { active: false, closing: false, referenced: true, due: None }),
        );
        Ok(Handle { slot })
    }

    /// The state of handle `h`, if it is attached.
    fn get(&self, h: &Handle) -> (r: Option<HandleState>)
        ensures
            r == self@.slot(h@),
    {
        if h.slot < self.slots.len() {
            self.slots[h.slot]
        } else {
            None
        }
    }

    /// Replaces the content of an existing slot and keeps the count of live
    /// handles right.
    fn store(&mut self, slot: usize, next: Option<HandleState>)
        requires
            old(self).wf(),
            slot < old(self)@.handles.len(),
        ensures
            final(self).wf(),
            final(self)@ == (LoopState {
                handles: old(self)@.handles.update(slot as int, next),
                ..old(self)@
            }),
    {
        let was = keeps_alive(&self.slots[slot]);
        let will = keeps_alive(&next);
        proof {
            lemma_live_count_update(self.slots@, slot as int, next);
            lemma_live_count_bound(self.slots@.update(slot as int, next));
            assert(self.slots@.len() == self.slots.len());
        }
        self.slots.set(slot, next);
        if was && !will {
            self.live = self.live - 1;
        } else if !was && will {
            self.live = self.live + 1;
        }
    }

    /// The earliest time at which an active handle needs service.
    fn next_due(&self) -> (r: Option<u64>)
        ensures
            r == earliest_due(self@.handles),
    {
        let mut best: Option<u64> = None;
        let mut i: usize = 0;
        while i < self.slots.len()
            invariant
                i <= self.slots@.len(),
                best == earliest_due(self.slots@.take(i as int)),
            decreases self.slots@.len() - i,
        {
            proof {
                let upto = self.slots@.take(i as int + 1);
                assert(upto.drop_last() =~= self.slots@.take(i as int));
                assert(upto.last() == self.slots@[i as int]);
            }
            best = sooner(best, due_of(&self.slots[i]));
            i = i + 1;
        }
        assert(self.slots@.take(i as int) =~= self.slots@);
        best
    }

    /// For how long the next poll of a run in `mode` may wait.
    fn timeout(&self, mode: RunMode) -> (r: Timeout)
        ensures
            r == self@.timeout(mode),
    {
        match mode {
            RunMode::NoWait => Timeout::AtMost(0),
            _ => match self.next_due() {
                Some(t) => if t > self.time {
                    Timeout::AtMost(t - self.time)
                } else {
                    Timeout::AtMost(0)
                },
                None => Timeout::Forever,
            },
        }
    }

    /// Begins a run in `mode` at time `now` and says what to do first.
    ///
    /// A loop that is closed or already running refuses with `EINVAL` and
    /// stays as it is. Otherwise the clock is refreshed from `now`. If nothing
    /// keeps the loop alive the run is over at once: `Done`. Else the loop
    /// enters the run and asks for a poll, with the timeout of the mode.
    pub fn run(&mut self, mode: RunMode, now: u64) -> (r: Result<Step, i32>)
        requires
            old(self).wf(),
        ensures
            final(self).wf(),
            final(self)@ == old(self)@.begin(mode, now),
            r == old(self)@.begin_step(mode, now),
            r is Ok <==> old(self)@.can_run(),
            r matches Err(e) ==> e == EINVAL && final(self)@ == old(self)@,
            r == Ok::<Step, i32>(Step::Done) <==> old(self)@.can_run() && !old(self)@.alive(),
            final(self)@.now >= old(self)@.now,
    {
        if !self.open || self.running.is_some() {
            return Err(EINVAL);
        }
        self.update_time(now);
        if self.is_alive() {
            self.running = Some(mode);
            Ok(Step::Poll(self.timeout(mode)))
        } else {
            Ok(Step::Done)
        }
    }

    /// Takes the outcome of the poll that the run asked for, at time `now`,
    /// and says what to do next. `status` is zero if the poll and the dispatch
    /// of its events went through, else the error that the poll reported.
    ///
    /// With no run in progress this refuses with `EINVAL`. Otherwise the clock
    /// is refreshed from `now`. A failed poll ends the run with its status as
    /// the error. A run in `Once` or `NoWait` ends after its one poll. A run
    /// in `Default` polls again while something keeps the loop alive and
    /// nobody asked it to stop. When the run ends the request to stop is
    /// forgotten.
    pub fn resume(&mut self, status: i32, now: u64) -> (r: Result<Step, i32>)
        requires
            old(self).wf(),
        ensures
            final(self).wf(),
            final(self)@ == old(self)@.resume(status, now),
            r == old(self)@.resume_step(status, now),
            r is Ok <==> old(self)@.running is Some && status == 0,
            r matches Ok(Step::Poll(_)) <==> final(self)@.running is Some,
            old(self)@.running is None ==> final(self)@ == old(self)@,
            final(self)@.now >= old(self)@.now,
    {
        let mode = match self.running {
            None => {
                return Err(EINVAL);
            },
            Some(mode) => mode,
        };
        self.update_time(now);
        let polled = check_status(status);
        if polled.is_ok() && !self.stopping && self.is_alive() {
            match mode {
                RunMode::Default => {
                    return Ok(Step::Poll(self.timeout(RunMode::Default)));
                },
                _ => {},
            }
        }
        self.running = None;
        self.stopping = false;
        match polled {
            Err(e) => Err(e),
            Ok(()) => Ok(Step::Done),
        }
    }
}

impl Handle {
    /// The index of the handle's slot at its loop.
    pub fn index(&self) -> (i: usize)
        ensures
            i == self@,
    {
        self.slot
    }

    /// Whether the handle is attached to `lp` and active.
    pub fn is_active(&self, lp: &Loop) -> (r: bool)
        ensures
            r == (lp@.slot(self@) matches Some(state) && state.active),
    {
        match lp.get(self) {
            Some(state) => state.active,
            None => false,
        }
    }

    /// Whether the handle is attached to `lp` and closing.
    pub fn is_closing(&self, lp: &Loop) -> (r: bool)
        ensures
            r == (lp@.slot(self@) matches Some(state) && state.closing),
    {
        match lp.get(self) {
            Some(state) => state.closing,
            None => false,
        }
    }

    /// Whether the handle is attached to `lp` and referenced.
    pub fn has_ref(&self, lp: &Loop) -> (r: bool)
        ensures
            r == (lp@.slot(self@) matches Some(state) && state.referenced),
    {
        match lp.get(self) {
            Some(state) => state.referenced,
            None => false,
        }
    }

    /// The time at which the handle asked for service, if it is attached to
    /// `lp` and asked for one.
    pub fn due(&self, lp: &Loop) -> (r: Option<u64>)
        ensures
            r == (match lp@.slot(self@) {
                Some(state) => state.due,
                None => None,
            }),
    {
        match lp.get(self) {
            Some(state) => state.due,
            None => None,
        }
    }

    /// Makes the handle's activity count towards the liveness of `lp`. Once
    /// is as good as many times; a handle that is not attached is left alone.
    pub fn addref(&self, lp: &mut Loop)
        requires
            old(lp).wf(),
        ensures
            final(lp).wf(),
            final(lp)@ == old(lp)@.reference(self@, true),
    {
        match lp.get(self) {
            Some(state) => {
                lp.store(self.slot, Some(HandleState { referenced: true, ..state }));
            },
            None => {},
        }
    }

    /// Stops the handle's activity from counting towards the liveness of
    /// `lp`. Once is as good as many times; a handle that is not attached is
    /// left alone.
    pub fn unref(&self, lp: &mut Loop)
        requires
            old(lp).wf(),
        ensures
            final(lp).wf(),
            final(lp)@ == old(lp)@.reference(self@, false),
    {
        match lp.get(self) {
            Some(state) => {
                lp.store(self.slot, Some(HandleState { referenced: false, ..state }));
            },
            None => {},
        }
    }

    /// Records that the handle has become active, or has ceased to be.
    pub fn set_active(&self, lp: &mut Loop, active: bool)
        requires
            old(lp).wf(),
        ensures
            final(lp).wf(),
            final(lp)@ == old(lp)@.activity(self@, active),
    {
        match lp.get(self) {
            Some(state) => {
                lp.store(self.slot, Some(HandleState { active, ..state }));
            },
            None => {},
        }
    }

    /// Records that the handle has begun to close, or is no longer closing.
    pub fn set_closing(&self, lp: &mut Loop, closing: bool)
        requires
            old(lp).wf(),
        ensures
            final(lp).wf(),
            final(lp)@ == old(lp)@.closing(self@, closing),
    {
        match lp.get(self) {
            Some(state) => {
                lp.store(self.slot, Some(HandleState { closing, ..state }));
            },
            None => {},
        }
    }

    /// Records the time at which the handle next needs service, or that it
    /// needs none.
    pub fn set_due(&self, lp: &mut Loop, due: Option<u64>)
        requires
            old(lp).wf(),
        ensures
            final(lp).wf(),
            final(lp)@ == old(lp)@.due(self@, due),
    {
        match lp.get(self) {
            Some(state) => {
                lp.store(self.slot, Some(HandleState { due, ..state }));
            },
            None => {},
        }
    }

    /// Detaches the handle from `lp`. Its slot stays empty, so the handle
    /// never comes to name another.
    pub fn detach(&self, lp: &mut Loop)
        requires
            old(lp).wf(),
        ensures
            final(lp).wf(),
            final(lp)@ == old(lp)@.detach(self@),
            final(lp)@.slot(self@) is None,
    {
        match lp.get(self) {
            Some(_) => {
                lp.store(self.slot, None);
            },
            None => {},
        }
    }
}

} // verus!
