//! What holds of every loop, whatever its callers do.
//!
//! Each law is stated over [`LoopState`] and the functions on it that the
//! contracts of [`crate::Loop`] and [`crate::Handle`] use, and is proved from
//! their definitions.
use crate::errno::EINVAL;
use crate::handle::{
    earliest_due, lemma_earliest_due, slot_due, slot_live, some_live, HandleState,
};
use crate::run_mode::RunMode;
use crate::state::{LoopState, Step, Timeout};
use vstd::prelude::*;

verus! {

/// Making a loop and tearing it down at once leaves nothing behind, whether
/// the backend's set-up went through or not: if it failed no loop was made
/// and the failure is the error; if it went through, the loop is consistent
/// and teardown leaves it closed, at rest and without handles.
pub proof fn law_construct_then_close(status: i32, sample: u64)
    ensures
        status != 0 ==> LoopState::construct(status, sample) == Err::<LoopState, i32>(status),
        status == 0 ==> LoopState::construct(status, sample) == Ok::<LoopState, i32>(
            LoopState::created(sample),
        ),
        LoopState::created(sample).consistent(),
        !LoopState::created(sample).close().open,
        LoopState::created(sample).close().handles.len() == 0,
        LoopState::created(sample).close().running is None,
        LoopState::created(sample).close().consistent(),
{
}

/// Teardown ends closed and consistent from wherever it starts, detaches
/// every handle, and does nothing when done again.
pub proof fn law_close(s: LoopState)
    ensures
        !s.close().open,
        !s.close().alive(),
        s.close().consistent(),
        forall|h: int| s.close().slot(h) is None,
        s.close().close() == s.close(),
        s.consistent() && !s.open ==> s.close() == s,
{
    assert(s.consistent() && !s.open ==> s.close() =~= s);
}

/// A closed loop stays closed: no operation opens it again, and none gives it
/// a handle or a run.
pub proof fn law_closed_is_final(
    s: LoopState,
    mode: RunMode,
    status: i32,
    sample: u64,
    h: int,
    on: bool,
    at: Option<u64>,
)
    requires
        s.consistent(),
        !s.open,
    ensures
        s.clock(sample) == s,
        s.stop() == s,
        s.register() == s,
        s.begin(mode, sample) == s,
        s.begin_step(mode, sample) == Err::<Step, i32>(EINVAL),
        s.resume(status, sample) == s,
        s.resume_step(status, sample) == Err::<Step, i32>(EINVAL),
        s.reference(h, on) == s,
        s.activity(h, on) == s,
        s.closing(h, on) == s,
        s.due(h, at) == s,
        s.detach(h) == s,
{
}

/// Every operation takes a consistent state to a consistent state.
pub proof fn law_consistency_is_kept(
    s: LoopState,
    mode: RunMode,
    status: i32,
    sample: u64,
    h: int,
    on: bool,
    at: Option<u64>,
)
    requires
        s.consistent(),
    ensures
        s.clock(sample).consistent(),
        s.stop().consistent(),
        s.close().consistent(),
        s.register().consistent(),
        s.begin(mode, sample).consistent(),
        s.resume(status, sample).consistent(),
        s.reference(h, on).consistent(),
        s.activity(h, on).consistent(),
        s.closing(h, on).consistent(),
        s.due(h, at).consistent(),
        s.detach(h).consistent(),
{
}

/// A new loop is not alive, and registering a handle does not make it so: a
/// new handle is not active.
pub proof fn law_new_loop_is_not_alive(sample: u64)
    ensures
        !LoopState::created(sample).alive(),
        !LoopState::created(sample).register().alive(),
{
    let s = LoopState::created(sample).register();
    assert forall|i: int| 0 <= i < s.handles.len() implies !slot_live(#[trigger] s.handles[i]) by {
        assert(s.handles[i] == Some(HandleState::initial()));
    }
}

/// A loop is alive as soon as one attached handle is referenced and reports
/// that it is active, in whichever order the two come.
pub proof fn law_active_referenced_handle_keeps_alive(s: LoopState, h: int)
    requires
        s.slot(h) is Some,
    ensures
        s.reference(h, true).activity(h, true).alive(),
        s.activity(h, true).reference(h, true).alive(),
{
    let a = s.reference(h, true).activity(h, true);
    assert(slot_live(a.handles[h]));
    let b = s.activity(h, true).reference(h, true);
    assert(slot_live(b.handles[h]));
}

/// A loop is alive exactly when some attached handle is both active and
/// referenced.
pub proof fn law_alive_means_some_handle(s: LoopState)
    ensures
        s.alive() <==> exists|h: int| #[trigger]
            s.slot(h) matches Some(state) && state.active && state.referenced,
{
    if s.alive() {
        let i = choose|i: int| 0 <= i < s.handles.len() && slot_live(#[trigger] s.handles[i]);
        assert(s.slot(i) matches Some(state) && state.active && state.referenced);
    }
    if exists|h: int| #[trigger] s.slot(h) matches Some(state) && state.active && state.referenced {
        let h = choose|h: int| #[trigger]
            s.slot(h) matches Some(state) && state.active && state.referenced;
        assert(slot_live(s.handles[h]));
    }
}

/// When no other handle keeps the loop alive, the loop is no longer alive
/// once this one drops its reference, ceases to be active, or leaves.
pub proof fn law_unref_releases(s: LoopState, h: int)
    requires
        forall|j: int| j != h ==> !slot_live(#[trigger] s.slot(j)),
    ensures
        !s.reference(h, false).alive(),
        !s.activity(h, false).alive(),
        !s.detach(h).alive(),
{
    let a = s.reference(h, false);
    assert forall|i: int| 0 <= i < a.handles.len() implies !slot_live(#[trigger] a.handles[i]) by {
        assert(i != h ==> a.handles[i] == s.slot(i));
    }
    let b = s.activity(h, false);
    assert forall|i: int| 0 <= i < b.handles.len() implies !slot_live(#[trigger] b.handles[i]) by {
        assert(i != h ==> b.handles[i] == s.slot(i));
    }
    let c = s.detach(h);
    assert forall|i: int| 0 <= i < c.handles.len() implies !slot_live(#[trigger] c.handles[i]) by {
        assert(i != h ==> c.handles[i] == s.slot(i));
    }
}

/// Taking or dropping a reference twice is the same as once, and the one
/// undoes the other's effect on the flag.
pub proof fn law_reference_is_a_toggle(s: LoopState, h: int, on: bool)
    ensures
        s.reference(h, on).reference(h, on) == s.reference(h, on),
        s.reference(h, !on).reference(h, on) == s.reference(h, on),
        s.slot(h) matches Some(state) ==> s.reference(h, on).slot(h) == Some(
            HandleState { referenced: on, ..state },
        ),
        s.slot(h) is None ==> s.reference(h, on) == s,
{
    assert(s.reference(h, on).reference(h, on) =~= s.reference(h, on));
    assert(s.reference(h, !on).reference(h, on) =~= s.reference(h, on));
}

/// What is done to one handle is not seen by any other, and changes nothing
/// else about the loop.
pub proof fn law_handles_are_independent(
    s: LoopState,
    h: int,
    other: int,
    on: bool,
    at: Option<u64>,
)
    requires
        other != h,
    ensures
        s.reference(h, on).slot(other) == s.slot(other),
        s.activity(h, on).slot(other) == s.slot(other),
        s.closing(h, on).slot(other) == s.slot(other),
        s.due(h, at).slot(other) == s.slot(other),
        s.detach(h).slot(other) == s.slot(other),
        s.register().slot(other) == s.slot(other) || other == s.handles.len(),
        s.reference(h, on).handles.len() == s.handles.len(),
        s.activity(h, on).handles.len() == s.handles.len(),
        s.closing(h, on).handles.len() == s.handles.len(),
        s.due(h, at).handles.len() == s.handles.len(),
        s.detach(h).handles.len() == s.handles.len(),
{
}

/// A detached handle stays detached: its slot is never filled again, so its
/// name never comes to mean another handle.
pub proof fn law_detached_stays_detached(s: LoopState, h: int, on: bool, at: Option<u64>)
    requires
        0 <= h < s.handles.len(),
        s.slot(h) is None,
    ensures
        s.register().slot(h) is None,
        s.reference(h, on).slot(h) is None,
        s.activity(h, on).slot(h) is None,
        s.closing(h, on).slot(h) is None,
        s.due(h, at).slot(h) is None,
        s.detach(h).slot(h) is None,
{
}

/// Asking a loop that is not running to stop changes nothing, so a run that
/// follows begins and answers as if nobody had asked.
pub proof fn law_stop_at_rest_is_nothing(s: LoopState, mode: RunMode, sample: u64)
    requires
        s.running is None,
    ensures
        s.stop() == s,
        s.stop().begin(mode, sample) == s.begin(mode, sample),
        s.stop().begin_step(mode, sample) == s.begin_step(mode, sample),
{
}

/// Asking twice to stop is the same as asking once, and a run that was asked
/// to stop polls no more: its next report ends it, and the request is then
/// forgotten.
pub proof fn law_stop_ends_the_run(s: LoopState, status: i32, sample: u64)
    requires
        s.running is Some,
    ensures
        s.stop().stop() == s.stop(),
        s.stop().resume(status, sample).running is None,
        !s.stop().resume(status, sample).stopping,
        status == 0 ==> s.stop().resume_step(status, sample) == Ok::<Step, i32>(Step::Done),
        status != 0 ==> s.stop().resume_step(status, sample) == Err::<Step, i32>(status),
{
}

/// A run on a loop that nothing keeps alive is over at once, in every mode,
/// without a poll, and leaves the loop at rest.
pub proof fn law_idle_run_is_done(s: LoopState, mode: RunMode, sample: u64)
    requires
        s.can_run(),
        !s.alive(),
    ensures
        s.begin_step(mode, sample) == Ok::<Step, i32>(Step::Done),
        s.begin(mode, sample) == s.clock(sample),
        s.begin(mode, sample).running is None,
{
}

/// A run in `NoWait` never waits and ends well: it is either over at once or
/// asks for one poll that returns at once, and after that poll it is over,
/// whatever is still alive.
pub proof fn law_no_wait_never_blocks(s: LoopState, sample: u64, later: u64)
    requires
        s.can_run(),
    ensures
        s.begin_step(RunMode::NoWait, sample) == Ok::<Step, i32>(Step::Done) || s.begin_step(
            RunMode::NoWait,
            sample,
        ) == Ok::<Step, i32>(Step::Poll(Timeout::AtMost(0))),
        s.begin(RunMode::NoWait, sample).running is Some ==> s.begin(
            RunMode::NoWait,
            sample,
        ).resume_step(0, later) == Ok::<Step, i32>(Step::Done) && s.begin(
            RunMode::NoWait,
            sample,
        ).resume(0, later).running is None,
{
}

/// A run in `Once` or `NoWait` has one poll at most: the report of its poll
/// ends it, even though handles may still keep the loop alive.
pub proof fn law_single_poll(s: LoopState, mode: RunMode, status: i32, sample: u64)
    requires
        s.running == Some(mode),
        mode != RunMode::Default,
    ensures
        s.resume(status, sample).running is None,
        status == 0 ==> s.resume_step(status, sample) == Ok::<Step, i32>(Step::Done),
        s.resume(status, sample).handles == s.handles,
        s.resume(status, sample).alive() == s.alive(),
{
}

/// A run in `Default` goes on exactly while its polls succeed, something
/// keeps the loop alive and nobody asked it to stop.
pub proof fn law_default_runs_while_alive(s: LoopState, status: i32, sample: u64)
    requires
        s.running == Some(RunMode::Default),
    ensures
        s.resume(status, sample).running is Some <==> status == 0 && s.alive() && !s.stopping,
        s.resume_step(status, sample) is Ok <==> status == 0,
        s.resume_step(status, sample) matches Ok(Step::Poll(_)) <==> s.resume(
            status,
            sample,
        ).running is Some,
{
}

/// A failed poll ends the run in every mode, and its status is the error.
pub proof fn law_failed_poll_ends_the_run(s: LoopState, status: i32, sample: u64)
    requires
        s.running is Some,
        status != 0,
    ensures
        s.resume_step(status, sample) == Err::<Step, i32>(status),
        s.resume(status, sample).running is None,
        !s.resume(status, sample).stopping,
{
}

/// A loop runs one run at a time: while one is in progress another is refused
/// and the loop stays as it is.
pub proof fn law_no_run_within_a_run(s: LoopState, mode: RunMode, sample: u64)
    requires
        s.running is Some,
    ensures
        s.begin_step(mode, sample) == Err::<Step, i32>(EINVAL),
        s.begin(mode, sample) == s,
{
}

/// The clock never runs backwards, whatever is done to the loop; only the
/// operations that take a reading of the time move it, and a reading ahead of
/// the cached time becomes the cached time.
pub proof fn law_clock_is_monotonic(
    s: LoopState,
    mode: RunMode,
    status: i32,
    sample: u64,
    h: int,
    on: bool,
    at: Option<u64>,
)
    ensures
        s.clock(sample).now >= s.now,
        s.open && sample >= s.now ==> s.clock(sample).now == sample,
        s.begin(mode, sample).now >= s.now,
        s.resume(status, sample).now >= s.now,
        s.stop().now == s.now,
        s.close().now == s.now,
        s.register().now == s.now,
        s.reference(h, on).now == s.now,
        s.activity(h, on).now == s.now,
        s.closing(h, on).now == s.now,
        s.due(h, at).now == s.now,
        s.detach(h).now == s.now,
{
}

/// The timeout of a poll that may wait lets no request for service pass: it
/// is bounded exactly when an active handle asked for service, it then ends
/// at the earliest such time or at once if that time has come, and no active
/// handle asked for an earlier one.
pub proof fn law_timeout_meets_the_earliest_due(s: LoopState, mode: RunMode)
    requires
        mode != RunMode::NoWait,
    ensures
        s.timeout(mode) is Forever <==> forall|i: int|
            0 <= i < s.handles.len() ==> #[trigger] slot_due(s.handles[i]) is None,
        s.timeout(mode) matches Timeout::AtMost(wait) ==> exists|i: int|
            0 <= i < s.handles.len() && (#[trigger] slot_due(s.handles[i]) matches Some(t) && wait
                == if t > s.now {
                t - s.now
            } else {
                0
            }),
        forall|i: int|
            0 <= i < s.handles.len() ==> (#[trigger] slot_due(s.handles[i]) matches Some(t)
                ==> s.timeout(mode) matches Timeout::AtMost(wait) && s.now + wait <= if t > s.now {
                t
            } else {
                s.now
            }),
{
    lemma_earliest_due(s.handles);
    if earliest_due(s.handles) is Some {
        let e = earliest_due(s.handles)->0;
        let i = choose|i: int| 0 <= i < s.handles.len() && #[trigger] slot_due(s.handles[i]) == Some(e);
        assert(slot_due(s.handles[i]) matches Some(t) && t == e);
    }
}

} // verus!
