//! The process slot: the state machine behind start, stop and status of the
//! one managed server process.
//!
//! The slot is generic over the handle used to write to the process's
//! standard input (`I`) and the handle of its supervisor task (`H`). Callers
//! hold the slot under one lock and perform the outside work (spawning,
//! writing, cancelling) between the decisions made here.
use vstd::prelude::*;

verus! {

/// What `status` reports.
#[derive(Clone, Copy, Debug, PartialEq, Eq, Structural)]
pub enum RunStatus {
    Running,
    Stopped,
}

/// What `start` reports.
#[derive(Clone, Copy, Debug, PartialEq, Eq, Structural)]
pub enum StartReply {
    AlreadyRunning,
    Starting,
    ErrorSpawning,
}

/// What `stop` reports.
#[derive(Clone, Copy, Debug, PartialEq, Eq, Structural)]
pub enum StopReply {
    AlreadyStopped,
    StoppingGracefully,
    ErrorStopping,
    ErrorNoStdin,
}

/// The first half of a stop.
pub enum StopStep<I> {
    /// Nothing is to be written; this is the reply.
    Reply(StopReply),
    /// Write the termination command to this handle, then call `finish_stop`.
    Deliver(I),
}

impl RunStatus {
    /// The wire label of this status.
    pub fn label(&self) -> (r: &'static str)
        ensures
            r@ == (match *self {
                RunStatus::Running => "running"@,
                RunStatus::Stopped => "stopped"@,
            }),
    {
        match self {
            RunStatus::Running => "running",
            RunStatus::Stopped => "stopped",
        }
    }
}

impl StartReply {
    /// The wire label of this reply.
    pub fn label(&self) -> (r: &'static str)
        ensures
            r@ == (match *self {
                StartReply::AlreadyRunning => "already_running"@,
                StartReply::Starting => "starting"@,
                StartReply::ErrorSpawning => "error_spawning"@,
            }),
    {
        match self {
            StartReply::AlreadyRunning => "already_running",
            StartReply::Starting => "starting",
            StartReply::ErrorSpawning => "error_spawning",
        }
    }
}

impl StopReply {
    /// The wire label of this reply.
    pub fn label(&self) -> (r: &'static str)
        ensures
            r@ == (match *self {
                StopReply::AlreadyStopped => "already_stopped"@,
                StopReply::StoppingGracefully => "stopping_gracefully"@,
                StopReply::ErrorStopping => "error_stopping"@,
                StopReply::ErrorNoStdin => "error_no_stdin"@,
            }),
    {
        match self {
            StopReply::AlreadyStopped => "already_stopped",
            StopReply::StoppingGracefully => "stopping_gracefully",
            StopReply::ErrorStopping => "error_stopping",
            StopReply::ErrorNoStdin => "error_no_stdin",
        }
    }
}

/// The abstract state of a slot: which of its three fields are set.
#[derive(Clone, Copy, Debug, PartialEq, Eq, Structural)]
pub struct SlotView {
    pub running: bool,
    pub has_stdin: bool,
    pub has_monitor: bool,
}

/// The empty slot: no process.
pub open spec fn stopped_view() -> SlotView {
    SlotView { running: false, has_stdin: false, has_monitor: false }
}

/// A running process with its input handle and supervisor.
pub open spec fn running_view() -> SlotView {
    SlotView { running: true, has_stdin: true, has_monitor: true }
}

/// A process that was asked to stop and whose exit has not been observed yet.
pub open spec fn stopping_view() -> SlotView {
    SlotView { running: true, has_stdin: false, has_monitor: false }
}

/// A stop in progress under the lock: the input handle is out for the write.
pub open spec fn delivering_view() -> SlotView {
    SlotView { running: true, has_stdin: false, has_monitor: true }
}

/// The states a slot can be in between operations.
pub open spec fn slot_ok(v: SlotView) -> bool {
    v == stopped_view() || v == running_view() || v == stopping_view()
}

pub open spec fn status_of(v: SlotView) -> RunStatus {
    if v.running { RunStatus::Running } else { RunStatus::Stopped }
}

/// Whether a start on `v` launches a process.
pub open spec fn start_launches(v: SlotView) -> bool {
    !v.running
}

/// The slot after a start on `v`, where `spawned` tells whether a launch succeeded.
pub open spec fn after_start(v: SlotView, spawned: bool) -> SlotView {
    if v.running || !spawned { v } else { running_view() }
}

pub open spec fn start_reply_of(v: SlotView, spawned: bool) -> StartReply {
    if v.running {
        StartReply::AlreadyRunning
    } else if spawned {
        StartReply::Starting
    } else {
        StartReply::ErrorSpawning
    }
}

/// The slot after the first half of a stop on `v`.
pub open spec fn after_begin_stop(v: SlotView) -> SlotView {
    if !v.running {
        v
    } else if v.has_stdin {
        SlotView { running: true, has_stdin: false, has_monitor: v.has_monitor }
    } else {
        stopped_view()
    }
}

/// The slot after the second half of a stop, given whether the write succeeded.
pub open spec fn after_finish_stop(delivered: bool) -> SlotView {
    if delivered { stopping_view() } else { stopped_view() }
}

pub open spec fn stop_reply_of(delivered: bool) -> StopReply {
    if delivered { StopReply::StoppingGracefully } else { StopReply::ErrorStopping }
}

/// The slot after the supervisor observed the process exit.
pub open spec fn after_exit(v: SlotView) -> SlotView {
    stopped_view()
}

/// Every operation keeps the slot in one of its three states; a stop passes
/// through the delivering state only between its two halves.
pub proof fn lemma_operations_keep_slot_ok(v: SlotView, spawned: bool, delivered: bool)
    requires
        slot_ok(v),
    ensures
        slot_ok(after_start(v, spawned)),
        slot_ok(after_exit(v)),
        slot_ok(after_begin_stop(v)) || after_begin_stop(v) == delivering_view(),
        slot_ok(after_finish_stop(delivered)),
{
}

/// Of two starts in a row, at most one reports `Starting`: once one has
/// launched a process the next one launches nothing and reports
/// `AlreadyRunning`. From an empty slot the first start launches.
pub proof fn lemma_one_start_wins(v: SlotView, first_spawned: bool, second_spawned: bool)
    requires
        slot_ok(v),
    ensures
        !(start_reply_of(v, first_spawned) == StartReply::Starting
            && start_reply_of(after_start(v, first_spawned), second_spawned) == StartReply::Starting),
        start_reply_of(v, first_spawned) == StartReply::Starting ==> !start_launches(after_start(v, first_spawned))
            && start_reply_of(after_start(v, first_spawned), second_spawned) == StartReply::AlreadyRunning,
        v == stopped_view() ==> start_launches(v),
{
}

/// A stop on a stopped slot reports `AlreadyStopped` and leaves the slot as it was.
pub proof fn lemma_stop_when_stopped(v: SlotView)
    requires
        slot_ok(v),
        status_of(v) == RunStatus::Stopped,
    ensures
        after_begin_stop(v) == v,
{
}

/// Once the process has exited, by whatever path, status reports `Stopped`
/// without any stop having been asked for.
pub proof fn lemma_exit_reconciles_status(v: SlotView)
    ensures
        status_of(after_exit(v)) == RunStatus::Stopped,
        slot_ok(after_exit(v)),
{
}

/// The slot that owns at most one managed process.
pub struct ProcessSlot<I, H> {
    running: bool,
    stdin: Option<I>,
    monitor: Option<H>,
}

impl<I, H> ProcessSlot<I, H> {
    pub closed spec fn view(&self) -> SlotView {
        SlotView { running: self.running, has_stdin: self.stdin is Some, has_monitor: self.monitor is Some }
    }

    /// The stored input handle.
    pub closed spec fn stdin_handle(&self) -> Option<I> {
        self.stdin
    }

    /// The stored supervisor handle.
    pub closed spec fn monitor_handle(&self) -> Option<H> {
        self.monitor
    }

    /// An empty slot.
    pub fn new() -> (r: Self)
        ensures
            r@ == stopped_view(),
    {
        ProcessSlot { running: false, stdin: None, monitor: None }
    }

    /// Whether a process is running.
    pub fn status(&self) -> (r: RunStatus)
        ensures
            r == status_of(self@),
    {
        if self.running { RunStatus::Running } else { RunStatus::Stopped }
    }

    /// Whether a start should launch a process now. Only the first caller
    /// to see an empty slot under the lock launches.
    pub fn should_launch(&self) -> (r: bool)
        ensures
            r == start_launches(self@),
    {
        !self.running
    }

    /// Completes a start: records the launched process's input handle and
    /// supervisor, or reports the spawn failure. On a slot that is already
    /// running nothing changes.
    pub fn finish_start(&mut self, launched: Option<(I, H)>) -> (r: StartReply)
        ensures
            r == start_reply_of(old(self)@, launched is Some),
            final(self)@ == after_start(old(self)@, launched is Some),
            !old(self)@.running ==> (launched matches Some(p) ==> final(self).stdin_handle() == Some(p.0)
                && final(self).monitor_handle() == Some(p.1)),
            old(self)@.running ==> *final(self) == *old(self),
    {
        if self.running {
            return StartReply::AlreadyRunning;
        }
        match launched {
            None => StartReply::ErrorSpawning,
            Some((stdin, monitor)) => {
                self.running = true;
                self.stdin = Some(stdin);
                self.monitor = Some(monitor);
                StartReply::Starting
            },
        }
    }

    /// First half of a stop. On a stopped slot it reports `AlreadyStopped`
    /// and changes nothing. On a running slot it hands out the input handle
    /// for the termination command; without one it clears the slot and
    /// reports `ErrorNoStdin`.
    pub fn begin_stop(&mut self) -> (r: StopStep<I>)
        ensures
            final(self)@ == after_begin_stop(old(self)@),
            !old(self)@.running ==> *final(self) == *old(self)
                && r == StopStep::<I>::Reply(StopReply::AlreadyStopped),
            old(self)@.running && old(self)@.has_stdin ==> r == StopStep::Deliver(old(self).stdin_handle()->0)
                && final(self).monitor_handle() == old(self).monitor_handle(),
            old(self)@.running && !old(self)@.has_stdin ==> r == StopStep::<I>::Reply(StopReply::ErrorNoStdin),
    {
        if !self.running {
            return StopStep::Reply(StopReply::AlreadyStopped);
        }
        match self.stdin.take() {
            Some(stdin) => StopStep::Deliver(stdin),
            None => {
                self.running = false;
                self.monitor = None;
                StopStep::Reply(StopReply::ErrorNoStdin)
            },
        }
    }

    /// Second half of a stop, after the write of the termination command.
    /// On success the supervisor handle is released and the supervisor
    /// clears the slot when the process exits. On failure the slot is
    /// cleared and the supervisor handle is returned to be cancelled.
    pub fn finish_stop(&mut self, delivered: bool) -> (r: (StopReply, Option<H>))
        requires
            old(self)@ == delivering_view(),
        ensures
            r.0 == stop_reply_of(delivered),
            final(self)@ == after_finish_stop(delivered),
            delivered ==> r.1 is None,
            !delivered ==> r.1 == old(self).monitor_handle(),
    {
        let monitor = self.monitor.take();
        if delivered {
            (StopReply::StoppingGracefully, None)
        } else {
            self.running = false;
            (StopReply::ErrorStopping, monitor)
        }
    }

    /// Called by the supervisor once the process has exited, by whatever
    /// path: the slot is cleared.
    pub fn on_exit(&mut self)
        ensures
            final(self)@ == after_exit(old(self)@),
    {
        self.running = false;
        self.stdin = None;
        self.monitor = None;
    }
}

} // verus!
