//! The run state machine.
//!
//! A run creates a kernel grouping object bound to a notification channel,
//! launches the target command suspended, attaches it to the group while it is
//! still suspended, resumes it, waits until the group reports that no active
//! member process remains, reads the group's aggregate CPU accounting, and
//! tears the group down.  The operating-system calls themselves are performed
//! by an unverified driver; it reports each call's outcome to this machine as
//! a plain value, and the machine decides what the outcome means, which state
//! the run is in, and which kernel handles are currently owned.
//!
//! Every kernel handle acquired during a run — successful or failed — is
//! recorded in a ledger and must be released exactly once; the well-formedness
//! invariant `SessionView::wf` ties the ledger to the set of handles that are
//! still open in every state.

use vstd::prelude::*;

use crate::errors::{Op, RunError};
use crate::events::{is_completion, Notification};
use crate::timing::{accounting_millis, spec_wall_millis, wall_millis, ACCOUNTING_TICKS_PER_MS};

verus! {

/// Where a run stands.  The straight path is the declaration order from
/// `Start` to `Finished`; any operating-system failure moves the run to
/// `Failed` instead.
#[derive(Clone, Copy, Debug, PartialEq, Eq)]
pub enum Phase {
    /// Nothing has happened yet.
    Start,
    /// The monotonic counter's frequency is known.
    TimerReady,
    /// The grouping object and its notification channel exist and are bound.
    GroupReady,
    /// The target process exists, suspended; its process and thread handles
    /// are owned.
    Launched,
    /// The suspended process is a member of the group.
    Attached,
    /// The process handle has been released; group membership alone keeps
    /// the accounting alive.
    ProcessClosed,
    /// The wall-clock start sample has been taken.
    WallStarted,
    /// The initial thread has been resumed and its handle released; the
    /// group's membership now grows and shrinks under OS control.
    Resumed,
    /// The group reported that its active-process count reached zero.
    Drained,
    /// The wall-clock end sample has been taken.
    WallStopped,
    /// The group's aggregate CPU accounting has been read.
    Accounted,
    /// The group and channel handles have been released; the result is ready.
    Finished,
    /// An operating-system call failed; the run is over except for releasing
    /// whatever handles are still open.
    Failed,
}

/// How many handles of each kind a run has acquired and released.
#[derive(Clone, Copy, Debug, PartialEq, Eq)]
pub struct Ledger {
    pub process_acquired: u32,
    pub process_released: u32,
    pub thread_acquired: u32,
    pub thread_released: u32,
    pub group_acquired: u32,
    pub group_released: u32,
    pub channel_acquired: u32,
    pub channel_released: u32,
}

impl Ledger {
    /// Every handle that was acquired has been released.
    pub open spec fn balanced(self) -> bool {
        &&& self.process_released == self.process_acquired
        &&& self.thread_released == self.thread_acquired
        &&& self.group_released == self.group_acquired
        &&& self.channel_released == self.channel_acquired
    }
}

/// The outcome of creating the grouping object: three operating-system calls,
/// each of which may fail after the earlier ones acquired handles.
#[derive(Debug, PartialEq, Eq)]
pub enum GroupCreation {
    /// Group and channel exist and the group posts its lifecycle events to
    /// the channel; `group_id` identifies the group as a notification source.
    Created { group_id: u64 },
    /// Creating the grouping object failed; nothing was acquired.
    GroupFailed { detail: String },
    /// Creating the notification channel failed; the group handle is owned.
    ChannelFailed { detail: String },
    /// Binding the group to the channel failed; both handles are owned.
    AssociateFailed { detail: String },
}

/// The aggregate times of one run, in milliseconds: elapsed wall clock
/// between resume and group emptiness, and user-mode and kernel-mode CPU time
/// summed by the kernel over every process that was ever a group member.
#[derive(Clone, Copy, Debug, PartialEq, Eq)]
pub struct Times {
    pub wall: u64,
    pub user: u64,
    pub kernel: u64,
}

/// The mathematical state of a run: its phase, the values threaded through,
/// which handles are open, and the handle ledger.
pub struct SessionView {
    pub phase: Phase,
    /// Monotonic-counter ticks per second.
    pub freq: u64,
    /// The group's identity as a notification source.
    pub group_id: u64,
    /// Monotonic sample taken just before resume.
    pub t0: u64,
    /// Monotonic sample taken once the group was empty.
    pub t1: u64,
    /// Group-wide user-mode CPU time, in accounting ticks.
    pub user_ticks: u64,
    /// Group-wide kernel-mode CPU time, in accounting ticks.
    pub kernel_ticks: u64,
    pub process_open: bool,
    pub thread_open: bool,
    pub group_open: bool,
    pub channel_open: bool,
    /// The process was attached to the group.
    pub attached: bool,
    /// The process's initial thread was resumed.
    pub resumed: bool,
    pub ledger: Ledger,
    pub error: Option<RunError>,
}

impl SessionView {
    /// The ledger and the open flags agree: a handle of each kind is acquired
    /// at most once, and it is open exactly while acquired and not released.
    pub open spec fn handles_ok(self) -> bool {
        &&& self.ledger.process_acquired <= 1
        &&& self.ledger.thread_acquired <= 1
        &&& self.ledger.group_acquired <= 1
        &&& self.ledger.channel_acquired <= 1
        &&& self.ledger.process_released + (if self.process_open { 1int } else { 0 })
            == self.ledger.process_acquired
        &&& self.ledger.thread_released + (if self.thread_open { 1int } else { 0 })
            == self.ledger.thread_acquired
        &&& self.ledger.group_released + (if self.group_open { 1int } else { 0 })
            == self.ledger.group_acquired
        &&& self.ledger.channel_released + (if self.channel_open { 1int } else { 0 })
            == self.ledger.channel_acquired
    }

    /// What each phase says about the run: which handles are open, whether
    /// the attach and the resume have happened, and whether an error is
    /// recorded.  An error is recorded exactly in the `Failed` phase.
    pub open spec fn phase_ok(self) -> bool {
        match self.phase {
            Phase::Start => {
                &&& self.ledger == (Ledger {
                    process_acquired: 0u32,
                    process_released: 0u32,
                    thread_acquired: 0u32,
                    thread_released: 0u32,
                    group_acquired: 0u32,
                    group_released: 0u32,
                    channel_acquired: 0u32,
                    channel_released: 0u32,
                })
                &&& !self.process_open && !self.thread_open && !self.group_open
                    && !self.channel_open
                &&& !self.attached && !self.resumed
                &&& self.error is None
            },
            Phase::TimerReady => {
                &&& self.freq >= 1
                &&& !self.process_open && !self.thread_open && !self.group_open
                    && !self.channel_open
                &&& self.ledger.process_acquired == 0 && self.ledger.thread_acquired == 0
                    && self.ledger.group_acquired == 0 && self.ledger.channel_acquired == 0
                &&& !self.attached && !self.resumed
                &&& self.error is None
            },
            Phase::GroupReady => {
                &&& self.freq >= 1
                &&& !self.process_open && !self.thread_open && self.group_open
                    && self.channel_open
                &&& self.ledger.process_acquired == 0 && self.ledger.thread_acquired == 0
                &&& !self.attached && !self.resumed
                &&& self.error is None
            },
            Phase::Launched => {
                &&& self.freq >= 1
                &&& self.process_open && self.thread_open && self.group_open
                    && self.channel_open
                &&& !self.attached && !self.resumed
                &&& self.error is None
            },
            Phase::Attached => {
                &&& self.freq >= 1
                &&& self.process_open && self.thread_open && self.group_open
                    && self.channel_open
                &&& self.attached && !self.resumed
                &&& self.error is None
            },
            Phase::ProcessClosed => {
                &&& self.freq >= 1
                &&& !self.process_open && self.thread_open && self.group_open
                    && self.channel_open
                &&& self.attached && !self.resumed
                &&& self.error is None
            },
            Phase::WallStarted => {
                &&& self.freq >= 1
                &&& !self.process_open && self.thread_open && self.group_open
                    && self.channel_open
                &&& self.attached && !self.resumed
                &&& self.error is None
            },
            Phase::Resumed => {
                &&& self.freq >= 1
                &&& !self.process_open && !self.thread_open && self.group_open
                    && self.channel_open
                &&& self.attached && self.resumed
                &&& self.error is None
            },
            Phase::Drained => {
                &&& self.freq >= 1
                &&& !self.process_open && !self.thread_open && self.group_open
                    && self.channel_open
                &&& self.attached && self.resumed
                &&& self.error is None
            },
            Phase::WallStopped => {
                &&& self.freq >= 1
                &&& !self.process_open && !self.thread_open && self.group_open
                    && self.channel_open
                &&& self.attached && self.resumed
                &&& self.error is None
            },
            Phase::Accounted => {
                &&& self.freq >= 1
                &&& !self.process_open && !self.thread_open && self.group_open
                    && self.channel_open
                &&& self.attached && self.resumed
                &&& self.error is None
            },
            Phase::Finished => {
                &&& self.freq >= 1
                &&& !self.process_open && !self.thread_open && !self.group_open
                    && !self.channel_open
                &&& self.attached && self.resumed
                &&& self.error is None
            },
            Phase::Failed => {
                &&& self.error is Some
                &&& (self.resumed ==> self.attached)
            },
        }
    }

    /// Well-formedness: every state a session can reach satisfies this.
    pub open spec fn wf(self) -> bool {
        self.handles_ok() && self.phase_ok()
    }

    /// The run is over and owns nothing any more: it finished, or it failed
    /// and every handle that was still open has been released.
    pub open spec fn settled(self) -> bool {
        ||| self.phase == Phase::Finished
        ||| (self.phase == Phase::Failed && !self.process_open && !self.thread_open
            && !self.group_open && !self.channel_open)
    }
}

/// One run of the suspended-launch / group / completion-wait protocol.
pub struct Session {
    phase: Phase,
    freq: u64,
    group_id: u64,
    t0: u64,
    t1: u64,
    user_ticks: u64,
    kernel_ticks: u64,
    process_open: bool,
    thread_open: bool,
    group_open: bool,
    channel_open: bool,
    attached: bool,
    resumed: bool,
    ledger: Ledger,
    error: Option<RunError>,
}

impl View for Session {
    type V = SessionView;

    closed spec fn view(&self) -> SessionView {
        SessionView {
            phase: self.phase,
            freq: self.freq,
            group_id: self.group_id,
            t0: self.t0,
            t1: self.t1,
            user_ticks: self.user_ticks,
            kernel_ticks: self.kernel_ticks,
            process_open: self.process_open,
            thread_open: self.thread_open,
            group_open: self.group_open,
            channel_open: self.channel_open,
            attached: self.attached,
            resumed: self.resumed,
            ledger: self.ledger,
            error: self.error,
        }
    }
}

impl Session {
    /// A fresh run: nothing measured, nothing owned.
    pub fn new() -> (s: Session)
        ensures
            s@ == (SessionView {
                phase: Phase::Start,
                freq: 0u64,
                group_id: 0u64,
                t0: 0u64,
                t1: 0u64,
                user_ticks: 0u64,
                kernel_ticks: 0u64,
                process_open: false,
                thread_open: false,
                group_open: false,
                channel_open: false,
                attached: false,
                resumed: false,
                ledger: (Ledger {
                    process_acquired: 0u32,
                    process_released: 0u32,
                    thread_acquired: 0u32,
                    thread_released: 0u32,
                    group_acquired: 0u32,
                    group_released: 0u32,
                    channel_acquired: 0u32,
                    channel_released: 0u32,
                }),
                error: None,
            }),
            s@.wf(),
    {
        Session {
            phase: Phase::Start,
            freq: 0,
            group_id: 0,
            t0: 0,
            t1: 0,
            user_ticks: 0,
            kernel_ticks: 0,
            process_open: false,
            thread_open: false,
            group_open: false,
            channel_open: false,
            attached: false,
            resumed: false,
            ledger: Ledger {
                process_acquired: 0,
                process_released: 0,
                thread_acquired: 0,
                thread_released: 0,
                group_acquired: 0,
                group_released: 0,
                channel_acquired: 0,
                channel_released: 0,
            },
            error: None,
        }
    }

    /// Takes the result of querying the monotonic counter's tick frequency.
    /// A frequency of zero would make every later division meaningless, so it
    /// counts as a failed query with an empty description.
    pub fn on_frequency(&mut self, outcome: Result<u64, String>) -> (ok: bool)
        requires
            old(self)@.wf(),
            old(self)@.phase == Phase::Start,
        ensures
            final(self)@.wf(),
            match outcome {
                Result::Ok(f) => {
                    if f >= 1 {
                        ok && final(self)@ == (SessionView {
                            phase: Phase::TimerReady,
                            freq: f,
                            ..old(self)@
                        })
                    } else {
                        &&& !ok
                        &&& final(self)@.error is Some
                        &&& final(self)@.error->Some_0.op == Op::QueryFrequency
                        &&& final(self)@.error->Some_0.detail@ == Seq::<char>::empty()
                        &&& final(self)@ == (SessionView {
                            phase: Phase::Failed,
                            error: final(self)@.error,
                            ..old(self)@
                        })
                    }
                },
                Result::Err(d) => !ok && final(self)@ == (SessionView {
                    phase: Phase::Failed,
                    error: Some(RunError { op: Op::QueryFrequency, detail: d }),
                    ..old(self)@
                }),
            },
    {
        match outcome {
            Ok(f) => {
                if f >= 1 {
                    self.freq = f;
                    self.phase = Phase::TimerReady;
                    true
                } else {
                    self.phase = Phase::Failed;
                    self.error = Some(RunError { op: Op::QueryFrequency, detail: String::new() });
                    false
                }
            },
            Err(d) => {
                self.phase = Phase::Failed;
                self.error = Some(RunError { op: Op::QueryFrequency, detail: d });
                false
            },
        }
    }

    /// Takes the outcome of creating the grouping object, creating the
    /// notification channel, and binding the two.  On success the run owns
    /// the group and channel handles; a partial failure records exactly the
    /// handles the earlier steps acquired, so that they are still released.
    pub fn on_group_created(&mut self, outcome: GroupCreation) -> (ok: bool)
        requires
            old(self)@.wf(),
            old(self)@.phase == Phase::TimerReady,
        ensures
            final(self)@.wf(),
            match outcome {
                GroupCreation::Created { group_id } => ok && final(self)@ == (SessionView {
                    phase: Phase::GroupReady,
                    group_id: group_id,
                    group_open: true,
                    channel_open: true,
                    ledger: (Ledger {
                        group_acquired: 1u32,
                        channel_acquired: 1u32,
                        ..old(self)@.ledger
                    }),
                    ..old(self)@
                }),
                GroupCreation::GroupFailed { detail } => !ok && final(self)@ == (SessionView {
                    phase: Phase::Failed,
                    error: Some(RunError { op: Op::CreateGroup, detail: detail }),
                    ..old(self)@
                }),
                GroupCreation::ChannelFailed { detail } => !ok && final(self)@ == (SessionView {
                    phase: Phase::Failed,
                    group_open: true,
                    ledger: (Ledger { group_acquired: 1u32, ..old(self)@.ledger }),
                    error: Some(RunError { op: Op::CreateChannel, detail: detail }),
                    ..old(self)@
                }),
                GroupCreation::AssociateFailed { detail } => !ok && final(self)@ == (SessionView {
                    phase: Phase::Failed,
                    group_open: true,
                    channel_open: true,
                    ledger: (Ledger {
                        group_acquired: 1u32,
                        channel_acquired: 1u32,
                        ..old(self)@.ledger
                    }),
                    error: Some(RunError { op: Op::AssociateChannel, detail: detail }),
                    ..old(self)@
                }),
            },
    {
        match outcome {
            GroupCreation::Created { group_id } => {
                self.group_id = group_id;
                self.group_open = true;
                self.channel_open = true;
                self.ledger.group_acquired = 1;
                self.ledger.channel_acquired = 1;
                self.phase = Phase::GroupReady;
                true
            },
            GroupCreation::GroupFailed { detail } => {
                self.phase = Phase::Failed;
                self.error = Some(RunError { op: Op::CreateGroup, detail });
                false
            },
            GroupCreation::ChannelFailed { detail } => {
                self.group_open = true;
                self.ledger.group_acquired = 1;
                self.phase = Phase::Failed;
                self.error = Some(RunError { op: Op::CreateChannel, detail });
                false
            },
            GroupCreation::AssociateFailed { detail } => {
                self.group_open = true;
                self.channel_open = true;
                self.ledger.group_acquired = 1;
                self.ledger.channel_acquired = 1;
                self.phase = Phase::Failed;
                self.error = Some(RunError { op: Op::AssociateChannel, detail });
                false
            },
        }
    }

    /// Takes the outcome of creating the target process in a suspended state.
    /// On success the run owns the new process and thread handles; the
    /// process exists but no code in it has run.
    pub fn on_launched(&mut self, outcome: Result<(), String>) -> (ok: bool)
        requires
            old(self)@.wf(),
            old(self)@.phase == Phase::GroupReady,
        ensures
            final(self)@.wf(),
            match outcome {
                Result::Ok(_) => ok && final(self)@ == (SessionView {
                    phase: Phase::Launched,
                    process_open: true,
                    thread_open: true,
                    ledger: (Ledger {
                        process_acquired: 1u32,
                        thread_acquired: 1u32,
                        ..old(self)@.ledger
                    }),
                    ..old(self)@
                }),
                Result::Err(d) => !ok && final(self)@ == (SessionView {
                    phase: Phase::Failed,
                    error: Some(RunError { op: Op::CreateProcess, detail: d }),
                    ..old(self)@
                }),
            },
    {
        match outcome {
            Ok(()) => {
                self.process_open = true;
                self.thread_open = true;
                self.ledger.process_acquired = 1;
                self.ledger.thread_acquired = 1;
                self.phase = Phase::Launched;
                true
            },
            Err(d) => {
                self.phase = Phase::Failed;
                self.error = Some(RunError { op: Op::CreateProcess, detail: d });
                false
            },
        }
    }

    /// Takes the outcome of placing the process into the group.  The process
    /// must still be suspended — attaching is only accepted straight after
    /// the launch, before anything has been resumed — because membership is
    /// what makes the kernel account for the process and for everything it
    /// spawns.
    pub fn on_attached(&mut self, outcome: Result<(), String>) -> (ok: bool)
        requires
            old(self)@.wf(),
            old(self)@.phase == Phase::Launched,
        ensures
            final(self)@.wf(),
            match outcome {
                Result::Ok(_) => ok && final(self)@ == (SessionView {
                    phase: Phase::Attached,
                    attached: true,
                    ..old(self)@
                }),
                Result::Err(d) => !ok && final(self)@ == (SessionView {
                    phase: Phase::Failed,
                    error: Some(RunError { op: Op::AttachProcess, detail: d }),
                    ..old(self)@
                }),
            },
    {
        match outcome {
            Ok(()) => {
                self.attached = true;
                self.phase = Phase::Attached;
                true
            },
            Err(d) => {
                self.phase = Phase::Failed;
                self.error = Some(RunError { op: Op::AttachProcess, detail: d });
                false
            },
        }
    }

    /// Releases the process handle.  Group membership, not this handle, is
    /// what keeps the accounting alive, so the handle goes as soon as the
    /// process is attached.
    pub fn close_process(&mut self)
        requires
            old(self)@.wf(),
            old(self)@.phase == Phase::Attached,
        ensures
            final(self)@.wf(),
            final(self)@ == (SessionView {
                phase: Phase::ProcessClosed,
                process_open: false,
                ledger: (Ledger {
                    process_released: (old(self)@.ledger.process_released + 1) as u32,
                    ..old(self)@.ledger
                }),
                ..old(self)@
            }),
    {
        self.process_open = false;
        self.ledger.process_released = self.ledger.process_released + 1;
        self.phase = Phase::ProcessClosed;
    }

    /// Takes a monotonic-counter sample as the wall-clock start, just before
    /// the resume.
    pub fn on_wall_start(&mut self, outcome: Result<u64, String>) -> (ok: bool)
        requires
            old(self)@.wf(),
            old(self)@.phase == Phase::ProcessClosed,
        ensures
            final(self)@.wf(),
            match outcome {
                Result::Ok(t) => ok && final(self)@ == (SessionView {
                    phase: Phase::WallStarted,
                    t0: t,
                    ..old(self)@
                }),
                Result::Err(d) => !ok && final(self)@ == (SessionView {
                    phase: Phase::Failed,
                    error: Some(RunError { op: Op::QueryCounter, detail: d }),
                    ..old(self)@
                }),
            },
    {
        match outcome {
            Ok(t) => {
                self.t0 = t;
                self.phase = Phase::WallStarted;
                true
            },
            Err(d) => {
                self.phase = Phase::Failed;
                self.error = Some(RunError { op: Op::QueryCounter, detail: d });
                false
            },
        }
    }

    /// Records that the initial thread has been resumed and its handle
    /// released.  A resume is only accepted once the process is attached and
    /// the wall-clock start sample is taken; from here on the group's
    /// membership changes under operating-system control.
    pub fn on_resumed(&mut self)
        requires
            old(self)@.wf(),
            old(self)@.phase == Phase::WallStarted,
        ensures
            final(self)@.wf(),
            final(self)@ == (SessionView {
                phase: Phase::Resumed,
                resumed: true,
                thread_open: false,
                ledger: (Ledger {
                    thread_released: (old(self)@.ledger.thread_released + 1) as u32,
                    ..old(self)@.ledger
                }),
                ..old(self)@
            }),
    {
        self.resumed = true;
        self.thread_open = false;
        self.ledger.thread_released = self.ledger.thread_released + 1;
        self.phase = Phase::Resumed;
    }

    /// Takes one dequeued notification, or the failure of the dequeue.  The
    /// wait ends — `done` is true — exactly when the dequeue failed or the
    /// message was posted by this run's group and reports that its
    /// active-process count is zero; every other message is ignored and the
    /// wait goes on.
    pub fn on_notification(&mut self, outcome: Result<Notification, String>) -> (done: bool)
        requires
            old(self)@.wf(),
            old(self)@.phase == Phase::Resumed,
        ensures
            final(self)@.wf(),
            match outcome {
                Result::Ok(n) => {
                    if is_completion(old(self)@.group_id, n) {
                        done && final(self)@ == (SessionView { phase: Phase::Drained, ..old(self)@ })
                    } else {
                        !done && final(self)@ == old(self)@
                    }
                },
                Result::Err(d) => done && final(self)@ == (SessionView {
                    phase: Phase::Failed,
                    error: Some(RunError { op: Op::WaitDequeue, detail: d }),
                    ..old(self)@
                }),
            },
    {
        match outcome {
            Ok(n) => {
                if crate::events::ends_wait(self.group_id, &n) {
                    self.phase = Phase::Drained;
                    true
                } else {
                    false
                }
            },
            Err(d) => {
                self.phase = Phase::Failed;
                self.error = Some(RunError { op: Op::WaitDequeue, detail: d });
                true
            },
        }
    }

    /// Feeds dequeued notifications to the wait in order until one ends it.
    /// The wait stops at the first message posted by this run's group that
    /// reports an empty group, and at nothing else: any number of spurious
    /// messages — other sources, individual members joining or exiting —
    /// leaves the wait in place.
    pub fn process_notifications(&mut self, ns: &Vec<Notification>) -> (stopped: Option<usize>)
        requires
            old(self)@.wf(),
            old(self)@.phase == Phase::Resumed,
        ensures
            final(self)@.wf(),
            match stopped {
                Some(k) => {
                    &&& k < ns@.len()
                    &&& is_completion(old(self)@.group_id, ns@[k as int])
                    &&& forall|j: int|
                        0 <= j < k ==> !is_completion(old(self)@.group_id, ns@[j])
                    &&& final(self)@ == (SessionView { phase: Phase::Drained, ..old(self)@ })
                },
                None => {
                    &&& forall|j: int|
                        0 <= j < ns@.len() ==> !is_completion(old(self)@.group_id, ns@[j])
                    &&& final(self)@ == old(self)@
                },
            },
    {
        let mut k: usize = 0;
        while k < ns.len()
            invariant
                k <= ns@.len(),
                self@.wf(),
                self@.phase == Phase::Resumed,
                self@ == old(self)@,
                forall|j: int| 0 <= j < k ==> !is_completion(old(self)@.group_id, ns@[j]),
            decreases ns@.len() - k,
        {
            let done = self.on_notification(Ok(ns[k]));
            if done {
                return Some(k);
            }
            k = k + 1;
        }
        None
    }

    /// Takes a monotonic-counter sample as the wall-clock end, once the group
    /// has reported itself empty.
    pub fn on_wall_stop(&mut self, outcome: Result<u64, String>) -> (ok: bool)
        requires
            old(self)@.wf(),
            old(self)@.phase == Phase::Drained,
        ensures
            final(self)@.wf(),
            match outcome {
                Result::Ok(t) => ok && final(self)@ == (SessionView {
                    phase: Phase::WallStopped,
                    t1: t,
                    ..old(self)@
                }),
                Result::Err(d) => !ok && final(self)@ == (SessionView {
                    phase: Phase::Failed,
                    error: Some(RunError { op: Op::QueryCounter, detail: d }),
                    ..old(self)@
                }),
            },
    {
        match outcome {
            Ok(t) => {
                self.t1 = t;
                self.phase = Phase::WallStopped;
                true
            },
            Err(d) => {
                self.phase = Phase::Failed;
                self.error = Some(RunError { op: Op::QueryCounter, detail: d });
                false
            },
        }
    }

    /// Takes the outcome of reading the group's aggregate CPU accounting:
    /// user-mode and kernel-mode accounting ticks summed by the kernel over
    /// every process that was ever a group member.  Accounting is reliable
    /// only between the completion wait and the group's teardown, so a query
    /// reported in any other state — in particular one attempted after the
    /// group handle was released — counts as a failed query, whatever it
    /// returned.
    pub fn on_accounting(&mut self, outcome: Result<(u64, u64), String>) -> (ok: bool)
        requires
            old(self)@.wf(),
        ensures
            final(self)@.wf(),
            match outcome {
                Result::Ok(times) => {
                    if old(self)@.phase == Phase::WallStopped {
                        ok && final(self)@ == (SessionView {
                            phase: Phase::Accounted,
                            user_ticks: times.0,
                            kernel_ticks: times.1,
                            ..old(self)@
                        })
                    } else {
                        &&& !ok
                        &&& final(self)@.error is Some
                        &&& final(self)@.error->Some_0.op == Op::QueryAccounting
                        &&& final(self)@.error->Some_0.detail@ == Seq::<char>::empty()
                        &&& final(self)@ == (SessionView {
                            phase: Phase::Failed,
                            error: final(self)@.error,
                            ..old(self)@
                        })
                    }
                },
                Result::Err(d) => !ok && final(self)@ == (SessionView {
                    phase: Phase::Failed,
                    error: Some(RunError { op: Op::QueryAccounting, detail: d }),
                    ..old(self)@
                }),
            },
    {
        match outcome {
            Ok(times) => {
                match self.phase {
                    Phase::WallStopped => {
                        self.user_ticks = times.0;
                        self.kernel_ticks = times.1;
                        self.phase = Phase::Accounted;
                        true
                    },
                    _ => {
                        self.phase = Phase::Failed;
                        self.error = Some(RunError {
                            op: Op::QueryAccounting,
                            detail: String::new(),
                        });
                        false
                    },
                }
            },
            Err(d) => {
                self.phase = Phase::Failed;
                self.error = Some(RunError { op: Op::QueryAccounting, detail: d });
                false
            },
        }
    }

    /// Releases the group and channel handles together, after the accounting
    /// has been read; the run is complete.
    pub fn finish(&mut self)
        requires
            old(self)@.wf(),
            old(self)@.phase == Phase::Accounted,
        ensures
            final(self)@.wf(),
            final(self)@.settled(),
            final(self)@ == (SessionView {
                phase: Phase::Finished,
                group_open: false,
                channel_open: false,
                ledger: (Ledger {
                    group_released: (old(self)@.ledger.group_released + 1) as u32,
                    channel_released: (old(self)@.ledger.channel_released + 1) as u32,
                    ..old(self)@.ledger
                }),
                ..old(self)@
            }),
    {
        self.group_open = false;
        self.channel_open = false;
        self.ledger.group_released = self.ledger.group_released + 1;
        self.ledger.channel_released = self.ledger.channel_released + 1;
        self.phase = Phase::Finished;
    }

    /// Releases every handle a failed run still owns.  After this the run is
    /// settled: the ledger is balanced whichever step failed.
    pub fn release_remaining(&mut self)
        requires
            old(self)@.wf(),
            old(self)@.phase == Phase::Failed,
        ensures
            final(self)@.wf(),
            final(self)@.settled(),
            final(self)@.ledger.balanced(),
            final(self)@ == (SessionView {
                process_open: false,
                thread_open: false,
                group_open: false,
                channel_open: false,
                ledger: final(self)@.ledger,
                ..old(self)@
            }),
            final(self)@.ledger.process_acquired == old(self)@.ledger.process_acquired,
            final(self)@.ledger.thread_acquired == old(self)@.ledger.thread_acquired,
            final(self)@.ledger.group_acquired == old(self)@.ledger.group_acquired,
            final(self)@.ledger.channel_acquired == old(self)@.ledger.channel_acquired,
    {
        if self.process_open {
            self.process_open = false;
            self.ledger.process_released = self.ledger.process_released + 1;
        }
        if self.thread_open {
            self.thread_open = false;
            self.ledger.thread_released = self.ledger.thread_released + 1;
        }
        if self.group_open {
            self.group_open = false;
            self.ledger.group_released = self.ledger.group_released + 1;
        }
        if self.channel_open {
            self.channel_open = false;
            self.ledger.channel_released = self.ledger.channel_released + 1;
        }
    }

    /// The `{wall, user, kernel}` triple of a completed run, in milliseconds:
    /// wall time from the two counter samples and the counter frequency, CPU
    /// times from the group's accounting ticks — exactly the values the group
    /// reported, converted, nothing else.
    pub fn report(&self) -> (t: Times)
        requires
            self@.wf(),
            self@.phase == Phase::Finished,
        ensures
            t.wall == spec_wall_millis(self@.t0, self@.t1, self@.freq),
            t.user == self@.user_ticks / ACCOUNTING_TICKS_PER_MS,
            t.kernel == self@.kernel_ticks / ACCOUNTING_TICKS_PER_MS,
    {
        Times {
            wall: wall_millis(self.t0, self.t1, self.freq),
            user: accounting_millis(self.user_ticks),
            kernel: accounting_millis(self.kernel_ticks),
        }
    }

    /// The phase the run is in.
    pub fn phase(&self) -> (p: Phase)
        ensures
            p == self@.phase,
    {
        self.phase
    }

    /// The handle ledger as recorded so far.
    pub fn ledger(&self) -> (l: Ledger)
        ensures
            l == self@.ledger,
    {
        self.ledger
    }

    /// The recorded failure, present exactly when the run has failed.
    pub fn error_ref(&self) -> (e: Option<&RunError>)
        ensures
            match e {
                Some(r) => self@.error == Some(*r),
                None => self@.error is None,
            },
    {
        self.error.as_ref()
    }
}

/// Law: reported durations are never negative.  Wall, user and kernel times
/// are tick counts and tick quotients of unsigned quantities.
pub proof fn lemma_times_nonnegative(t: Times)
    ensures
        t.wall >= 0,
        t.user >= 0,
        t.kernel >= 0,
{
}

/// Law: a run whose command has been resumed attached it to the group first.
/// A resume is only accepted in a state the machine can reach by attaching
/// beforehand, so no process escapes the group's accounting by running before
/// membership.
pub proof fn lemma_attach_before_resume(s: Session)
    requires
        s@.wf(),
        s@.resumed,
    ensures
        s@.attached,
{
}

/// Law: when a run is settled — finished, or failed and cleaned up — every
/// kernel handle it acquired has been released exactly once, on the
/// successful and on every failure path alike.
pub proof fn lemma_handle_hygiene(s: Session)
    requires
        s@.wf(),
        s@.settled(),
    ensures
        s@.ledger.balanced(),
        s@.ledger.process_acquired <= 1 && s@.ledger.thread_acquired <= 1
            && s@.ledger.group_acquired <= 1 && s@.ledger.channel_acquired <= 1,
{
}

} // verus!
