//! The bridge that lets a unit run a blocking operation without
//! stalling the cooperative scheduler.
//!
//! A pipeline that starts a blocking operation suspends at the call
//! site; the operation itself runs on a worker, never on the scheduler
//! thread, and its completion resumes the owning pipeline with the
//! outcome. Ticking one pipeline touches no other, so siblings sharing
//! the scheduler keep advancing during a suspension. Cancelling a
//! pipeline never kills an outstanding operation: the task is detached,
//! finishes naturally, and its outcome is discarded on delivery.

use vstd::prelude::*;

use crate::errors::UnitError;

verus! {

/// A blocking operation a unit may request; the scheduler hands it to
/// a worker verbatim.
pub enum BlockingAction {
    /// Open a network client connection to the given address.
    Connect(String),
    /// Wait for the next incoming message of the unit's client.
    ReadMessage,
    /// Transmit the given text on the unit's client.
    SendText(String),
}

/// Mathematical model of a blocking action.
pub enum BlockingActionModel {
    Connect(Seq<char>),
    ReadMessage,
    SendText(Seq<char>),
}

impl View for BlockingAction {
    type V = BlockingActionModel;

    open spec fn view(&self) -> BlockingActionModel {
        match *self {
            BlockingAction::Connect(a) => BlockingActionModel::Connect(a@),
            BlockingAction::ReadMessage => BlockingActionModel::ReadMessage,
            BlockingAction::SendText(t) => BlockingActionModel::SendText(t@),
        }
    }
}

/// The outcome a worker reports back for a finished blocking action.
pub enum BlockingEvent {
    /// A connection was established; the payload word stands for the
    /// connected client resource.
    Connected(u64),
    ConnectFailed,
    /// A text message arrived.
    TextMessage(String),
    /// A non-text message arrived.
    NonTextMessage,
    ReadFailed,
    /// The transmission completed.
    Sent,
    SendFailed,
}

/// Mathematical model of a blocking event.
pub enum BlockingEventModel {
    Connected(u64),
    ConnectFailed,
    TextMessage(Seq<char>),
    NonTextMessage,
    ReadFailed,
    Sent,
    SendFailed,
}

impl View for BlockingEvent {
    type V = BlockingEventModel;

    open spec fn view(&self) -> BlockingEventModel {
        match *self {
            BlockingEvent::Connected(p) => BlockingEventModel::Connected(p),
            BlockingEvent::ConnectFailed => BlockingEventModel::ConnectFailed,
            BlockingEvent::TextMessage(t) => BlockingEventModel::TextMessage(t@),
            BlockingEvent::NonTextMessage => BlockingEventModel::NonTextMessage,
            BlockingEvent::ReadFailed => BlockingEventModel::ReadFailed,
            BlockingEvent::Sent => BlockingEventModel::Sent,
            BlockingEvent::SendFailed => BlockingEventModel::SendFailed,
        }
    }
}

/// Where a pipeline stands with respect to the scheduler.
#[derive(Clone, Copy, Debug, PartialEq, Eq, Structural)]
pub enum PipelineStatus {
    /// Eligible to advance on its next tick.
    Running,
    /// Waiting on the blocking task with this index; ticks pass it by.
    Suspended(usize),
    /// Cancelled between ticks; never advances again.
    Aborted,
}

/// One pipeline: its status and how many ticks it has completed.
#[derive(Clone, Copy, Debug, PartialEq, Eq, Structural)]
pub struct PipelineState {
    pub status: PipelineStatus,
    pub ticks: u64,
}

/// One blocking task held by a worker.
#[derive(Clone, Copy, Debug, PartialEq, Eq, Structural)]
pub enum TaskState {
    /// In flight; its outcome will resume the owning pipeline.
    Pending(usize),
    /// In flight, but the owner was cancelled: the outcome will be
    /// discarded on delivery. The worker is never force-killed.
    Detached,
    /// Delivered; the slot is spent.
    Done,
}

/// A tick advances the count by one, saturating at the top.
pub open spec fn advanced(t: u64) -> u64 {
    if t == u64::MAX {
        t
    } else {
        (t + 1) as u64
    }
}

/// What ticking pipeline `p` does: only `p` is touched, its status is
/// kept, and its count advances exactly when it is running.
pub open spec fn tick_post(pre: Seq<PipelineState>, post: Seq<PipelineState>, p: int) -> bool {
    &&& 0 <= p < pre.len()
    &&& post == pre.update(
        p,
        PipelineState {
            status: pre[p].status,
            ticks: if pre[p].status is Running {
                advanced(pre[p].ticks)
            } else {
                pre[p].ticks
            },
        },
    )
}

/// Task `t` exists and is pending on behalf of pipeline `p`.
pub open spec fn task_pending_for(tasks: Seq<TaskState>, t: int, p: usize) -> bool {
    0 <= t < tasks.len() && tasks[t] == TaskState::Pending(p)
}

/// The cooperative scheduler: its pipelines and the blocking tasks
/// their workers hold.
pub struct Scheduler {
    pub pipelines: Vec<PipelineState>,
    pub tasks: Vec<TaskState>,
}

impl Scheduler {
    pub fn new() -> (r: Scheduler)
        ensures
            r.pipelines@ =~= Seq::<PipelineState>::empty(),
            r.tasks@ =~= Seq::<TaskState>::empty(),
    {
        Scheduler { pipelines: Vec::new(), tasks: Vec::new() }
    }

    /// Register a pipeline; it starts running with zero ticks.
    pub fn add_pipeline(&mut self) -> (r: usize)
        ensures
            r == old(self).pipelines@.len(),
            final(self).pipelines@ == old(self).pipelines@.push(
                PipelineState { status: PipelineStatus::Running, ticks: 0 },
            ),
            final(self).tasks@ == old(self).tasks@,
    {
        let id = self.pipelines.len();
        self.pipelines.push(PipelineState { status: PipelineStatus::Running, ticks: 0 });
        id
    }

    /// Advance pipeline `p` by one tick if it is running. No other
    /// pipeline is touched: a sibling's suspension never stalls `p`.
    /// Returns whether `p` advanced.
    pub fn tick(&mut self, p: usize) -> (r: Result<bool, UnitError>)
        ensures
            p >= old(self).pipelines@.len() ==> {
                &&& r == Err::<bool, UnitError>(UnitError::Parameter)
                &&& final(self).pipelines@ == old(self).pipelines@
            },
            p < old(self).pipelines@.len() ==> {
                &&& tick_post(old(self).pipelines@, final(self).pipelines@, p as int)
                &&& r == Ok::<bool, UnitError>(old(self).pipelines@[p as int].status is Running)
            },
            final(self).tasks@ == old(self).tasks@,
    {
        if p >= self.pipelines.len() {
            return Err(UnitError::Parameter);
        }
        let cur = self.pipelines[p];
        match cur.status {
            PipelineStatus::Running => {
                let t = if cur.ticks == u64::MAX {
                    cur.ticks
                } else {
                    cur.ticks + 1
                };
                self.pipelines.set(p, PipelineState { status: cur.status, ticks: t });
                proof {
                    assert(final(self).pipelines@ =~= old(self).pipelines@.update(
                        p as int,
                        PipelineState {
                            status: old(self).pipelines@[p as int].status,
                            ticks: advanced(old(self).pipelines@[p as int].ticks),
                        },
                    ));
                }
                Ok(true)
            },
            _ => {
                proof {
                    assert(final(self).pipelines@ =~= old(self).pipelines@.update(
                        p as int,
                        old(self).pipelines@[p as int],
                    ));
                }
                Ok(false)
            },
        }
    }

    /// Start a blocking operation for running pipeline `p`: the
    /// pipeline suspends at the call site and a fresh pending task,
    /// owned by a worker, is handed out for the action.
    pub fn begin_blocking(&mut self, p: usize) -> (r: Result<usize, UnitError>)
        ensures
            match r {
                Ok(t) => {
                    &&& p < old(self).pipelines@.len()
                    &&& old(self).pipelines@[p as int].status is Running
                    &&& t == old(self).tasks@.len()
                    &&& final(self).tasks@ == old(self).tasks@.push(TaskState::Pending(p))
                    &&& final(self).pipelines@ == old(self).pipelines@.update(
                        p as int,
                        PipelineState {
                            status: PipelineStatus::Suspended(t),
                            ticks: old(self).pipelines@[p as int].ticks,
                        },
                    )
                },
                Err(e) => {
                    &&& final(self).pipelines@ == old(self).pipelines@
                    &&& final(self).tasks@ == old(self).tasks@
                    &&& if p >= old(self).pipelines@.len() {
                        e == UnitError::Parameter
                    } else {
                        e == UnitError::Lifecycle && !(old(self).pipelines@[p as int].status
                            is Running)
                    }
                },
            },
    {
        if p >= self.pipelines.len() {
            return Err(UnitError::Parameter);
        }
        let cur = self.pipelines[p];
        match cur.status {
            PipelineStatus::Running => {
                let t = self.tasks.len();
                self.tasks.push(TaskState::Pending(p));
                self.pipelines.set(
                    p,
                    PipelineState { status: PipelineStatus::Suspended(t), ticks: cur.ticks },
                );
                Ok(t)
            },
            _ => Err(UnitError::Lifecycle),
        }
    }

    /// Deliver the completion of task `t`. A pending task resumes its
    /// owner — the caller routes the worker's event into that
    /// pipeline's suspended unit — while a detached task's outcome is
    /// discarded. Either way the slot is spent.
    pub fn deliver(&mut self, t: usize) -> (r: Result<Option<usize>, UnitError>)
        ensures
            match r {
                Ok(owner) => {
                    &&& t < old(self).tasks@.len()
                    &&& final(self).tasks@ == old(self).tasks@.update(t as int, TaskState::Done)
                    &&& match old(self).tasks@[t as int] {
                        TaskState::Pending(p) => {
                            &&& owner == Some(p)
                            &&& p < old(self).pipelines@.len()
                                && old(self).pipelines@[p as int].status == PipelineStatus::Suspended(t)
                                ==> final(self).pipelines@ == old(self).pipelines@.update(
                                p as int,
                                PipelineState {
                                    status: PipelineStatus::Running,
                                    ticks: old(self).pipelines@[p as int].ticks,
                                },
                            )
                            &&& !(p < old(self).pipelines@.len()
                                && old(self).pipelines@[p as int].status == PipelineStatus::Suspended(t))
                                ==> final(self).pipelines@ == old(self).pipelines@
                        },
                        TaskState::Detached => owner is None && final(self).pipelines@ == old(
                            self,
                        ).pipelines@,
                        TaskState::Done => false,
                    }
                },
                Err(e) => {
                    &&& final(self).pipelines@ == old(self).pipelines@
                    &&& final(self).tasks@ == old(self).tasks@
                    &&& if t >= old(self).tasks@.len() {
                        e == UnitError::Parameter
                    } else {
                        e == UnitError::Lifecycle && old(self).tasks@[t as int] is Done
                    }
                },
            },
    {
        if t >= self.tasks.len() {
            return Err(UnitError::Parameter);
        }
        let cur = self.tasks[t];
        match cur {
            TaskState::Pending(p) => {
                self.tasks.set(t, TaskState::Done);
                if p < self.pipelines.len() {
                    let pl = self.pipelines[p];
                    match pl.status {
                        PipelineStatus::Suspended(s) => {
                            if s == t {
                                self.pipelines.set(
                                    p,
                                    PipelineState {
                                        status: PipelineStatus::Running,
                                        ticks: pl.ticks,
                                    },
                                );
                            }
                        },
                        _ => {},
                    }
                }
                Ok(Some(p))
            },
            TaskState::Detached => {
                self.tasks.set(t, TaskState::Done);
                Ok(None)
            },
            TaskState::Done => Err(UnitError::Lifecycle),
        }
    }

    /// Cancel pipeline `p` between ticks. An outstanding blocking task
    /// is detached, never force-killed: the worker finishes naturally
    /// and its outcome is discarded at delivery.
    pub fn cancel_pipeline(&mut self, p: usize) -> (r: Result<(), UnitError>)
        ensures
            match r {
                Ok(()) => {
                    &&& p < old(self).pipelines@.len()
                    &&& final(self).pipelines@ == old(self).pipelines@.update(
                        p as int,
                        PipelineState {
                            status: PipelineStatus::Aborted,
                            ticks: old(self).pipelines@[p as int].ticks,
                        },
                    )
                    &&& match old(self).pipelines@[p as int].status {
                        PipelineStatus::Suspended(t) => {
                            &&& task_pending_for(old(self).tasks@, t as int, p)
                                ==> final(self).tasks@ == old(self).tasks@.update(
                                t as int,
                                TaskState::Detached,
                            )
                            &&& !task_pending_for(old(self).tasks@, t as int, p)
                                ==> final(self).tasks@ == old(self).tasks@
                        },
                        _ => final(self).tasks@ == old(self).tasks@,
                    }
                },
                Err(e) => {
                    &&& e == UnitError::Parameter
                    &&& p >= old(self).pipelines@.len()
                    &&& final(self).pipelines@ == old(self).pipelines@
                    &&& final(self).tasks@ == old(self).tasks@
                },
            },
    {
        if p >= self.pipelines.len() {
            return Err(UnitError::Parameter);
        }
        let cur = self.pipelines[p];
        match cur.status {
            PipelineStatus::Suspended(t) => {
                if t < self.tasks.len() {
                    match self.tasks[t] {
                        TaskState::Pending(q) => {
                            if q == p {
                                self.tasks.set(t, TaskState::Detached);
                            }
                        },
                        _ => {},
                    }
                }
            },
            _ => {},
        }
        self.pipelines.set(p, PipelineState { status: PipelineStatus::Aborted, ticks: cur.ticks });
        Ok(())
    }
}

/// Non-blocking law: while pipeline `a` sits suspended on a blocking
/// task, ticking an independent running pipeline `b` advances `b`'s
/// tick count and leaves `a` exactly as it was — a blocking delay on
/// one pipeline never delays a sibling's progress.
pub proof fn lemma_sibling_progress(
    pre: Seq<PipelineState>,
    post: Seq<PipelineState>,
    a: int,
    b: int,
)
    requires
        0 <= a < pre.len(),
        0 <= b < pre.len(),
        a != b,
        pre[a].status is Suspended,
        pre[b].status is Running,
        pre[b].ticks < u64::MAX,
        tick_post(pre, post, b),
    ensures
        post[a] == pre[a],
        post[b].ticks == pre[b].ticks + 1,
        post[b].status == pre[b].status,
{
}

} // verus!
