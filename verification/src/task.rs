//! Periodic task descriptors.
//!
//! A task is a fixed-size record of a period, a worst-case execution time
//! (WCET), a priority, bookkeeping counters, and an optional body that the
//! kernel invokes with a shared scratch buffer.

use vstd::prelude::*;

verus! {

/// Greatest number of task slots a scheduler table holds.
pub const MAX_TASKS: usize = 16;

/// Number of bytes kept for a task's diagnostic name.
pub const NAME_BYTES: usize = 8;

/// Task priority: a lower numeric value means a higher priority.
///
/// The order is the numeric order on the full `0..=255` range;
/// the idle rung is strictly the lowest.
#[derive(Clone, Copy, Debug, PartialEq, Eq, Structural, PartialOrd, Ord)]
pub struct TaskPriority(pub u8);

impl TaskPriority {
    /// Highest rung (e.g. audio-rate work).
    pub fn critical() -> (p: TaskPriority)
        ensures
            p == TaskPriority(0u8),
    {
        TaskPriority(0)
    }

    /// High rung (e.g. motion control).
    pub fn high() -> (p: TaskPriority)
        ensures
            p == TaskPriority(1u8),
    {
        TaskPriority(1)
    }

    /// Normal rung (e.g. sensor processing).
    pub fn normal() -> (p: TaskPriority)
        ensures
            p == TaskPriority(2u8),
    {
        TaskPriority(2)
    }

    /// Low rung (e.g. logging, telemetry).
    pub fn low() -> (p: TaskPriority)
        ensures
            p == TaskPriority(3u8),
    {
        TaskPriority(3)
    }

    /// Background rung: the numerically lowest priority.
    pub fn idle() -> (p: TaskPriority)
        ensures
            p == TaskPriority(255u8),
    {
        TaskPriority(255)
    }
}

/// Scheduling state of a task slot.
#[derive(Clone, Copy, Debug, PartialEq, Eq, Structural)]
pub enum TaskState {
    /// Eligible for dispatch.
    Ready,
    /// Being dispatched within the current tick.
    Running,
    /// Waiting for its next period.
    Sleeping,
    /// Inhibited by the user until resumed.
    Suspended,
    /// Empty slot.
    Inactive,
}

/// A periodic task descriptor.
///
/// `F` is the type of the task body, a function value that takes the
/// kernel's scratch buffer and hands it back. A descriptor holds a body
/// exactly when its slot is in use; an `Inactive` slot holds none.
pub struct Task<F> {
    /// Diagnostic name, exactly `NAME_BYTES` bytes, zero-padded.
    pub name: Vec<u8>,
    /// The task body; `None` for an empty slot.
    pub func: Option<F>,
    /// Priority rung (lower value = higher priority).
    pub priority: TaskPriority,
    /// Period in microseconds; `0` is reserved (the task is inert).
    pub period_us: u32,
    /// Worst-case execution time in microseconds.
    pub wcet_us: u32,
    /// Current scheduling state.
    pub state: TaskState,
    /// Absolute microsecond tick at which the task is due next.
    pub next_activation: u64,
    /// How many times the task has been dispatched (wraps at 2^32).
    pub exec_count: u32,
    /// How many activations were observed at least a full period late
    /// (wraps at 2^32).
    pub deadline_misses: u32,
    /// Bytes of the shared scratch space the task claims (diagnostic).
    pub scratch_size: u16,
}

impl<F> Task<F> {
    /// Share of the processor the task claims, in parts per million:
    /// `wcet_us / period_us`, and zero when the period is zero.
    pub open spec fn spec_utilization_ppm(self) -> int {
        if self.period_us == 0 {
            0
        } else {
            self.wcet_us * 1_000_000 / self.period_us as int
        }
    }

    /// A descriptor is well formed when its name is fully materialized.
    pub open spec fn wf(self) -> bool {
        self.name@.len() == NAME_BYTES
    }

    /// An empty slot: no body, `Inactive`, idle priority, all counters zero.
    pub fn empty() -> (t: Task<F>)
        ensures
            t.wf(),
            t.name@ == Seq::<u8>::new(NAME_BYTES as nat, |i: int| 0u8),
            t.func is None,
            t.priority == TaskPriority(255u8),
            t.period_us == 0,
            t.wcet_us == 0,
            t.state == TaskState::Inactive,
            t.next_activation == 0,
            t.exec_count == 0,
            t.deadline_misses == 0,
            t.scratch_size == 0,
    {
        let mut name: Vec<u8> = Vec::new();
        let mut i: usize = 0;
        while i < NAME_BYTES
            invariant
                i <= NAME_BYTES,
                name@ =~= Seq::<u8>::new(i as nat, |j: int| 0u8),
            decreases NAME_BYTES - i,
        {
            name.push(0u8);
            i += 1;
        }
        Task {
            name,
            func: None,
            priority: TaskPriority(255),
            period_us: 0,
            wcet_us: 0,
            state: TaskState::Inactive,
            next_activation: 0,
            exec_count: 0,
            deadline_misses: 0,
            scratch_size: 0,
        }
    }

    /// A new periodic task: `Ready`, counters zero, due at tick zero.
    /// The name is truncated to `NAME_BYTES` bytes and zero-padded.
    pub fn new(name: &[u8], func: F, priority: TaskPriority, period_us: u32, wcet_us: u32) -> (t:
        Task<F>)
        ensures
            t.wf(),
            t.name@.len() == NAME_BYTES,
            forall|i: int|
                0 <= i < NAME_BYTES ==> t.name@[i] == (if i < name@.len() {
                    name@[i]
                } else {
                    0u8
                }),
            t.func == Some(func),
            t.priority == priority,
            t.period_us == period_us,
            t.wcet_us == wcet_us,
            t.state == TaskState::Ready,
            t.next_activation == 0,
            t.exec_count == 0,
            t.deadline_misses == 0,
            t.scratch_size == 0,
    {
        let mut n: Vec<u8> = Vec::new();
        let mut i: usize = 0;
        while i < NAME_BYTES
            invariant
                i <= NAME_BYTES,
                n@.len() == i,
                forall|j: int|
                    0 <= j < i ==> n@[j] == (if j < name@.len() {
                        name@[j]
                    } else {
                        0u8
                    }),
            decreases NAME_BYTES - i,
        {
            if i < name.len() {
                n.push(name[i]);
            } else {
                n.push(0u8);
            }
            i += 1;
        }
        Task {
            name: n,
            func: Some(func),
            priority,
            period_us,
            wcet_us,
            state: TaskState::Ready,
            next_activation: 0,
            exec_count: 0,
            deadline_misses: 0,
            scratch_size: 0,
        }
    }

    /// Whether this slot holds a task (any state other than `Inactive`).
    pub fn is_active(&self) -> (r: bool)
        ensures
            r == (self.state != TaskState::Inactive),
    {
        self.state != TaskState::Inactive
    }

    /// Processor utilization in parts per million (`wcet_us / period_us`;
    /// zero when the period is zero).
    pub fn utilization_ppm(&self) -> (r: u64)
        ensures
            r == self.spec_utilization_ppm(),
    {
        if self.period_us == 0 {
            0
        } else {
            (self.wcet_us as u64) * 1_000_000 / (self.period_us as u64)
        }
    }

    /// Activation frequency in millihertz (`10^9 / period_us`; zero when
    /// the period is zero).
    pub fn frequency_millihz(&self) -> (r: u64)
        ensures
            r == (if self.period_us == 0 {
                0int
            } else {
                1_000_000_000int / self.period_us as int
            }),
    {
        if self.period_us == 0 {
            0
        } else {
            1_000_000_000u64 / (self.period_us as u64)
        }
    }
}

} // verus!
