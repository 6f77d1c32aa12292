//! Rate-monotonic scheduler over a fixed table of task descriptors.
//!
//! One `tick` marks due sleepers ready, selects the ready task on the
//! numerically smallest priority rung (lowest index on a tie), accounts
//! for deadline misses and context switches, and schedules the task's
//! next activation. The whole transition is specified by the spec
//! functions `spec_wake1`, `spec_woken`, `spec_select_upto` and
//! `spec_dispatch`, and `tick`'s contract pins the new state to them.

use vstd::prelude::*;

use crate::task::MAX_TASKS;
use crate::task::Task;
use crate::task::TaskPriority;
use crate::task::TaskState;

verus! {

/// Utilization in parts per million can never exceed this per task:
/// a WCET of `u32::MAX` microseconds against a period of one microsecond.
pub const UTIL_PPM_MAX: u64 = 4294967295000000;

/// Ghost model of a scheduler state: the task table as a sequence beside
/// the control fields. `Scheduler::model` projects onto it, and
/// `spec_tick_model` is the tick transition as a total function on it,
/// so that a bounded run is pinned to the iterated transition.
pub struct SchedModel<F> {
    /// The task table.
    pub tasks: Seq<Task<F>>,
    /// How many leading slots are registered.
    pub task_count: int,
    /// Index dispatched most recently.
    pub current_task: Option<int>,
    /// Current system time in microseconds.
    pub tick_us: u64,
    /// Total context switches.
    pub context_switches: u32,
}

/// Fixed-table rate-monotonic scheduler.
pub struct Scheduler<F> {
    /// The task table, always exactly `MAX_TASKS` slots.
    pub tasks: Vec<Task<F>>,
    /// How many leading slots have been handed out by `register`.
    pub task_count: usize,
    /// Index dispatched most recently; `None` after an idle tick.
    pub current_task: Option<usize>,
    /// Current system time in microseconds.
    pub tick_us: u64,
    /// Total context switches (wraps at 2^32).
    pub context_switches: u32,
}

impl<F> Scheduler<F> {
    /// Structural invariant: a full table and a registration count that
    /// stays within it.
    pub open spec fn wf(self) -> bool {
        &&& self.tasks@.len() == MAX_TASKS
        &&& self.task_count <= MAX_TASKS
        &&& forall|j: int| 0 <= j < MAX_TASKS ==> (#[trigger] self.tasks@[j]).wf()
    }

    /// An unused slot as `Scheduler::new` leaves it.
    pub open spec fn spec_empty_slot(t: Task<F>) -> bool {
        &&& t.func is None
        &&& t.priority == TaskPriority(255u8)
        &&& t.period_us == 0
        &&& t.wcet_us == 0
        &&& t.state == TaskState::Inactive
        &&& t.next_activation == 0
        &&& t.exec_count == 0
        &&& t.deadline_misses == 0
    }

    /// One task after the readiness pass at time `now`: a sleeping task
    /// whose activation time has come turns `Ready`; all else is kept.
    pub open spec fn spec_wake1(t: Task<F>, now: u64) -> Task<F> {
        if t.state == TaskState::Sleeping && now >= t.next_activation {
            Task { state: TaskState::Ready, ..t }
        } else {
            t
        }
    }

    /// The whole table after the readiness pass over the first `count`
    /// slots at time `now`.
    pub open spec fn spec_woken(tasks: Seq<Task<F>>, count: int, now: u64) -> Seq<Task<F>> {
        Seq::new(
            tasks.len(),
            |i: int|
                if i < count {
                    Self::spec_wake1(tasks[i], now)
                } else {
                    tasks[i]
                },
        )
    }

    /// The priority rung a candidate stands on; no candidate counts as
    /// `256`, above every real rung, so that any ready task beats it.
    pub open spec fn spec_prio(tasks: Seq<Task<F>>, sel: Option<int>) -> int {
        match sel {
            None => 256,
            Some(i) => tasks[i].priority.0 as int,
        }
    }

    /// The ready task on the strictly smallest rung among the first `k`
    /// slots, scanning upward so that the lowest index wins a tie; `None`
    /// exactly when no task among them is ready.
    pub open spec fn spec_select_upto(tasks: Seq<Task<F>>, k: int) -> Option<int>
        decreases k,
    {
        if k <= 0 {
            None
        } else {
            let prev = Self::spec_select_upto(tasks, k - 1);
            if tasks[k - 1].state == TaskState::Ready && tasks[k - 1].priority.0
                < Self::spec_prio(tasks, prev) {
                Some(k - 1)
            } else {
                prev
            }
        }
    }

    /// The selected task after its dispatch at time `now`: a miss is
    /// recorded when `now` lies beyond the activation's deadline of one
    /// full period, the execution count steps, the next activation moves
    /// one period forward, and the task sleeps until then. The counters
    /// wrap at 2^32; the activation time wraps with the 64-bit clock.
    pub open spec fn spec_dispatch(t: Task<F>, now: u64) -> Task<F> {
        Task {
            state: TaskState::Sleeping,
            exec_count: t.exec_count.wrapping_add(1u32),
            deadline_misses: if now > t.next_activation.saturating_add(t.period_us as u64) {
                t.deadline_misses.wrapping_add(1u32)
            } else {
                t.deadline_misses
            },
            next_activation: t.next_activation.wrapping_add(t.period_us as u64),
            ..t
        }
    }

    /// How many of the first `k` slots hold a task (state not `Inactive`).
    pub open spec fn spec_active_count(tasks: Seq<Task<F>>, k: int) -> int
        decreases k,
    {
        if k <= 0 {
            0
        } else {
            Self::spec_active_count(tasks, k - 1) + if tasks[k - 1].state != TaskState::Inactive {
                1int
            } else {
                0int
            }
        }
    }

    /// Summed utilization, in parts per million, of the active tasks
    /// among the first `k` slots.
    pub open spec fn spec_total_utilization_ppm(tasks: Seq<Task<F>>, k: int) -> int
        decreases k,
    {
        if k <= 0 {
            0
        } else {
            Self::spec_total_utilization_ppm(tasks, k - 1) + if tasks[k - 1].state
                != TaskState::Inactive {
                tasks[k - 1].spec_utilization_ppm()
            } else {
                0int
            }
        }
    }

    /// The ghost model of this scheduler state.
    pub open spec fn model(self) -> SchedModel<F> {
        SchedModel {
            tasks: self.tasks@,
            task_count: self.task_count as int,
            current_task: match self.current_task {
                Some(i) => Some(i as int),
                None => None,
            },
            tick_us: self.tick_us,
            context_switches: self.context_switches,
        }
    }

    /// The index one tick of `delta` microseconds dispatches from model
    /// state `m`, if any.
    pub open spec fn spec_tick_result(m: SchedModel<F>, delta: u64) -> Option<int> {
        Self::spec_select_upto(
            Self::spec_woken(m.tasks, m.task_count, m.tick_us.wrapping_add(delta)),
            m.task_count,
        )
    }

    /// The whole tick transition on the model: wake the due sleepers,
    /// select, dispatch the selected task and account for the context
    /// switch, exactly as `tick`'s contract states it.
    pub open spec fn spec_tick_model(m: SchedModel<F>, delta: u64) -> SchedModel<F> {
        let now = m.tick_us.wrapping_add(delta);
        let woken = Self::spec_woken(m.tasks, m.task_count, now);
        match Self::spec_select_upto(woken, m.task_count) {
            None => SchedModel { tasks: woken, current_task: None, tick_us: now, ..m },
            Some(i) => SchedModel {
                tasks: woken.update(i, Self::spec_dispatch(woken[i], now)),
                current_task: Some(i),
                tick_us: now,
                context_switches: if m.current_task == Some(i) {
                    m.context_switches
                } else {
                    m.context_switches.wrapping_add(1u32)
                },
                ..m
            },
        }
    }

    /// The model after `n` ticks of `delta` microseconds each.
    pub open spec fn spec_run_model(m: SchedModel<F>, delta: u64, n: nat) -> SchedModel<F>
        decreases n,
    {
        if n == 0 {
            m
        } else {
            Self::spec_run_model(Self::spec_tick_model(m, delta), delta, (n - 1) as nat)
        }
    }

    /// How many of `n` ticks of `delta` microseconds each dispatch a
    /// task, starting from model state `m`.
    pub open spec fn spec_run_executed(m: SchedModel<F>, delta: u64, n: nat) -> int
        decreases n,
    {
        if n == 0 {
            0
        } else {
            (if Self::spec_tick_result(m, delta) is Some {
                1int
            } else {
                0int
            }) + Self::spec_run_executed(Self::spec_tick_model(m, delta), delta, (n - 1) as nat)
        }
    }

    /// The rate-monotonic admission rule: an empty set is schedulable,
    /// and otherwise the summed utilization must stay within the
    /// Liu & Layland bound for the number of active tasks.
    pub open spec fn spec_schedulable(tasks: Seq<Task<F>>, count: int) -> bool {
        let n = Self::spec_active_count(tasks, count);
        n == 0 || Self::spec_total_utilization_ppm(tasks, count) <= spec_liu_layland_bound_ppm(n)
    }

    /// An empty scheduler: a full table of unused slots, nothing
    /// registered, time zero.
    pub fn new() -> (s: Scheduler<F>)
        ensures
            s.wf(),
            s.task_count == 0,
            s.current_task is None,
            s.tick_us == 0,
            s.context_switches == 0,
            forall|j: int| 0 <= j < MAX_TASKS ==> Self::spec_empty_slot(#[trigger] s.tasks@[j]),
    {
        let mut tasks: Vec<Task<F>> = Vec::new();
        let mut i: usize = 0;
        while i < MAX_TASKS
            invariant
                i <= MAX_TASKS,
                tasks@.len() == i,
                forall|j: int| 0 <= j < i ==> Self::spec_empty_slot(#[trigger] tasks@[j]),
                forall|j: int| 0 <= j < i ==> (#[trigger] tasks@[j]).wf(),
            decreases MAX_TASKS - i,
        {
            tasks.push(Task::empty());
            i += 1;
        }
        Scheduler { tasks, task_count: 0, current_task: None, tick_us: 0, context_switches: 0 }
    }

    /// Hand the next unused slot to `task`, due immediately at the
    /// current time; `None` exactly when the table is full, and then
    /// nothing changes.
    pub fn register(&mut self, task: Task<F>) -> (r: Option<usize>)
        requires
            old(self).wf(),
            task.wf(),
        ensures
            final(self).wf(),
            r == (if old(self).task_count < MAX_TASKS {
                Some(old(self).task_count)
            } else {
                None::<usize>
            }),
            old(self).task_count >= MAX_TASKS ==> *final(self) == *old(self),
            old(self).task_count < MAX_TASKS ==> final(self).task_count == old(self).task_count
                + 1,
            old(self).task_count < MAX_TASKS ==> final(self).tasks@ == old(self).tasks@.update(
                old(self).task_count as int,
                (Task { next_activation: old(self).tick_us, ..task }),
            ),
            final(self).tick_us == old(self).tick_us,
            final(self).current_task == old(self).current_task,
            final(self).context_switches == old(self).context_switches,
    {
        if self.task_count >= MAX_TASKS {
            return None;
        }
        let idx = self.task_count;
        let mut t = task;
        t.next_activation = self.tick_us;
        self.tasks[idx] = t;
        self.task_count = idx + 1;
        Some(idx)
    }

    /// Advance time by `delta_us` and account for one dispatch: due
    /// sleepers wake, the ready task on the smallest rung (lowest index
    /// on a tie) is selected, a miss is recorded if its activation is a
    /// full period overdue, its counters and next activation move, and
    /// it sleeps again. Returns the selected index, `None` on an idle
    /// tick. The contract pins the new state to the spec-level
    /// transition.
    pub fn tick(&mut self, delta_us: u64) -> (r: Option<usize>)
        requires
            old(self).wf(),
        ensures
            final(self).wf(),
            final(self).task_count == old(self).task_count,
            final(self).tick_us == old(self).tick_us.wrapping_add(delta_us),
            forall|j: int|
                0 <= j < MAX_TASKS ==> (#[trigger] final(self).tasks@[j]).func
                    == old(self).tasks@[j].func,
            final(self).model() == Self::spec_tick_model(old(self).model(), delta_us),
            (r is Some) == (Self::spec_tick_result(old(self).model(), delta_us) is Some),
            ({
                let now = old(self).tick_us.wrapping_add(delta_us);
                let woken = Self::spec_woken(old(self).tasks@, old(self).task_count as int, now);
                let sel = Self::spec_select_upto(woken, old(self).task_count as int);
                match sel {
                    None => {
                        &&& r is None
                        &&& final(self).tasks@ == woken
                        &&& final(self).current_task is None
                        &&& final(self).context_switches == old(self).context_switches
                    },
                    Some(i) => {
                        &&& r == Some(i as usize)
                        &&& final(self).tasks@ == woken.update(i, Self::spec_dispatch(woken[i], now))
                        &&& final(self).current_task == Some(i as usize)
                        &&& final(self).context_switches == (if old(self).current_task == Some(
                            i as usize,
                        ) {
                            old(self).context_switches
                        } else {
                            old(self).context_switches.wrapping_add(1u32)
                        })
                    },
                }
            }),
    {
        self.tick_us = self.tick_us.wrapping_add(delta_us);
        let count = self.task_count;
        let mut i: usize = 0;
        while i < count
            invariant
                count == self.task_count,
                i <= count,
                self.tasks@.len() == MAX_TASKS,
                count <= MAX_TASKS,
                self.tick_us == old(self).tick_us.wrapping_add(delta_us),
                self.current_task == old(self).current_task,
                self.context_switches == old(self).context_switches,
                forall|j: int| 0 <= j < MAX_TASKS ==> (#[trigger] self.tasks@[j]).wf(),
                forall|j: int|
                    0 <= j < i ==> self.tasks@[j] == Self::spec_wake1(
                        #[trigger] old(self).tasks@[j],
                        self.tick_us,
                    ),
                forall|j: int| i <= j < MAX_TASKS ==> self.tasks@[j] == old(self).tasks@[j],
            decreases count - i,
        {
            if self.tasks[i].state == TaskState::Sleeping && self.tick_us
                >= self.tasks[i].next_activation {
                self.tasks[i].state = TaskState::Ready;
            }
            i += 1;
        }
        proof {
            assert(self.tasks@ =~= Self::spec_woken(
                old(self).tasks@,
                count as int,
                self.tick_us,
            ));
        }
        let ghost woken = self.tasks@;
        let next = self.find_highest_priority_ready();
        match next {
            Some(idx) => {
                proof {
                    Self::lemma_select_in_range(woken, count as int);
                }
                let same = match self.current_task {
                    Some(c) => c == idx,
                    None => false,
                };
                if !same {
                    self.context_switches = self.context_switches.wrapping_add(1);
                    self.current_task = Some(idx);
                }
                if self.tick_us > self.tasks[idx].next_activation.saturating_add(
                    self.tasks[idx].period_us as u64,
                ) {
                    self.tasks[idx].deadline_misses = self.tasks[idx].deadline_misses.wrapping_add(
                        1,
                    );
                }
                self.tasks[idx].state = TaskState::Running;
                self.tasks[idx].exec_count = self.tasks[idx].exec_count.wrapping_add(1);
                self.tasks[idx].next_activation = self.tasks[idx].next_activation.wrapping_add(
                    self.tasks[idx].period_us as u64,
                );
                self.tasks[idx].state = TaskState::Sleeping;
                proof {
                    assert(self.tasks@ =~= woken.update(
                        idx as int,
                        Self::spec_dispatch(woken[idx as int], self.tick_us),
                    ));
                }
                Some(idx)
            },
            None => {
                self.current_task = None;
                None
            },
        }
    }

    /// The ready task on the smallest rung among the registered slots,
    /// lowest index first; `None` exactly when no registered task is
    /// ready.
    fn find_highest_priority_ready(&self) -> (r: Option<usize>)
        requires
            self.wf(),
        ensures
            ({
                let sel = Self::spec_select_upto(self.tasks@, self.task_count as int);
                match r {
                    Some(i) => sel == Some(i as int),
                    None => sel is None,
                }
            }),
    {
        let mut best_idx: Option<usize> = None;
        let mut best_priority: u16 = 256;
        let mut i: usize = 0;
        while i < self.task_count
            invariant
                self.wf(),
                i <= self.task_count,
                ({
                    let sel = Self::spec_select_upto(self.tasks@, i as int);
                    match best_idx {
                        Some(b) => sel == Some(b as int) && b < i && best_priority
                            == self.tasks@[b as int].priority.0,
                        None => sel is None && best_priority == 256,
                    }
                }),
            decreases self.task_count - i,
        {
            if self.tasks[i].state == TaskState::Ready && (self.tasks[i].priority.0 as u16)
                < best_priority {
                best_priority = self.tasks[i].priority.0 as u16;
                best_idx = Some(i);
            }
            i += 1;
        }
        best_idx
    }

    /// Whether the active set passes the rate-monotonic admission test.
    /// This test is sufficient, not necessary: acceptance guarantees all
    /// deadlines under the rate-monotonic assumptions, rejection proves
    /// nothing.
    pub fn is_schedulable(&self) -> (r: bool)
        requires
            self.wf(),
        ensures
            r == Self::spec_schedulable(self.tasks@, self.task_count as int),
    {
        let n = self.active_task_count();
        if n == 0 {
            return true;
        }
        let total = self.total_utilization_ppm();
        let bound = liu_layland_bound_ppm(n);
        total <= bound
    }

    /// Summed utilization of the active tasks, in parts per million.
    pub fn total_utilization_ppm(&self) -> (r: u64)
        requires
            self.wf(),
        ensures
            r == Self::spec_total_utilization_ppm(self.tasks@, self.task_count as int),
    {
        let mut total: u64 = 0;
        let mut i: usize = 0;
        while i < self.task_count
            invariant
                self.wf(),
                i <= self.task_count,
                total == Self::spec_total_utilization_ppm(self.tasks@, i as int),
                total <= i * UTIL_PPM_MAX,
            decreases self.task_count - i,
        {
            proof {
                Self::lemma_util_ppm_bound(self.tasks@[i as int]);
            }
            if self.tasks[i].is_active() {
                let u = self.tasks[i].utilization_ppm();
                total = total + u;
            }
            i += 1;
        }
        total
    }

    /// How many slots hold a task.
    pub fn active_task_count(&self) -> (r: usize)
        requires
            self.wf(),
        ensures
            r == Self::spec_active_count(self.tasks@, self.task_count as int),
            r <= self.task_count,
    {
        proof {
            Self::lemma_active_count_le(self.tasks@, self.task_count as int);
        }
        let mut n: usize = 0;
        let mut i: usize = 0;
        while i < self.task_count
            invariant
                self.wf(),
                i <= self.task_count,
                n == Self::spec_active_count(self.tasks@, i as int),
                n <= i,
            decreases self.task_count - i,
        {
            proof {
                Self::lemma_active_count_le(self.tasks@, i + 1);
            }
            if self.tasks[i].is_active() {
                n = n + 1;
            }
            i += 1;
        }
        n
    }

    /// The task in slot `idx`; `None` for an index never handed out.
    pub fn get_task(&self, idx: usize) -> (r: Option<&Task<F>>)
        requires
            self.wf(),
        ensures
            idx < self.task_count ==> r == Some(&self.tasks@[idx as int]),
            idx >= self.task_count ==> r is None,
    {
        if idx < self.task_count {
            Some(&self.tasks[idx])
        } else {
            None
        }
    }

    /// Current system time in microseconds.
    pub fn now_us(&self) -> (r: u64)
        ensures
            r == self.tick_us,
    {
        self.tick_us
    }

    /// Put the task in slot `idx` into `Suspended`; a no-op for an index
    /// never handed out.
    pub fn suspend(&mut self, idx: usize)
        requires
            old(self).wf(),
        ensures
            final(self).wf(),
            idx < old(self).task_count ==> final(self).tasks@ == old(self).tasks@.update(
                idx as int,
                (Task { state: TaskState::Suspended, ..old(self).tasks@[idx as int] }),
            ),
            idx >= old(self).task_count ==> *final(self) == *old(self),
            final(self).task_count == old(self).task_count,
            final(self).tick_us == old(self).tick_us,
            final(self).current_task == old(self).current_task,
            final(self).context_switches == old(self).context_switches,
    {
        if idx < self.task_count {
            self.tasks[idx].state = TaskState::Suspended;
            proof {
                assert(self.tasks@ =~= old(self).tasks@.update(
                    idx as int,
                    (Task { state: TaskState::Suspended, ..old(self).tasks@[idx as int] }),
                ));
            }
        }
    }

    /// Make a suspended task in slot `idx` `Ready` and due immediately;
    /// a no-op for any other slot or index.
    pub fn resume(&mut self, idx: usize)
        requires
            old(self).wf(),
        ensures
            final(self).wf(),
            idx < old(self).task_count && old(self).tasks@[idx as int].state
                == TaskState::Suspended ==> final(self).tasks@ == old(self).tasks@.update(
                idx as int,
                (Task {
                    state: TaskState::Ready,
                    next_activation: old(self).tick_us,
                    ..old(self).tasks@[idx as int]
                }),
            ),
            !(idx < old(self).task_count && old(self).tasks@[idx as int].state
                == TaskState::Suspended) ==> *final(self) == *old(self),
            final(self).task_count == old(self).task_count,
            final(self).tick_us == old(self).tick_us,
            final(self).current_task == old(self).current_task,
            final(self).context_switches == old(self).context_switches,
    {
        if idx < self.task_count {
            let is_suspended = match self.tasks[idx].state {
                TaskState::Suspended => true,
                _ => false,
            };
            if is_suspended {
                self.tasks[idx].state = TaskState::Ready;
                self.tasks[idx].next_activation = self.tick_us;
                proof {
                    assert(self.tasks@ =~= old(self).tasks@.update(
                        idx as int,
                        (Task {
                            state: TaskState::Ready,
                            next_activation: old(self).tick_us,
                            ..old(self).tasks@[idx as int]
                        }),
                    ));
                }
            }
        }
    }

    /// No single task can use more than `UTIL_PPM_MAX` parts per million.
    proof fn lemma_util_ppm_bound(t: Task<F>)
        ensures
            0 <= t.spec_utilization_ppm() <= UTIL_PPM_MAX,
    {
        if t.period_us != 0 {
            let x = t.wcet_us * 1_000_000;
            let p = t.period_us as int;
            assert(0 <= x / p <= x) by (nonlinear_arith)
                requires
                    0 <= x <= 4294967295000000,
                    p >= 1,
            ;
        }
    }

    /// At most `k` of the first `k` slots can be active.
    proof fn lemma_active_count_le(tasks: Seq<Task<F>>, k: int)
        ensures
            0 <= Self::spec_active_count(tasks, k) <= (if k <= 0 {
                0int
            } else {
                k
            }),
        decreases k,
    {
        if k > 0 {
            Self::lemma_active_count_le(tasks, k - 1);
        }
    }

    /// The count of active tasks never exceeds the count of registered
    /// tasks, which never exceeds the table size.
    pub proof fn lemma_task_count_bounds(s: Scheduler<F>)
        requires
            s.wf(),
        ensures
            Self::spec_active_count(s.tasks@, s.task_count as int) <= s.task_count <= MAX_TASKS,
    {
        Self::lemma_active_count_le(s.tasks@, s.task_count as int);
    }

    /// A selected index always lies among the first `k` slots.
    proof fn lemma_select_in_range(tasks: Seq<Task<F>>, k: int)
        ensures
            Self::spec_select_upto(tasks, k) matches Some(i) ==> 0 <= i < k,
        decreases k,
    {
        if k > 0 {
            Self::lemma_select_in_range(tasks, k - 1);
        }
    }

    /// What selection guarantees: a selected task is ready; no ready
    /// task among the first `k` slots stands on a strictly smaller rung;
    /// and every ready task on the same rung has a higher index, so ties
    /// break to the lowest index deterministically. Nothing is selected
    /// exactly when no task among the first `k` slots is ready.
    pub proof fn lemma_select_min_ready(tasks: Seq<Task<F>>, k: int)
        requires
            0 <= k <= tasks.len(),
        ensures
            ({
                match Self::spec_select_upto(tasks, k) {
                    Some(i) => {
                        &&& 0 <= i < k
                        &&& tasks[i].state == TaskState::Ready
                        &&& forall|j: int|
                            0 <= j < k && (#[trigger] tasks[j]).state == TaskState::Ready
                                ==> tasks[i].priority.0 <= tasks[j].priority.0
                        &&& forall|j: int|
                            0 <= j < i && (#[trigger] tasks[j]).state == TaskState::Ready
                                ==> tasks[i].priority.0 < tasks[j].priority.0
                    },
                    None => forall|j: int|
                        0 <= j < k ==> (#[trigger] tasks[j]).state != TaskState::Ready,
                }
            }),
        decreases k,
    {
        if k > 0 {
            Self::lemma_select_min_ready(tasks, k - 1);
        }
    }

    /// What a dispatch does to the selected task, read off the
    /// transition that `tick`'s contract states: the execution count
    /// steps by exactly one (modulo 2^32), the next activation moves
    /// exactly one period forward (modulo 2^64), the task is left
    /// `Sleeping`, and a miss is recorded exactly when the activation
    /// was more than a full period overdue; identity, priority, period,
    /// WCET and body are untouched.
    pub proof fn lemma_dispatch_effects(t: Task<F>, now: u64)
        ensures
            Self::spec_dispatch(t, now).exec_count == t.exec_count.wrapping_add(1u32),
            Self::spec_dispatch(t, now).next_activation == t.next_activation.wrapping_add(
                t.period_us as u64,
            ),
            Self::spec_dispatch(t, now).state == TaskState::Sleeping,
            Self::spec_dispatch(t, now).priority == t.priority,
            Self::spec_dispatch(t, now).period_us == t.period_us,
            Self::spec_dispatch(t, now).wcet_us == t.wcet_us,
            Self::spec_dispatch(t, now).func == t.func,
            Self::spec_dispatch(t, now).deadline_misses == (if now
                > t.next_activation.saturating_add(t.period_us as u64) {
                t.deadline_misses.wrapping_add(1u32)
            } else {
                t.deadline_misses
            }),
            t.exec_count < u32::MAX ==> Self::spec_dispatch(t, now).exec_count == t.exec_count
                + 1,
            t.next_activation + t.period_us <= u64::MAX ==> Self::spec_dispatch(
                t,
                now,
            ).next_activation == t.next_activation + t.period_us,
    {
    }

    /// The readiness pass changes nothing but the state field, and that
    /// only from `Sleeping` to `Ready` for a task whose activation time
    /// has come: counters, activation time, identity and body are all
    /// kept.
    pub proof fn lemma_wake_effects(t: Task<F>, now: u64)
        ensures
            Self::spec_wake1(t, now).exec_count == t.exec_count,
            Self::spec_wake1(t, now).deadline_misses == t.deadline_misses,
            Self::spec_wake1(t, now).next_activation == t.next_activation,
            Self::spec_wake1(t, now).priority == t.priority,
            Self::spec_wake1(t, now).period_us == t.period_us,
            Self::spec_wake1(t, now).wcet_us == t.wcet_us,
            Self::spec_wake1(t, now).func == t.func,
            Self::spec_wake1(t, now).state == (if t.state == TaskState::Sleeping && now
                >= t.next_activation {
                TaskState::Ready
            } else {
                t.state
            }),
    {
    }

    /// Iterating the tick transition once more is one more tick at the
    /// end: `n + 1` ticks are `n` ticks followed by one.
    pub proof fn lemma_run_model_snoc(m: SchedModel<F>, delta: u64, n: nat)
        ensures
            Self::spec_run_model(m, delta, n + 1) == Self::spec_tick_model(
                Self::spec_run_model(m, delta, n),
                delta,
            ),
        decreases n,
    {
        let m1 = Self::spec_tick_model(m, delta);
        assert(Self::spec_run_model(m, delta, n + 1) == Self::spec_run_model(m1, delta, n));
        if n > 0 {
            Self::lemma_run_model_snoc(m1, delta, (n - 1) as nat);
            assert(Self::spec_run_model(m, delta, n) == Self::spec_run_model(
                m1,
                delta,
                (n - 1) as nat,
            ));
        }
    }

    /// The dispatch count of `n + 1` ticks is that of `n` ticks plus one
    /// exactly when the last tick dispatches.
    pub proof fn lemma_run_executed_snoc(m: SchedModel<F>, delta: u64, n: nat)
        ensures
            Self::spec_run_executed(m, delta, n + 1) == Self::spec_run_executed(m, delta, n) + (
            if Self::spec_tick_result(Self::spec_run_model(m, delta, n), delta) is Some {
                1int
            } else {
                0int
            }),
        decreases n,
    {
        let m1 = Self::spec_tick_model(m, delta);
        assert(Self::spec_run_executed(m, delta, n + 1) == (if Self::spec_tick_result(
            m,
            delta,
        ) is Some {
            1int
        } else {
            0int
        }) + Self::spec_run_executed(m1, delta, n));
        if n > 0 {
            Self::lemma_run_executed_snoc(m1, delta, (n - 1) as nat);
            Self::lemma_run_model_snoc(m1, delta, (n - 1) as nat);
            assert(Self::spec_run_model(m, delta, n) == Self::spec_run_model(
                m1,
                delta,
                (n - 1) as nat,
            ));
        }
    }

    /// No more ticks can dispatch than are taken.
    pub proof fn lemma_run_executed_bounds(m: SchedModel<F>, delta: u64, n: nat)
        ensures
            0 <= Self::spec_run_executed(m, delta, n) <= n,
        decreases n,
    {
        if n > 0 {
            Self::lemma_run_executed_bounds(Self::spec_tick_model(m, delta), delta, (n - 1) as nat);
        }
    }

    /// The context-switch counter is monotone at every dispatch that
    /// does not wrap it, and steps by exactly one precisely when the
    /// dispatched index differs from the previously current task; this
    /// instantiates the counter update that `tick`'s contract states.
    pub proof fn lemma_context_switch_step(cs: u32, current: Option<usize>, sel: usize)
        requires
            cs < u32::MAX,
        ensures
            (if current == Some(sel) {
                cs
            } else {
                cs.wrapping_add(1u32)
            }) >= cs,
            ((if current == Some(sel) {
                cs
            } else {
                cs.wrapping_add(1u32)
            }) == cs + 1) <==> current != Some(sel),
    {
    }
}

impl<F: Fn(Vec<u8>) -> Vec<u8> + Copy> Scheduler<F> {
    /// Whether a slot's body, if it holds one, accepts every scratch
    /// buffer. Task bodies are plain capture-free function values with
    /// no precondition of their own, so this holds of every body a host
    /// hands in.
    pub open spec fn func_callable(t: Task<F>) -> bool {
        t.func matches Some(f) ==> forall|b: Vec<u8>| call_requires(f, (b,))
    }

    /// Invoke the body of the task in slot `idx` on the scratch buffer:
    /// the body takes the buffer and hands it back, possibly rewritten.
    /// A no-op when the index is out of range or the slot has no body.
    pub fn execute_task(&self, idx: usize, scratch: &mut Vec<u8>)
        requires
            self.wf(),
            idx < MAX_TASKS ==> Self::func_callable(self.tasks@[idx as int]),
        ensures
            idx < MAX_TASKS ==> (self.tasks@[idx as int].func matches Some(f) ==> call_ensures(
                f,
                (*old(scratch),),
                *final(scratch),
            )),
            !(idx < MAX_TASKS && self.tasks@[idx as int].func is Some) ==> *final(scratch) == *old(
                scratch,
            ),
    {
        if idx < self.tasks.len() {
            match self.tasks[idx].func {
                Some(f) => {
                    let mut buf: Vec<u8> = Vec::new();
                    core::mem::swap(&mut buf, scratch);
                    let out = f(buf);
                    *scratch = out;
                },
                None => {},
            }
        }
    }
}

/// The Liu & Layland utilization bound `n * (2^(1/n) - 1)` in parts per
/// million, as a fixed table: exact for each small `n`, and the limit
/// `ln 2` for nine tasks or more.
pub open spec fn spec_liu_layland_bound_ppm(n: int) -> int {
    if n <= 1 {
        1_000_000
    } else if n == 2 {
        828_000
    } else if n == 3 {
        780_000
    } else if n == 4 {
        757_000
    } else if n == 5 {
        743_000
    } else if n == 6 {
        735_000
    } else if n == 7 {
        729_000
    } else if n == 8 {
        724_000
    } else {
        693_000
    }
}

/// The Liu & Layland bound for `n` tasks, in parts per million.
pub fn liu_layland_bound_ppm(n: usize) -> (r: u64)
    ensures
        r == spec_liu_layland_bound_ppm(n as int),
{
    if n <= 1 {
        1_000_000
    } else if n == 2 {
        828_000
    } else if n == 3 {
        780_000
    } else if n == 4 {
        757_000
    } else if n == 5 {
        743_000
    } else if n == 6 {
        735_000
    } else if n == 7 {
        729_000
    } else if n == 8 {
        724_000
    } else {
        693_000
    }
}

} // verus!
