//! Kernel façade: one scheduler, one time source and one shared scratch
//! buffer behind a single registration / tick / run interface.
//!
//! `F` is the type of task bodies: capture-free function values that
//! take the scratch buffer and hand it back.

use vstd::prelude::*;

use crate::scheduler::Scheduler;
use crate::task::MAX_TASKS;
use crate::task::NAME_BYTES;
use crate::task::Task;
use crate::task::TaskPriority;
use crate::timer::SysTimer;

verus! {

/// Bytes of the shared scratch buffer loaned to one task body at a time.
pub const SCRATCH_SIZE: usize = 1024;

/// Modeled bytes of one task descriptor in an embedded layout.
pub const TASK_FOOTPRINT_BYTES: usize = 48;

/// Modeled bytes of the time source in an embedded layout.
pub const TIMER_FOOTPRINT_BYTES: usize = 16;

/// Modeled bytes of the scheduler and kernel control fields (counters,
/// current index, flags) in an embedded layout.
pub const CONTROL_FOOTPRINT_BYTES: usize = 64;

/// Summary of a bounded run of the kernel.
#[derive(Clone, Debug)]
pub struct KernelStats {
    /// Microseconds covered by the run.
    pub total_us: u64,
    /// Total scheduler ticks since the kernel was made.
    pub total_ticks: u64,
    /// Ticks of this run that dispatched a task.
    pub tasks_executed: u64,
    /// Total context switches since the kernel was made.
    pub context_switches: u64,
    /// Summed utilization of the active tasks, in parts per million.
    pub utilization_ppm: u64,
    /// Whether the active set passes the rate-monotonic admission test.
    pub schedulable: bool,
}

/// The kernel: a scheduler, a time source, and the scratch buffer.
pub struct Kernel<F> {
    /// The task scheduler.
    pub scheduler: Scheduler<F>,
    /// The system time source.
    pub timer: SysTimer,
    /// Shared scratch space loaned to task bodies during dispatch.
    pub scratch: Vec<u8>,
    /// Whether a bounded run is in progress.
    pub running: bool,
    /// Ticks executed since the kernel was made (wraps at 2^64).
    pub total_ticks: u64,
}

impl<F: Fn(Vec<u8>) -> Vec<u8> + Copy> Kernel<F> {
    /// Structural invariant: the scheduler's table is well formed.
    pub open spec fn wf(self) -> bool {
        self.scheduler.wf()
    }

    /// Every registered task body accepts every scratch buffer; this
    /// holds from construction on, since `add_task` only admits such
    /// bodies.
    pub open spec fn funcs_callable(self) -> bool {
        forall|j: int|
            0 <= j < MAX_TASKS ==> Scheduler::<F>::func_callable(
                #[trigger] self.scheduler.tasks@[j],
            )
    }

    /// A kernel scaled for a hardware clock of `clock_hz` hertz: empty
    /// scheduler, time zero, a zeroed scratch buffer, not running.
    pub fn new(clock_hz: u32) -> (k: Kernel<F>)
        ensures
            k.wf(),
            k.funcs_callable(),
            k.scheduler.task_count == 0,
            k.scheduler.tick_us == 0,
            k.scheduler.current_task is None,
            k.scheduler.context_switches == 0,
            forall|j: int|
                0 <= j < MAX_TASKS ==> Scheduler::<F>::spec_empty_slot(
                    #[trigger] k.scheduler.tasks@[j],
                ),
            k.timer.ticks_us == 0,
            k.timer.ticks_per_us == clock_hz / 1_000_000,
            k.timer.overflows == 0,
            k.scratch@ == Seq::<u8>::new(SCRATCH_SIZE as nat, |i: int| 0u8),
            !k.running,
            k.total_ticks == 0,
    {
        Kernel {
            scheduler: Scheduler::new(),
            timer: SysTimer::new(clock_hz),
            scratch: zeroed_scratch(),
            running: false,
            total_ticks: 0,
        }
    }

    /// A kernel backed by the software timer, for tests.
    pub fn testing() -> (k: Kernel<F>)
        ensures
            k.wf(),
            k.funcs_callable(),
            k.scheduler.task_count == 0,
            k.scheduler.tick_us == 0,
            k.scheduler.current_task is None,
            k.scheduler.context_switches == 0,
            forall|j: int|
                0 <= j < MAX_TASKS ==> Scheduler::<F>::spec_empty_slot(
                    #[trigger] k.scheduler.tasks@[j],
                ),
            k.timer.ticks_us == 0,
            k.timer.ticks_per_us == 1,
            k.timer.overflows == 0,
            k.scratch@ == Seq::<u8>::new(SCRATCH_SIZE as nat, |i: int| 0u8),
            !k.running,
            k.total_ticks == 0,
    {
        Kernel {
            scheduler: Scheduler::new(),
            timer: SysTimer::software(),
            scratch: zeroed_scratch(),
            running: false,
            total_ticks: 0,
        }
    }

    /// Register a periodic task: a new `Ready` descriptor, due at the
    /// current time, goes into the next unused slot. `None` exactly
    /// when the table is full, and then nothing changes. Task bodies
    /// must accept every scratch buffer.
    pub fn add_task(
        &mut self,
        name: &[u8],
        func: F,
        priority: TaskPriority,
        period_us: u32,
        wcet_us: u32,
    ) -> (r: Option<usize>)
        requires
            old(self).wf(),
            old(self).funcs_callable(),
            forall|b: Vec<u8>| call_requires(func, (b,)),
        ensures
            final(self).wf(),
            final(self).funcs_callable(),
            r == (if old(self).scheduler.task_count < MAX_TASKS {
                Some(old(self).scheduler.task_count)
            } else {
                None::<usize>
            }),
            old(self).scheduler.task_count >= MAX_TASKS ==> *final(self) == *old(self),
            old(self).scheduler.task_count < MAX_TASKS ==> {
                &&& final(self).scheduler.task_count == old(self).scheduler.task_count + 1
                &&& final(self).scheduler.tasks@ =~= old(self).scheduler.tasks@.update(
                    old(self).scheduler.task_count as int,
                    final(self).scheduler.tasks@[old(self).scheduler.task_count as int],
                )
                &&& ({
                    let t = final(self).scheduler.tasks@[old(self).scheduler.task_count as int];
                    &&& t.func == Some(func)
                    &&& t.priority == priority
                    &&& t.period_us == period_us
                    &&& t.wcet_us == wcet_us
                    &&& t.state == crate::task::TaskState::Ready
                    &&& t.next_activation == old(self).scheduler.tick_us
                    &&& t.exec_count == 0
                    &&& t.deadline_misses == 0
                    &&& t.name@.len() == NAME_BYTES
                    &&& forall|i: int|
                        0 <= i < NAME_BYTES ==> t.name@[i] == (if i < name@.len() {
                            name@[i]
                        } else {
                            0u8
                        })
                })
            },
            final(self).scheduler.tick_us == old(self).scheduler.tick_us,
            final(self).scheduler.current_task == old(self).scheduler.current_task,
            final(self).scheduler.context_switches == old(self).scheduler.context_switches,
            final(self).timer == old(self).timer,
            final(self).scratch == old(self).scratch,
            final(self).running == old(self).running,
            final(self).total_ticks == old(self).total_ticks,
    {
        let task = Task::new(name, func, priority, period_us, wcet_us);
        self.scheduler.register(task)
    }

    /// One kernel tick: advance the time source and the tick counter,
    /// let the scheduler account for one dispatch, and run the selected
    /// task's body on the scratch buffer. Returns the dispatched index,
    /// `None` on an idle tick. The scheduler's part of the transition is
    /// pinned to its spec-level model; the scratch buffer afterwards is
    /// whatever the dispatched body handed back.
    pub fn tick(&mut self, delta_us: u64) -> (r: Option<usize>)
        requires
            old(self).wf(),
            old(self).funcs_callable(),
        ensures
            final(self).wf(),
            final(self).funcs_callable(),
            final(self).timer.ticks_us == old(self).timer.ticks_us.wrapping_add(delta_us),
            final(self).timer.ticks_per_us == old(self).timer.ticks_per_us,
            final(self).timer.overflows == (if old(self).timer.ticks_us + delta_us > u64::MAX {
                old(self).timer.overflows.wrapping_add(1u32)
            } else {
                old(self).timer.overflows
            }),
            final(self).total_ticks == old(self).total_ticks.wrapping_add(1u64),
            final(self).running == old(self).running,
            final(self).scheduler.task_count == old(self).scheduler.task_count,
            final(self).scheduler.tick_us == old(self).scheduler.tick_us.wrapping_add(delta_us),
            final(self).scheduler.model() == Scheduler::<F>::spec_tick_model(
                old(self).scheduler.model(),
                delta_us,
            ),
            (r is Some) == (Scheduler::<F>::spec_tick_result(
                old(self).scheduler.model(),
                delta_us,
            ) is Some),
            ({
                let s = old(self).scheduler;
                let now = s.tick_us.wrapping_add(delta_us);
                let woken = Scheduler::<F>::spec_woken(s.tasks@, s.task_count as int, now);
                let sel = Scheduler::<F>::spec_select_upto(woken, s.task_count as int);
                match sel {
                    None => {
                        &&& r is None
                        &&& final(self).scheduler.tasks@ == woken
                        &&& final(self).scheduler.current_task is None
                        &&& final(self).scheduler.context_switches == s.context_switches
                        &&& final(self).scratch == old(self).scratch
                    },
                    Some(i) => {
                        &&& r == Some(i as usize)
                        &&& final(self).scheduler.tasks@ == woken.update(
                            i,
                            Scheduler::<F>::spec_dispatch(woken[i], now),
                        )
                        &&& final(self).scheduler.current_task == Some(i as usize)
                        &&& final(self).scheduler.context_switches == (if s.current_task == Some(
                            i as usize,
                        ) {
                            s.context_switches
                        } else {
                            s.context_switches.wrapping_add(1u32)
                        })
                        &&& (woken[i].func matches Some(f) ==> call_ensures(
                            f,
                            (old(self).scratch,),
                            final(self).scratch,
                        ))
                    },
                }
            }),
    {
        self.timer.advance(delta_us);
        self.total_ticks = self.total_ticks.wrapping_add(1);

        let executed = self.scheduler.tick(delta_us);

        match executed {
            Some(idx) => {
                proof {
                    Scheduler::<F>::lemma_select_min_ready(
                        Scheduler::<F>::spec_woken(
                            old(self).scheduler.tasks@,
                            old(self).scheduler.task_count as int,
                            old(self).scheduler.tick_us.wrapping_add(delta_us),
                        ),
                        old(self).scheduler.task_count as int,
                    );
                }
                self.scheduler.execute_task(idx, &mut self.scratch);
                Some(idx)
            },
            None => None,
        }
    }

    /// Run the kernel for `total_us` microseconds in steps of exactly
    /// `tick_us`: tick, run the dispatched body, repeat until the
    /// elapsed budget is covered or `stop` has cleared the running flag.
    /// Nothing during a run clears the flag, so as long as the sums stay
    /// inside the 64-bit range the run performs exactly
    /// `ceil(total_us / tick_us)` ticks, and the contract pins the final
    /// scheduler to that many iterations of the tick transition. The
    /// elapsed total grows monotonically and saturates at the top of the
    /// 64-bit range. A zero step could never cover a positive budget, so
    /// no tick runs at all then. The returned summary reflects the state
    /// the run ends in.
    pub fn run_for(&mut self, total_us: u64, tick_us: u64) -> (stats: KernelStats)
        requires
            old(self).wf(),
            old(self).funcs_callable(),
        ensures
            final(self).wf(),
            final(self).funcs_callable(),
            !final(self).running,
            final(self).scheduler.task_count == old(self).scheduler.task_count,
            tick_us > 0 ==> stats.total_us >= total_us,
            tick_us == 0 ==> stats.total_us == 0 && *final(self) == (Kernel {
                running: false,
                ..*old(self)
            }),
            tick_us > 0 && stats.total_us < u64::MAX ==> stats.total_us % tick_us == 0
                && stats.total_us < total_us + tick_us && stats.tasks_executed <= stats.total_us
                / tick_us,
            tick_us > 0 && total_us + tick_us <= u64::MAX ==> ({
                let m = (total_us + tick_us - 1) / (tick_us as int);
                &&& stats.total_us == m * tick_us
                &&& final(self).scheduler.model() == Scheduler::<F>::spec_run_model(
                    old(self).scheduler.model(),
                    tick_us,
                    m as nat,
                )
                &&& stats.tasks_executed == Scheduler::<F>::spec_run_executed(
                    old(self).scheduler.model(),
                    tick_us,
                    m as nat,
                )
                &&& final(self).total_ticks == (old(self).total_ticks + m)
                    % 0x1_0000_0000_0000_0000
                &&& final(self).timer.ticks_us == (old(self).timer.ticks_us + m * tick_us)
                    % 0x1_0000_0000_0000_0000
            }),
            final(self).timer.ticks_per_us == old(self).timer.ticks_per_us,
            stats.total_ticks == final(self).total_ticks,
            stats.context_switches == final(self).scheduler.context_switches as u64,
            stats.utilization_ppm == Scheduler::<F>::spec_total_utilization_ppm(
                final(self).scheduler.tasks@,
                final(self).scheduler.task_count as int,
            ),
            stats.schedulable == Scheduler::<F>::spec_schedulable(
                final(self).scheduler.tasks@,
                final(self).scheduler.task_count as int,
            ),
    {
        self.running = true;
        let mut elapsed: u64 = 0;
        let mut tasks_executed: u64 = 0;
        let ghost sm0 = old(self).scheduler.model();
        let ghost t0 = old(self).total_ticks as int;
        let ghost w0 = old(self).timer.ticks_us as int;
        let ghost nosat = total_us + tick_us <= u64::MAX;
        let ghost mut k: int = 0;

        if tick_us > 0 {
            proof {
                vstd::arithmetic::div_mod::lemma_small_mod(
                    t0 as nat,
                    0x1_0000_0000_0000_0000 as nat,
                );
                vstd::arithmetic::div_mod::lemma_small_mod(
                    w0 as nat,
                    0x1_0000_0000_0000_0000 as nat,
                );
            }
            while elapsed < total_us && self.running
                invariant
                    tick_us > 0,
                    self.running,
                    self.wf(),
                    self.funcs_callable(),
                    self.scheduler.task_count == old(self).scheduler.task_count,
                    self.timer.ticks_per_us == old(self).timer.ticks_per_us,
                    elapsed < u64::MAX ==> elapsed % tick_us == 0,
                    elapsed <= total_us || elapsed < total_us + tick_us,
                    elapsed < u64::MAX ==> tasks_executed <= elapsed / tick_us,
                    k >= 0,
                    nosat == (total_us + tick_us <= u64::MAX),
                    sm0 == old(self).scheduler.model(),
                    t0 == old(self).total_ticks as int,
                    w0 == old(self).timer.ticks_us as int,
                    nosat ==> elapsed == k * tick_us,
                    nosat ==> (k == 0 || (k - 1) * tick_us < total_us),
                    nosat ==> self.scheduler.model() == Scheduler::<F>::spec_run_model(
                        sm0,
                        tick_us,
                        k as nat,
                    ),
                    nosat ==> tasks_executed == Scheduler::<F>::spec_run_executed(
                        sm0,
                        tick_us,
                        k as nat,
                    ),
                    nosat ==> self.total_ticks == (t0 + k) % 0x1_0000_0000_0000_0000,
                    nosat ==> self.timer.ticks_us == (w0 + k * tick_us)
                        % 0x1_0000_0000_0000_0000,
                decreases u64::MAX - elapsed,
            {
                proof {
                    vstd::arithmetic::div_mod::lemma_div_nonincreasing(
                        elapsed as int,
                        tick_us as int,
                    );
                    if nosat {
                        Scheduler::<F>::lemma_run_model_snoc(sm0, tick_us, k as nat);
                        Scheduler::<F>::lemma_run_executed_snoc(sm0, tick_us, k as nat);
                        Scheduler::<F>::lemma_run_executed_bounds(sm0, tick_us, k as nat);
                        lemma_wrapped_sum_step(t0, k, 1u64, self.total_ticks);
                        lemma_wrapped_sum_step(w0, k, tick_us, self.timer.ticks_us);
                        assert((k + 1) * tick_us == k * tick_us + tick_us) by (nonlinear_arith);
                        assert(k <= k * tick_us) by (nonlinear_arith)
                            requires
                                k >= 0,
                                tick_us >= 1,
                        ;
                    }
                }
                if self.tick(tick_us).is_some() {
                    tasks_executed = tasks_executed.wrapping_add(1);
                }
                proof {
                    vstd::arithmetic::div_mod::lemma_mod_add_multiples_vanish(
                        elapsed as int,
                        tick_us as int,
                    );
                    vstd::arithmetic::div_mod::lemma_div_plus_one(elapsed as int, tick_us as int);
                    k = k + 1;
                }
                elapsed = elapsed.saturating_add(tick_us);
            }
            proof {
                if nosat {
                    lemma_ceil_steps(total_us as int, tick_us as int, k);
                }
            }
        }

        self.running = false;
        KernelStats {
            total_us: elapsed,
            total_ticks: self.total_ticks,
            tasks_executed,
            context_switches: self.scheduler.context_switches as u64,
            utilization_ppm: self.scheduler.total_utilization_ppm(),
            schedulable: self.scheduler.is_schedulable(),
        }
    }

    /// Clear the running flag, ending a bounded run at its next check.
    pub fn stop(&mut self)
        ensures
            !final(self).running,
            final(self).scheduler == old(self).scheduler,
            final(self).timer == old(self).timer,
            final(self).scratch == old(self).scratch,
            final(self).total_ticks == old(self).total_ticks,
    {
        self.running = false;
    }

    /// Whether a bounded run is in progress.
    pub fn is_running(&self) -> (r: bool)
        ensures
            r == self.running,
    {
        self.running
    }

    /// Whether the registered set passes the rate-monotonic admission
    /// test.
    pub fn is_schedulable(&self) -> (r: bool)
        requires
            self.wf(),
        ensures
            r == Scheduler::<F>::spec_schedulable(
                self.scheduler.tasks@,
                self.scheduler.task_count as int,
            ),
    {
        self.scheduler.is_schedulable()
    }

    /// Bytes the kernel occupies in the embedded layout it models: the
    /// task table, the time source, the scratch buffer and the control
    /// fields. Always under two kibibytes.
    pub fn memory_footprint(&self) -> (r: usize)
        ensures
            r == MAX_TASKS * TASK_FOOTPRINT_BYTES + TIMER_FOOTPRINT_BYTES + SCRATCH_SIZE
                + CONTROL_FOOTPRINT_BYTES,
            r < 2048,
    {
        MAX_TASKS * TASK_FOOTPRINT_BYTES + TIMER_FOOTPRINT_BYTES + SCRATCH_SIZE
            + CONTROL_FOOTPRINT_BYTES
    }
}

/// One more wrapped step: when `acc` is `base + steps * inc` modulo
/// 2^64, adding `inc` with wraparound lands on `base + (steps + 1) * inc`
/// modulo 2^64.
proof fn lemma_wrapped_sum_step(base: int, steps: int, inc: u64, acc: u64)
    requires
        base >= 0,
        steps >= 0,
        acc == (base + steps * inc) % 0x1_0000_0000_0000_0000,
    ensures
        acc.wrapping_add(inc) == (base + (steps + 1) * inc) % 0x1_0000_0000_0000_0000,
{
    let m: int = 0x1_0000_0000_0000_0000;
    let a = base + steps * inc;
    assert(steps * inc >= 0) by (nonlinear_arith)
        requires
            steps >= 0,
            inc >= 0,
    ;
    assert((steps + 1) * inc == steps * inc + inc) by (nonlinear_arith);
    vstd::arithmetic::div_mod::lemma_mod_division_less_than_divisor(a, m);
    vstd::arithmetic::div_mod::lemma_small_mod(inc as nat, m as nat);
    vstd::arithmetic::div_mod::lemma_add_mod_noop(a, inc as int, m);
    if acc + inc < m {
        vstd::arithmetic::div_mod::lemma_small_mod((acc + inc) as nat, m as nat);
    } else {
        vstd::arithmetic::div_mod::lemma_mod_sub_multiples_vanish(acc + inc, m);
        vstd::arithmetic::div_mod::lemma_small_mod((acc + inc - m) as nat, m as nat);
    }
}

/// The number of fixed steps that first covers a budget is the ceiling
/// of their quotient: when `k` steps of `t` reach `total` and `k - 1` do
/// not, `k == (total + t - 1) / t`.
proof fn lemma_ceil_steps(total: int, t: int, k: int)
    requires
        t > 0,
        total >= 0,
        k >= 0,
        k * t >= total,
        k == 0 || (k - 1) * t < total,
    ensures
        k == (total + t - 1) / t,
{
    if k == 0 {
        vstd::arithmetic::div_mod::lemma_basic_div(t - 1, t);
    } else {
        let q = (total + t - 1) / t;
        let r = (total + t - 1) % t;
        vstd::arithmetic::div_mod::lemma_fundamental_div_mod(total + t - 1, t);
        vstd::arithmetic::div_mod::lemma_mod_division_less_than_divisor(total + t - 1, t);
        if q > k {
            assert(t * q >= t * (k + 1) && t * (k + 1) == t * k + t && t * k == k * t)
                by (nonlinear_arith)
                requires
                    q >= k + 1,
                    t > 0,
            ;
            assert(false);
        }
        if q < k {
            assert(t * q <= t * (k - 1) && (k - 1) * t == t * k - t && t * k == k * t)
                by (nonlinear_arith)
                requires
                    q <= k - 1,
                    t > 0,
            ;
            assert(false);
        }
    }
}

/// A fresh scratch buffer of `SCRATCH_SIZE` zero bytes.
fn zeroed_scratch() -> (v: Vec<u8>)
    ensures
        v@ == Seq::<u8>::new(SCRATCH_SIZE as nat, |i: int| 0u8),
{
    let mut v: Vec<u8> = Vec::new();
    let mut i: usize = 0;
    while i < SCRATCH_SIZE
        invariant
            i <= SCRATCH_SIZE,
            v@ =~= Seq::<u8>::new(i as nat, |j: int| 0u8),
        decreases SCRATCH_SIZE - i,
    {
        v.push(0u8);
        i += 1;
    }
    proof {
        assert(v@ =~= Seq::<u8>::new(SCRATCH_SIZE as nat, |i: int| 0u8));
    }
    v
}

} // verus!
