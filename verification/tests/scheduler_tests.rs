use alice_rtos::scheduler::liu_layland_bound_ppm;
use alice_rtos::Scheduler;
use alice_rtos::Task;
use alice_rtos::TaskPriority;
use alice_rtos::TaskState;

type TaskFn = fn(Vec<u8>) -> Vec<u8>;

fn dummy_task(scratch: Vec<u8>) -> Vec<u8> {
    scratch
}

#[test]
fn test_scheduler_empty() {
    let sched = Scheduler::<TaskFn>::new();
    assert_eq!(sched.active_task_count(), 0);
    assert!(sched.is_schedulable());
}

#[test]
fn test_register_task() {
    let mut sched = Scheduler::<TaskFn>::new();
    let task = Task::new(b"synth", dummy_task as TaskFn, TaskPriority::critical(), 23, 10);
    let idx = sched.register(task);
    assert_eq!(idx, Some(0));
    assert_eq!(sched.active_task_count(), 1);
}

#[test]
fn test_tick_executes_ready_task() {
    let mut sched = Scheduler::<TaskFn>::new();
    let task = Task::new(b"test", dummy_task as TaskFn, TaskPriority::normal(), 100, 10);
    sched.register(task);

    // First tick: task should be ready immediately
    let executed = sched.tick(0);
    assert_eq!(executed, Some(0));
}

#[test]
fn test_priority_order() {
    let mut sched = Scheduler::<TaskFn>::new();
    let low = Task::new(b"low", dummy_task as TaskFn, TaskPriority::low(), 1000, 100);
    let high = Task::new(b"high", dummy_task as TaskFn, TaskPriority::high(), 100, 50);
    sched.register(low);
    sched.register(high);

    // Both ready -> high priority should execute first
    let executed = sched.tick(0);
    assert_eq!(executed, Some(1)); // high is at index 1
}

#[test]
fn test_periodic_execution() {
    let mut sched = Scheduler::<TaskFn>::new();
    let task = Task::new(b"periodic", dummy_task as TaskFn, TaskPriority::normal(), 100, 10);
    sched.register(task);

    // Execute at t=0
    sched.tick(0);
    // Advance time to next period
    let executed = sched.tick(100);
    assert_eq!(executed, Some(0));
    assert_eq!(sched.get_task(0).unwrap().exec_count, 2);
}

#[test]
fn test_schedulability() {
    let mut sched = Scheduler::<TaskFn>::new();
    // Three tasks with total U = 0.1 + 0.5 + 0.1 = 0.7 < 0.780 (n=3 bound)
    sched.register(Task::new(b"t1", dummy_task as TaskFn, TaskPriority::critical(), 100, 10));
    sched.register(Task::new(b"t2", dummy_task as TaskFn, TaskPriority::high(), 100, 50));
    sched.register(Task::new(b"t3", dummy_task as TaskFn, TaskPriority::normal(), 1000, 100));
    assert!(sched.is_schedulable());
}

#[test]
fn test_overloaded_not_schedulable() {
    let mut sched = Scheduler::<TaskFn>::new();
    // Two tasks with total U = 0.9 + 0.5 = 1.4 > 0.828 (n=2 bound)
    sched.register(Task::new(b"t1", dummy_task as TaskFn, TaskPriority::critical(), 100, 90));
    sched.register(Task::new(b"t2", dummy_task as TaskFn, TaskPriority::high(), 100, 50));
    assert!(!sched.is_schedulable());
}

#[test]
fn test_suspend_resume() {
    let mut sched = Scheduler::<TaskFn>::new();
    sched.register(Task::new(b"test", dummy_task as TaskFn, TaskPriority::normal(), 100, 10));
    sched.suspend(0);
    assert_eq!(sched.get_task(0).unwrap().state, TaskState::Suspended);

    let executed = sched.tick(100);
    assert!(executed.is_none()); // Suspended tasks don't run

    sched.resume(0);
    let executed = sched.tick(0);
    assert_eq!(executed, Some(0));
}

#[test]
fn test_liu_layland() {
    let b1 = liu_layland_bound_ppm(1) as f64 / 1_000_000.0;
    let b3 = liu_layland_bound_ppm(3) as f64 / 1_000_000.0;
    assert!((b1 - 1.0).abs() < 0.01);
    assert!((b3 - 0.780).abs() < 0.01);
}

#[test]
fn test_liu_layland_table() {
    // The fixed table must match n * (2^(1/n) - 1) for each task count,
    // and the ln 2 limit from nine tasks on.
    for n in 1..=9usize {
        let reference = if n < 9 {
            n as f64 * ((2.0f64).powf(1.0 / n as f64) - 1.0)
        } else {
            (2.0f64).ln()
        };
        let bound = liu_layland_bound_ppm(n) as f64 / 1_000_000.0;
        assert!(
            (bound - reference).abs() < 0.01,
            "bound for {n} tasks was {bound}, reference {reference}"
        );
    }
}

#[test]
fn test_tie_break_lowest_index() {
    let mut sched = Scheduler::<TaskFn>::new();
    sched.register(Task::new(b"a", dummy_task as TaskFn, TaskPriority::normal(), 100, 10));
    sched.register(Task::new(b"b", dummy_task as TaskFn, TaskPriority::normal(), 100, 10));
    sched.register(Task::new(b"c", dummy_task as TaskFn, TaskPriority::normal(), 100, 10));
    // All three are Ready on the same rung: the lowest index wins.
    assert_eq!(sched.tick(0), Some(0));
}

#[test]
fn test_dispatch_accounting() {
    let mut sched = Scheduler::<TaskFn>::new();
    sched.register(Task::new(b"test", dummy_task as TaskFn, TaskPriority::normal(), 100, 10));
    let executed = sched.tick(0);
    assert_eq!(executed, Some(0));
    let t = sched.get_task(0).unwrap();
    assert_eq!(t.exec_count, 1);
    assert_eq!(t.next_activation, 100);
    assert_eq!(t.state, TaskState::Sleeping);
    assert_eq!(t.deadline_misses, 0);
}

#[test]
fn test_context_switch_counts() {
    let mut sched = Scheduler::<TaskFn>::new();
    sched.register(Task::new(b"only", dummy_task as TaskFn, TaskPriority::normal(), 100, 10));
    assert_eq!(sched.context_switches, 0);
    sched.tick(0); // dispatches task 0: one switch
    assert_eq!(sched.context_switches, 1);
    sched.tick(100); // same task again: no switch
    assert_eq!(sched.context_switches, 1);
    sched.tick(1); // idle tick clears the current task
    sched.tick(99); // task 0 dispatched anew: one more switch
    assert_eq!(sched.context_switches, 2);
}

#[test]
fn test_deadline_miss_recorded() {
    let mut sched = Scheduler::<TaskFn>::new();
    sched.register(Task::new(b"late", dummy_task as TaskFn, TaskPriority::normal(), 100, 10));
    sched.tick(0); // first activation on time; next is due at 100
    // Waking at 250 is more than one full period past the activation at
    // 100, so a miss is recorded.
    let executed = sched.tick(250);
    assert_eq!(executed, Some(0));
    assert_eq!(sched.get_task(0).unwrap().deadline_misses, 1);
}

#[test]
fn test_register_full_table() {
    let mut sched = Scheduler::<TaskFn>::new();
    for i in 0..16 {
        let idx = sched.register(Task::new(
            b"t",
            dummy_task as TaskFn,
            TaskPriority::normal(),
            100,
            1,
        ));
        assert_eq!(idx, Some(i));
    }
    let overflow = sched.register(Task::new(
        b"t",
        dummy_task as TaskFn,
        TaskPriority::normal(),
        100,
        1,
    ));
    assert_eq!(overflow, None);
    assert_eq!(sched.active_task_count(), 16);
}

#[test]
fn test_index_out_of_range() {
    let mut sched = Scheduler::<TaskFn>::new();
    sched.register(Task::new(b"t", dummy_task as TaskFn, TaskPriority::normal(), 100, 10));
    assert!(sched.get_task(5).is_none());
    sched.suspend(5); // no-op
    sched.resume(5); // no-op
    assert_eq!(sched.get_task(0).unwrap().state, TaskState::Ready);
}

#[test]
fn test_idle_priority_dispatched_when_alone() {
    let mut sched = Scheduler::<TaskFn>::new();
    sched.register(Task::new(b"idle", dummy_task as TaskFn, TaskPriority::idle(), 100, 10));
    // The idle rung is the last resort, but a ready task on it still runs.
    assert_eq!(sched.tick(0), Some(0));
}

#[test]
fn test_tie_break_on_idle_rung() {
    let mut sched = Scheduler::<TaskFn>::new();
    sched.register(Task::new(b"bg1", dummy_task as TaskFn, TaskPriority::idle(), 100, 10));
    sched.register(Task::new(b"bg2", dummy_task as TaskFn, TaskPriority::idle(), 100, 10));
    assert_eq!(sched.tick(0), Some(0));
}

#[test]
fn test_idle_rung_yields_to_any_other() {
    let mut sched = Scheduler::<TaskFn>::new();
    sched.register(Task::new(b"bg", dummy_task as TaskFn, TaskPriority::idle(), 100, 10));
    sched.register(Task::new(b"low", dummy_task as TaskFn, TaskPriority::low(), 100, 10));
    assert_eq!(sched.tick(0), Some(1));
}

#[test]
fn test_total_utilization_sums() {
    let mut sched = Scheduler::<TaskFn>::new();
    sched.register(Task::new(b"t1", dummy_task as TaskFn, TaskPriority::critical(), 100, 10));
    sched.register(Task::new(b"t2", dummy_task as TaskFn, TaskPriority::high(), 1000, 100));
    assert_eq!(sched.total_utilization_ppm(), 200_000);
}
