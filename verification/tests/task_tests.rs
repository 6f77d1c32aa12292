use alice_rtos::task::NAME_BYTES;
use alice_rtos::Task;
use alice_rtos::TaskPriority;
use alice_rtos::TaskState;

type TaskFn = fn(Vec<u8>) -> Vec<u8>;

fn dummy_task(scratch: Vec<u8>) -> Vec<u8> {
    scratch
}

#[test]
fn test_task_creation() {
    let task = Task::new(b"synth", dummy_task as TaskFn, TaskPriority::critical(), 23, 10);
    assert!(task.is_active());
    assert_eq!(task.priority, TaskPriority::critical());
    assert_eq!(task.period_us, 23);
}

#[test]
fn test_empty_task() {
    let task = Task::<TaskFn>::empty();
    assert!(!task.is_active());
    assert_eq!(task.state, TaskState::Inactive);
}

#[test]
fn test_frequency() {
    let task = Task::new(b"motion", dummy_task as TaskFn, TaskPriority::high(), 100, 50);
    let freq = task.frequency_millihz() as f64 / 1000.0;
    assert!((freq - 10000.0).abs() < 1.0);
}

#[test]
fn test_utilization() {
    let task = Task::new(b"edge", dummy_task as TaskFn, TaskPriority::normal(), 1000, 100);
    let u = task.utilization_ppm() as f64 / 1_000_000.0;
    assert!((u - 0.1).abs() < 0.01);
}

#[test]
fn test_priority_ordering() {
    assert!(TaskPriority::critical() < TaskPriority::high());
    assert!(TaskPriority::high() < TaskPriority::normal());
    assert!(TaskPriority::normal() < TaskPriority::low());
}

#[test]
fn test_utilization_exact() {
    let task = Task::new(b"t", dummy_task as TaskFn, TaskPriority::normal(), 1000, 100);
    assert_eq!(task.utilization_ppm(), 100_000);
}

#[test]
fn test_utilization_zero_period() {
    let task = Task::new(b"t", dummy_task as TaskFn, TaskPriority::normal(), 0, 100);
    assert_eq!(task.utilization_ppm(), 0);
    assert_eq!(task.frequency_millihz(), 0);
}

#[test]
fn test_name_truncated_and_padded() {
    let long = Task::new(b"verylongname", dummy_task as TaskFn, TaskPriority::low(), 10, 1);
    assert_eq!(long.name.len(), NAME_BYTES);
    assert_eq!(&long.name, b"verylong");
    let short = Task::new(b"ab", dummy_task as TaskFn, TaskPriority::low(), 10, 1);
    assert_eq!(&short.name, b"ab\0\0\0\0\0\0");
}
