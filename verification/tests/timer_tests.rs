use alice_rtos::Deadline;
use alice_rtos::SysTimer;

#[test]
fn test_software_timer() {
    let mut timer = SysTimer::software();
    assert_eq!(timer.now_us(), 0);
    timer.advance(1000);
    assert_eq!(timer.now_us(), 1000);
    assert_eq!(timer.now_ms(), 1);
}

#[test]
fn test_timer_reset() {
    let mut timer = SysTimer::software();
    timer.advance(10000);
    timer.reset();
    assert_eq!(timer.now_us(), 0);
}

#[test]
fn test_deadline_met() {
    let deadline = Deadline::new(0, 1000);
    assert!(deadline.is_met(500));
    assert!(deadline.is_met(1000));
    assert!(!deadline.is_met(1001));
}

#[test]
fn test_deadline_remaining() {
    let deadline = Deadline::new(0, 1000);
    assert_eq!(deadline.remaining(500), 500);
    assert_eq!(deadline.remaining(1000), 0);
    assert_eq!(deadline.remaining(2000), 0);
}

#[test]
fn test_elapsed_since() {
    let mut timer = SysTimer::software();
    timer.advance(1000);
    let ref_time = timer.now_us();
    timer.advance(500);
    assert_eq!(timer.elapsed_since(ref_time), 500);
}

#[test]
fn test_timer_overflow_counted() {
    let mut timer = SysTimer::software();
    timer.advance(u64::MAX);
    assert_eq!(timer.overflows(), 0);
    timer.advance(3);
    assert_eq!(timer.now_us(), 2);
    assert_eq!(timer.overflows(), 1);
}

#[test]
fn test_hardware_scaling() {
    let timer = SysTimer::new(150_000_000);
    assert_eq!(timer.ticks_per_us(), 150);
}

#[test]
fn test_deadline_elapsed() {
    let deadline = Deadline::new(100, 1000);
    assert_eq!(deadline.elapsed(350), 250);
}

#[test]
fn test_delay_advances() {
    let mut timer = SysTimer::software();
    timer.delay_us(42);
    assert_eq!(timer.now_us(), 42);
}
