use pico_clock_green::scheduler::Schedule;
use pico_clock_green::scheduler::Scheduler;
use std::cell::Cell;
use std::cell::RefCell;

fn nothing() {}

#[test]
fn a_schedule_runs_only_when_enabled() {
    let runs = Cell::new(0);
    let mut schedule = Schedule::new(|| runs.set(runs.get() + 1), false, "blink", 500, 0);
    assert_eq!(schedule.name, "blink");
    assert_eq!(schedule.duration, 500);
    assert_eq!(schedule.last_run_ticks, 0);
    schedule.invoke(1000);
    assert_eq!(runs.get(), 0);
    assert_eq!(schedule.last_run_ticks, 0);
    schedule.enable();
    schedule.invoke(1000);
    assert_eq!(runs.get(), 1);
    assert_eq!(schedule.last_run_ticks, 1000);
    schedule.disable();
    schedule.invoke(2000);
    assert_eq!(runs.get(), 1);
    assert_eq!(schedule.last_run_ticks, 1000);
}

#[test]
fn the_scheduler_runs_what_is_due() {
    let log = RefCell::new(Vec::new());
    let callback = |name: &'static str| {
        let log = &log;
        move || log.borrow_mut().push(name)
    };
    let mut scheduler: Scheduler<Box<dyn Fn()>> = Scheduler::new();
    assert!(scheduler
        .add_schedule(Schedule::new(Box::new(callback("fast")), true, "fast", 10, 0))
        .is_ok());
    assert!(scheduler
        .add_schedule(Schedule::new(Box::new(callback("slow")), true, "slow", 100, 0))
        .is_ok());
    assert!(scheduler
        .add_schedule(Schedule::new(Box::new(callback("off")), false, "off", 0, 0))
        .is_ok());
    // 10 ms have passed: nothing runs, more than 10 ms are asked for
    scheduler.invoke_schedules(10_999);
    assert_eq!(*log.borrow(), Vec::<&str>::new());
    scheduler.invoke_schedules(11_000);
    assert_eq!(*log.borrow(), vec!["fast"]);
    assert_eq!(scheduler.schedules[0].last_run_ticks, 11_000);
    assert_eq!(scheduler.schedules[1].last_run_ticks, 0);
    scheduler.invoke_schedules(101_000);
    assert_eq!(*log.borrow(), vec!["fast", "fast", "slow"]);
    assert_eq!(scheduler.schedules[2].last_run_ticks, 0);
}

#[test]
fn the_scheduler_holds_ten_schedules() {
    let mut scheduler: Scheduler<fn()> = Scheduler::new();
    for _ in 0..10 {
        assert_eq!(scheduler.add_schedule(Schedule::new(nothing, true, "s", 1, 0)), Ok(()));
    }
    assert_eq!(
        scheduler.add_schedule(Schedule::new(nothing, true, "s", 1, 0)),
        Err("Callback list is full")
    );
    assert_eq!(scheduler.schedules.len(), 10);
}
