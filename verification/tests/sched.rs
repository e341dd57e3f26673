use phoenix::sched::process::load;
use phoenix::sched::task::{Task, TaskId, TaskState};
use phoenix::sched::{init, Scheduler, MAX_TASKS};

#[test]
fn new_task_is_ready() {
    let t = Task::new(42);
    assert_eq!(t.id, TaskId(42));
    assert_eq!(t.state, TaskState::Ready);
}

#[test]
fn init_places_kernel_task_first() {
    let mut s = Scheduler::new();
    assert!(init(&mut s));
    let t = s.task(0).unwrap();
    assert_eq!(t.id, TaskId(0));
    assert!(s.task(1).is_none());
}

#[test]
fn scheduler_fills_slots_then_refuses() {
    let mut s = Scheduler::new();
    for i in 0..MAX_TASKS {
        assert!(s.add_task(Task::new(i as u64 + 1)));
    }
    assert!(!s.add_task(Task::new(999)));
    assert_eq!(s.task(MAX_TASKS - 1).unwrap().id, TaskId(MAX_TASKS as u64));
}

#[test]
fn schedule_round_robins() {
    let mut s = Scheduler::new();
    assert_eq!(s.current_task_idx(), 0);
    s.schedule();
    assert_eq!(s.current_task_idx(), 1);
    for _ in 1..MAX_TASKS {
        s.schedule();
    }
    assert_eq!(s.current_task_idx(), 0);
}

#[test]
fn loaded_process_keeps_name_and_code() {
    let p = load("Shell", vec![0x90, 0x90, 0x90]);
    assert_eq!(p.id, 1);
    assert_eq!(p.name, "Shell");
    assert_eq!(p.code, vec![0x90, 0x90, 0x90]);
}
