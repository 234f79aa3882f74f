use os3::task::{get_task_manager, KernelError, TaskManager, TaskStatus};

/// A freshly booted manager: `n` tasks with context handles 100, 200, ...,
/// all made ready, none dispatched yet, cursor at slot 0.
fn boot(n: usize) -> TaskManager {
    let mut contexts: Vec<usize> = Vec::new();
    for i in 0..n {
        contexts.push((i + 1) * 100);
    }
    let mut tm = get_task_manager(n, &contexts);
    tm.init();
    tm
}

#[test]
fn construction_populates_slots() {
    let contexts = vec![7, 8, 9];
    let tm = get_task_manager(3, &contexts);
    assert_eq!(tm.get_app_nums(), 3);
    assert_eq!(tm.get_cur_app_id(), 0);
    for i in 0..16 {
        assert_eq!(tm.apps[i].id, i);
        assert_eq!(tm.apps[i].status, TaskStatus::UInited);
        assert_eq!(tm.apps[i].time, 0);
        assert!(tm.apps[i].syscall_times.iter().all(|&c| c == 0));
    }
    assert_eq!(tm.apps[0].context, 7);
    assert_eq!(tm.apps[1].context, 8);
    assert_eq!(tm.apps[2].context, 9);
}

#[test]
fn init_readies_exactly_the_populated_prefix() {
    let contexts = vec![7, 8];
    let mut tm = get_task_manager(2, &contexts);
    tm.init();
    assert_eq!(tm.apps[0].status, TaskStatus::Ready);
    assert_eq!(tm.apps[1].status, TaskStatus::Ready);
    for i in 2..16 {
        assert_eq!(tm.apps[i].status, TaskStatus::UInited);
    }
}

#[test]
fn first_dispatch_runs_slot_zero_and_stamps_time() {
    let mut tm = boot(3);
    let d = tm.run_next_app(50).unwrap();
    assert_eq!(d.task_id, 0);
    assert_eq!(d.context, 100);
    assert_eq!(tm.get_cur_app_id(), 0);
    assert_eq!(tm.apps[0].status, TaskStatus::Running);
    assert_eq!(tm.apps[0].time, 50);
    // a later dispatch keeps the first timestamp
    let d = tm.suspend_and_run_next_app(101, 60);
    assert_eq!(d.task_id, 1);
    let _ = tm.suspend_and_run_next_app(201, 70);
    let d = tm.suspend_and_run_next_app(301, 80);
    assert_eq!(d.task_id, 0);
    assert_eq!(tm.apps[0].time, 50);
}

#[test]
fn yield_exit_yield_rotation() {
    // Three tasks, all ready, current = 0.
    let mut tm = boot(3);
    let d = tm.run_next_app(10).unwrap();
    assert_eq!(d.task_id, 0);
    // Task 0 yields: task 1 becomes running.
    let d = tm.suspend_and_run_next_app(111, 20);
    assert_eq!(d.task_id, 1);
    assert_eq!(tm.apps[1].status, TaskStatus::Running);
    assert_eq!(tm.apps[0].status, TaskStatus::Ready);
    assert_eq!(tm.apps[0].context, 111);
    // Task 1 exits: task 2 becomes running, task 1 is exited for good.
    let d = tm.exit_and_run_next_app(30).unwrap();
    assert_eq!(d.task_id, 2);
    assert_eq!(tm.apps[1].status, TaskStatus::Exit);
    assert_eq!(tm.apps[2].status, TaskStatus::Running);
    // Task 2 yields: the scan skips exited task 1 and wraps to task 0.
    let d = tm.suspend_and_run_next_app(222, 40);
    assert_eq!(d.task_id, 0);
    assert_eq!(tm.apps[1].status, TaskStatus::Exit);
    assert_eq!(tm.apps[0].status, TaskStatus::Running);
}

#[test]
fn repeated_yields_rotate_cyclically() {
    let mut tm = boot(4);
    let d = tm.run_next_app(1).unwrap();
    assert_eq!(d.task_id, 0);
    let mut expected = [1usize, 2, 3, 0, 1, 2, 3, 0, 1, 2].iter();
    for round in 0..10 {
        let d = tm.suspend_and_run_next_app(round, 2 + round);
        assert_eq!(d.task_id, *expected.next().unwrap());
    }
}

#[test]
fn sole_ready_task_reschedules_itself() {
    let mut tm = boot(3);
    let _ = tm.run_next_app(10).unwrap();
    let _ = tm.exit_and_run_next_app(20).unwrap(); // task 0 exits, task 1 runs
    let _ = tm.exit_and_run_next_app(30).unwrap(); // task 1 exits, task 2 runs
    for round in 0..5 {
        let d = tm.suspend_and_run_next_app(900 + round, 40 + round);
        assert_eq!(d.task_id, 2);
        assert_eq!(tm.apps[2].status, TaskStatus::Running);
    }
}

#[test]
fn all_exited_is_fatal() {
    let mut tm = boot(2);
    let _ = tm.run_next_app(10).unwrap();
    let _ = tm.exit_and_run_next_app(20).unwrap();
    let r = tm.exit_and_run_next_app(30);
    assert_eq!(r, Err(KernelError::AllApplicationsFinished));
    assert_eq!(tm.apps[0].status, TaskStatus::Exit);
    assert_eq!(tm.apps[1].status, TaskStatus::Exit);
    // and the condition persists on any further scheduling call
    assert_eq!(tm.run_next_app(40), Err(KernelError::AllApplicationsFinished));
}

#[test]
fn exited_task_never_selected_again() {
    let mut tm = boot(3);
    let _ = tm.run_next_app(10).unwrap();
    let _ = tm.exit_and_run_next_app(20).unwrap(); // task 0 gone, task 1 runs
    for round in 0..6 {
        let d = tm.suspend_and_run_next_app(round, 30 + round);
        assert_ne!(d.task_id, 0);
        assert_eq!(tm.apps[0].status, TaskStatus::Exit);
    }
}

#[test]
fn record_syscall_increments_exactly_one_count() {
    let mut tm = boot(2);
    let _ = tm.run_next_app(10).unwrap();
    tm.syscall_count(64);
    tm.syscall_count(64);
    tm.syscall_count(410);
    let mut counts: Vec<u32> = Vec::new();
    tm.get_syscall_count(&mut counts);
    assert_eq!(counts.len(), 500);
    for (id, &c) in counts.iter().enumerate() {
        match id {
            64 => assert_eq!(c, 2),
            410 => assert_eq!(c, 1),
            _ => assert_eq!(c, 0),
        }
    }
    // the other task's counters are untouched
    assert!(tm.apps[1].syscall_times.iter().all(|&c| c == 0));
}

#[test]
fn run_app_by_id_returns_the_saved_context() {
    let tm = boot(3);
    assert_eq!(tm.run_app_by_id(0), 100);
    assert_eq!(tm.run_app_by_id(1), 200);
    assert_eq!(tm.run_app_by_id(2), 300);
}

#[test]
fn task_time_is_measured_from_first_dispatch() {
    let mut tm = boot(2);
    let _ = tm.run_next_app(1000).unwrap();
    assert_eq!(tm.get_task_time(1750), 750);
    assert_eq!(tm.get_task_status(), TaskStatus::Running);
}
