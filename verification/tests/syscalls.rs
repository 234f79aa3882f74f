use os3::syscall::{
    sys_exit, sys_get_time, sys_task_info, sys_write, sys_yield, syscall, SyscallOutcome,
    TaskInfo, TimeVal,
};
use os3::task::{get_task_manager, KernelError, TaskManager, TaskStatus};

fn boot(n: usize) -> TaskManager {
    let mut contexts: Vec<usize> = Vec::new();
    for i in 0..n {
        contexts.push((i + 1) * 100);
    }
    let mut tm = get_task_manager(n, &contexts);
    tm.init();
    tm
}

#[test]
fn write_to_stdout_reports_the_byte_count() {
    assert_eq!(sys_write(1, 0x8000_0000, 13), Ok(13));
    assert_eq!(sys_write(1, 0x8000_0000, 0), Ok(0));
}

#[test]
fn write_to_any_other_fd_is_fatal() {
    assert_eq!(sys_write(0, 0x8000_0000, 13), Err(KernelError::UnsupportedFd));
    assert_eq!(sys_write(2, 0x8000_0000, 13), Err(KernelError::UnsupportedFd));
    assert_eq!(sys_write(7, 0x8000_0000, 13), Err(KernelError::UnsupportedFd));
}

#[test]
fn get_time_splits_into_seconds_and_microseconds() {
    let mut tv = TimeVal { sec: 0, usec: 0 };
    assert_eq!(sys_get_time(&mut tv, 0, 3_456_789), 0);
    assert_eq!(tv.sec, 3);
    assert_eq!(tv.usec, 456_789);
}

#[test]
fn get_time_microseconds_stay_below_a_million() {
    let samples = [0usize, 1, 999_999, 1_000_000, 1_000_001, 86_400_000_017];
    for &now in samples.iter() {
        let mut tv = TimeVal { sec: 0, usec: 0 };
        sys_get_time(&mut tv, 0, now);
        assert!(tv.usec < 1_000_000);
        assert_eq!(tv.sec * 1_000_000 + tv.usec, now);
    }
}

#[test]
fn get_time_totals_are_non_decreasing_with_the_clock() {
    let mut prev_total = 0usize;
    for &now in [5usize, 5, 17, 1_000_000, 2_345_678].iter() {
        let mut tv = TimeVal { sec: 0, usec: 0 };
        sys_get_time(&mut tv, 0, now);
        let total = tv.sec * 1_000_000 + tv.usec;
        assert!(total >= prev_total);
        prev_total = total;
    }
}

#[test]
fn yield_schedules_the_cyclic_successor() {
    let mut tm = boot(3);
    let _ = tm.run_next_app(10).unwrap();
    let d = sys_yield(&mut tm, 111, 20);
    assert_eq!(d.task_id, 1);
    assert_eq!(tm.apps[0].status, TaskStatus::Ready);
    assert_eq!(tm.apps[0].context, 111);
    assert_eq!(tm.apps[1].status, TaskStatus::Running);
}

#[test]
fn exit_terminates_and_schedules_the_next_task() {
    let mut tm = boot(2);
    let _ = tm.run_next_app(10).unwrap();
    let d = sys_exit(&mut tm, 0, 20).unwrap();
    assert_eq!(d.task_id, 1);
    assert_eq!(tm.apps[0].status, TaskStatus::Exit);
    // the exit code does not matter: the last exit is fatal either way
    let r = sys_exit(&mut tm, -7, 30);
    assert_eq!(r, Err(KernelError::AllApplicationsFinished));
}

#[test]
fn task_info_reports_status_counts_and_time() {
    let mut tm = boot(2);
    let _ = tm.run_next_app(1000).unwrap();
    tm.syscall_count(64);
    let mut info = TaskInfo { status: TaskStatus::UInited, syscall_times: Vec::new(), time: 0 };
    assert_eq!(sys_task_info(&tm, &mut info, 1600), 0);
    assert_eq!(info.status, TaskStatus::Running);
    assert_eq!(info.time, 600);
    assert_eq!(info.syscall_times.len(), 500);
    assert_eq!(info.syscall_times[64], 1);
    assert!(info.syscall_times.iter().enumerate().all(|(i, &c)| i == 64 || c == 0));
}

#[test]
fn dispatcher_routes_write_and_counts_it() {
    let mut tm = boot(2);
    let _ = tm.run_next_app(10).unwrap();
    let r = syscall(&mut tm, 64, [1, 0x4000, 5], 900, 20);
    assert_eq!(r, Ok(SyscallOutcome::Output { buf: 0x4000, len: 5, value: 5 }));
    assert_eq!(tm.apps[0].syscall_times[64], 1);
}

#[test]
fn dispatcher_write_bad_fd_is_fatal() {
    let mut tm = boot(2);
    let _ = tm.run_next_app(10).unwrap();
    let r = syscall(&mut tm, 64, [3, 0x4000, 5], 900, 20);
    assert_eq!(r, Err(KernelError::UnsupportedFd));
}

#[test]
fn dispatcher_routes_get_time() {
    let mut tm = boot(2);
    let _ = tm.run_next_app(10).unwrap();
    let r = syscall(&mut tm, 169, [0x5000, 0, 0], 900, 2_000_017);
    assert_eq!(
        r,
        Ok(SyscallOutcome::SetTime { out: 0x5000, time: TimeVal { sec: 2, usec: 17 } })
    );
    assert_eq!(tm.apps[0].syscall_times[169], 1);
}

#[test]
fn dispatcher_routes_task_info_counting_the_call_itself() {
    let mut tm = boot(2);
    let _ = tm.run_next_app(100).unwrap();
    let r = syscall(&mut tm, 410, [0x6000, 0, 0], 900, 175);
    match r {
        Ok(SyscallOutcome::SetInfo { out, info }) => {
            assert_eq!(out, 0x6000);
            assert_eq!(info.status, TaskStatus::Running);
            assert_eq!(info.time, 75);
            assert_eq!(info.syscall_times[410], 1);
        }
        other => panic!("unexpected outcome: {:?}", other),
    }
}

#[test]
fn dispatcher_routes_yield_and_exit_to_the_scheduler() {
    let mut tm = boot(3);
    let _ = tm.run_next_app(10).unwrap();
    let r = syscall(&mut tm, 124, [0, 0, 0], 911, 20);
    match r {
        Ok(SyscallOutcome::Switch(d)) => assert_eq!(d.task_id, 1),
        other => panic!("unexpected outcome: {:?}", other),
    }
    assert_eq!(tm.apps[0].syscall_times[124], 1);
    let r = syscall(&mut tm, 93, [0, 0, 0], 0, 30);
    match r {
        Ok(SyscallOutcome::Switch(d)) => assert_eq!(d.task_id, 2),
        other => panic!("unexpected outcome: {:?}", other),
    }
    assert_eq!(tm.apps[1].status, TaskStatus::Exit);
    // exit is the one dispatched syscall that is never counted
    assert_eq!(tm.apps[1].syscall_times[93], 0);
}

#[test]
fn dispatcher_rejects_unknown_identifiers() {
    let mut tm = boot(2);
    let _ = tm.run_next_app(10).unwrap();
    let r = syscall(&mut tm, 999, [0, 0, 0], 0, 20);
    assert_eq!(r, Err(KernelError::UnsupportedSyscall(999)));
    // nothing was counted and nothing was scheduled
    assert!(tm.apps[0].syscall_times.iter().all(|&c| c == 0));
    assert_eq!(tm.apps[0].status, TaskStatus::Running);
}
