//! The syscall dispatcher: a fixed mapping from numeric identifier to
//! handler.  Unknown identifiers are fatal, never a silent no-op.
//!
//! Handlers that touch the outside world return what must be done rather
//! than doing it: `write` yields the byte range the console glue must print,
//! `get_time` and `task_info` yield the value the glue must store at the
//! user address, `yield` and `exit` yield the scheduling decision.

use vstd::prelude::*;

use crate::config::MAX_SYSCALL_NUM;
use crate::task::{Dispatch, KernelError, TaskManager, TaskStatus};

verus! {

pub const SYSCALL_WRITE: usize = 64;

pub const SYSCALL_EXIT: usize = 93;

pub const SYSCALL_YIELD: usize = 124;

pub const SYSCALL_GET_TIME: usize = 169;

pub const SYSCALL_TASK_INFO: usize = 410;

/// The only file descriptor `write` supports.
pub const FD_STDOUT: usize = 1;

/// A wall-clock reading split into whole seconds and the microsecond
/// remainder, as `get_time` stores it for the caller.
#[derive(PartialEq, Eq, Structural, Clone, Copy, Debug)]
pub struct TimeVal {
    pub sec: usize,
    pub usec: usize,
}

/// What `task_info` reports about the calling task: its run state, its
/// per-syscall invocation counters, and how long it has been running.
#[derive(PartialEq, Debug)]
pub struct TaskInfo {
    pub status: TaskStatus,
    pub syscall_times: Vec<u32>,
    pub time: usize,
}

/// The single microsecond count a [`TimeVal`] stands for.
pub open spec fn time_total(tv: TimeVal) -> int {
    tv.sec * 1_000_000 + tv.usec
}

/// Identifiers whose handler bumps the calling task's syscall counter:
/// every dispatched syscall except `exit`, whose task is gone.
pub open spec fn counted_syscall(id: int) -> bool {
    ||| id == SYSCALL_WRITE as int
    ||| id == SYSCALL_YIELD as int
    ||| id == SYSCALL_GET_TIME as int
    ||| id == SYSCALL_TASK_INFO as int
}

/// Everything the dispatcher can hand back short of a fatal condition.
/// The machine glue performs the named effect and resumes the named task
/// (for the first three variants, the calling task itself).
#[derive(PartialEq, Debug)]
pub enum SyscallOutcome {
    /// Print `len` bytes of user memory starting at `buf`; the syscall's
    /// return value is `value`.
    Output { buf: usize, len: usize, value: isize },
    /// Store `time` at user address `out`; the syscall returns 0.
    SetTime { out: usize, time: TimeVal },
    /// Store `info` at user address `out`; the syscall returns 0.
    SetInfo { out: usize, info: TaskInfo },
    /// Control transfers: resume the named task instead of the caller.
    Switch(Dispatch),
}

/// The `write` handler's decision: only stdout is supported, and a write to
/// it reports the whole byte count as written (the console glue prints the
/// bytes); any other descriptor is fatal.  The byte range itself is opaque
/// here — hence the unused buffer address — and a range longer than
/// `isize::MAX` could not name real bytes, so it is excluded.
pub fn sys_write(fd: usize, _buf: usize, len: usize) -> (r: Result<isize, KernelError>)
    requires
        len <= isize::MAX as usize,
    ensures
        fd == FD_STDOUT ==> r == Ok::<isize, KernelError>(len as isize),
        fd != FD_STDOUT ==> r == Err::<isize, KernelError>(KernelError::UnsupportedFd),
{
    if fd == FD_STDOUT {
        Ok(len as isize)
    } else {
        Err(KernelError::UnsupportedFd)
    }
}

/// The `exit` handler: the calling task becomes `Exit` — it is never
/// rescheduled, whatever its exit code — and the next ready task is
/// dispatched; with no ready task left the fatal all-finished condition is
/// reported.  Control never returns to the caller.
pub fn sys_exit(tm: &mut TaskManager, _exit_code: i32, now_us: usize) -> (r: Result<
    Dispatch,
    KernelError,
>)
    requires
        old(tm).wf(),
    ensures
        final(tm).wf(),
        ({
            let s1 = old(tm)@.exit_current();
            &&& s1.has_ready() ==> (r matches Ok(d) && d.task_id as int == s1.next_task()
                && d.context as int == s1.tasks[s1.next_task()].context && final(tm)@
                == s1.dispatch_to(s1.next_task(), now_us as int))
            &&& !s1.has_ready() ==> r == Err::<Dispatch, KernelError>(
                KernelError::AllApplicationsFinished,
            ) && final(tm)@ == s1
        }),
{
    tm.exit_and_run_next_app(now_us)
}

/// The `yield` handler: the calling task relinquishes the CPU, going back
/// to `Ready` with `context` as its saved-context handle, and the round
/// robin picks the next task — the caller itself when nothing else is
/// ready.  The caller sees return value 0 once it is rescheduled.
pub fn sys_yield(tm: &mut TaskManager, context: usize, now_us: usize) -> (d: Dispatch)
    requires
        old(tm).wf(),
    ensures
        final(tm).wf(),
        ({
            let s1 = old(tm)@.suspend_current(context as int);
            d.task_id as int == s1.next_task() && d.context as int
                == s1.tasks[s1.next_task()].context && final(tm)@ == s1.dispatch_to(
                s1.next_task(),
                now_us as int,
            )
        }),
{
    tm.suspend_and_run_next_app(context, now_us)
}

/// The `get_time` handler: splits the clock reading `now_us`, sampled by
/// the trap glue, into whole seconds and a microsecond remainder below one
/// million, together standing for exactly `now_us`, and returns 0.
pub fn sys_get_time(ts: &mut TimeVal, _tz: usize, now_us: usize) -> (r: isize)
    ensures
        final(ts).sec == now_us as int / 1_000_000,
        final(ts).usec == now_us as int % 1_000_000,
        final(ts).usec < 1_000_000,
        time_total(*final(ts)) == now_us as int,
        r == 0,
{
    let sec = now_us / 1_000_000;
    let usec = now_us % 1_000_000;
    *ts = TimeVal { sec, usec };
    proof {
        vstd::arithmetic::div_mod::lemma_fundamental_div_mod(now_us as int, 1_000_000);
    }
    0
}

/// Clock readings order their outputs: of two `get_time` results, the one
/// taken at the later reading never stands for fewer microseconds.  With a
/// monotone clock, successive calls from one task thus see non-decreasing
/// `sec * 1_000_000 + usec`.
pub proof fn lemma_time_total_monotonic(a: TimeVal, b: TimeVal, now_a: int, now_b: int)
    requires
        time_total(a) == now_a,
        time_total(b) == now_b,
        now_a <= now_b,
    ensures
        time_total(a) <= time_total(b),
{
}

/// The `task_info` handler: fills `ti` with the calling task's run state,
/// a copy of its per-syscall counters, and its running time — the clock
/// reading minus the task's first-dispatch timestamp — and returns 0.
pub fn sys_task_info(tm: &TaskManager, ti: &mut TaskInfo, now_us: usize) -> (r: isize)
    requires
        tm.wf(),
        now_us as int >= tm@.tasks[tm@.cur].time,
    ensures
        final(ti).status == tm@.tasks[tm@.cur].status,
        final(ti).syscall_times@ == tm@.tasks[tm@.cur].counts,
        final(ti).time as int == now_us as int - tm@.tasks[tm@.cur].time,
        r == 0,
{
    let status = tm.get_task_status();
    let mut counts: Vec<u32> = Vec::new();
    tm.get_syscall_count(&mut counts);
    let time = tm.get_task_time(now_us);
    *ti = TaskInfo { status, syscall_times: counts, time };
    0
}

/// The dispatcher: routes identifier plus three word arguments to the
/// handler, bumping the calling task's counter for every identifier but
/// `exit`, and reports unknown identifiers as fatal.  `context` is the
/// calling task's saved-context handle, stored if the call suspends it;
/// `now_us` is the clock reading the time-dependent handlers use.
pub fn syscall(
    tm: &mut TaskManager,
    syscall_id: usize,
    args: [usize; 3],
    context: usize,
    now_us: usize,
) -> (r: Result<SyscallOutcome, KernelError>)
    requires
        old(tm).wf(),
        counted_syscall(syscall_id as int) ==> old(tm)@.tasks[old(tm)@.cur].counts[syscall_id as int]
            < u32::MAX,
        syscall_id == SYSCALL_WRITE ==> args@[2] <= isize::MAX as usize,
        syscall_id == SYSCALL_TASK_INFO ==> now_us as int >= old(tm)@.tasks[old(tm)@.cur].time,
    ensures
        final(tm).wf(),
        syscall_id == SYSCALL_WRITE ==> ({
            &&& final(tm)@ == old(tm)@.bump_count(SYSCALL_WRITE as int)
            &&& args@[0] == FD_STDOUT ==> r == Ok::<SyscallOutcome, KernelError>(
                SyscallOutcome::Output { buf: args@[1], len: args@[2], value: args@[2] as isize },
            )
            &&& args@[0] != FD_STDOUT ==> r == Err::<SyscallOutcome, KernelError>(
                KernelError::UnsupportedFd,
            )
        }),
        syscall_id == SYSCALL_EXIT ==> ({
            let s1 = old(tm)@.exit_current();
            &&& s1.has_ready() ==> (r matches Ok(o) && o matches SyscallOutcome::Switch(d)
                && d.task_id as int == s1.next_task() && d.context as int
                == s1.tasks[s1.next_task()].context && final(tm)@ == s1.dispatch_to(
                s1.next_task(),
                now_us as int,
            ))
            &&& !s1.has_ready() ==> r == Err::<SyscallOutcome, KernelError>(
                KernelError::AllApplicationsFinished,
            ) && final(tm)@ == s1
        }),
        syscall_id == SYSCALL_YIELD ==> ({
            let s1 = old(tm)@.bump_count(SYSCALL_YIELD as int).suspend_current(context as int);
            r matches Ok(o) && o matches SyscallOutcome::Switch(d) && d.task_id as int
                == s1.next_task() && d.context as int == s1.tasks[s1.next_task()].context
                && final(tm)@ == s1.dispatch_to(s1.next_task(), now_us as int)
        }),
        syscall_id == SYSCALL_GET_TIME ==> ({
            &&& final(tm)@ == old(tm)@.bump_count(SYSCALL_GET_TIME as int)
            &&& r matches Ok(o) && o == (SyscallOutcome::SetTime {
                out: args@[0],
                time: TimeVal {
                    sec: (now_us as int / 1_000_000) as usize,
                    usec: (now_us as int % 1_000_000) as usize,
                },
            })
        }),
        syscall_id == SYSCALL_TASK_INFO ==> ({
            let s0 = old(tm)@.bump_count(SYSCALL_TASK_INFO as int);
            &&& final(tm)@ == s0
            &&& r matches Ok(o) && o matches SyscallOutcome::SetInfo { out, info } && out
                == args@[0] && info.status == s0.tasks[s0.cur].status && info.syscall_times@
                == s0.tasks[s0.cur].counts && info.time as int == now_us as int
                - s0.tasks[s0.cur].time
        }),
        !(syscall_id == SYSCALL_WRITE || syscall_id == SYSCALL_EXIT || syscall_id == SYSCALL_YIELD
            || syscall_id == SYSCALL_GET_TIME || syscall_id == SYSCALL_TASK_INFO) ==> r
            == Err::<SyscallOutcome, KernelError>(KernelError::UnsupportedSyscall(syscall_id))
            && final(tm)@ == old(tm)@,
{
    if syscall_id == SYSCALL_WRITE {
        tm.syscall_count(SYSCALL_WRITE);
        match sys_write(args[0], args[1], args[2]) {
            Ok(v) => Ok(SyscallOutcome::Output { buf: args[1], len: args[2], value: v }),
            Err(e) => Err(e),
        }
    } else if syscall_id == SYSCALL_EXIT {
        let code = #[verifier::truncate] (args[0] as i32);
        match sys_exit(tm, code, now_us) {
            Ok(d) => Ok(SyscallOutcome::Switch(d)),
            Err(e) => Err(e),
        }
    } else if syscall_id == SYSCALL_YIELD {
        tm.syscall_count(SYSCALL_YIELD);
        let d = sys_yield(tm, context, now_us);
        Ok(SyscallOutcome::Switch(d))
    } else if syscall_id == SYSCALL_GET_TIME {
        tm.syscall_count(SYSCALL_GET_TIME);
        let mut tv = TimeVal { sec: 0, usec: 0 };
        let _ret = sys_get_time(&mut tv, args[1], now_us);
        Ok(SyscallOutcome::SetTime { out: args[0], time: tv })
    } else if syscall_id == SYSCALL_TASK_INFO {
        tm.syscall_count(SYSCALL_TASK_INFO);
        let mut info = TaskInfo { status: TaskStatus::UInited, syscall_times: Vec::new(), time: 0 };
        let _ret = sys_task_info(tm, &mut info, now_us);
        Ok(SyscallOutcome::SetInfo { out: args[0], info })
    } else {
        Err(KernelError::UnsupportedSyscall(syscall_id))
    }
}

} // verus!
