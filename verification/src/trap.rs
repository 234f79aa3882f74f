//! The trap dispatcher: given the saved register block of the trapped task
//! and the classified trap cause, route to the syscall dispatcher, the
//! fault path, or the preemption path, and say what the machine glue must
//! do next.
//!
//! The glue owns the privileged entry path: it captures the register block
//! on every trap, reads the cause and fault-value registers, calls
//! [`trap_handler`], performs the returned action (print, store, re-arm the
//! timer), and hands the chosen saved context to the register-restore
//! primitive.  Which task runs next is never decided here; every scheduling
//! decision is delegated to the task manager.

use vstd::prelude::*;

use crate::syscall::{
    counted_syscall, syscall, SyscallOutcome, TaskInfo, TimeVal, FD_STDOUT, SYSCALL_EXIT,
    SYSCALL_GET_TIME, SYSCALL_TASK_INFO, SYSCALL_WRITE, SYSCALL_YIELD,
};
use crate::task::{Dispatch, KernelError, TaskManager};

verus! {

/// Number of general-purpose registers in a saved context.
pub const REG_COUNT: usize = 32;

/// Register holding the stack pointer.
pub const REG_SP: usize = 2;

/// Register holding the first syscall argument and, on return, the
/// syscall's result.
pub const REG_A0: usize = 10;

/// Register holding the second syscall argument.
pub const REG_A1: usize = 11;

/// Register holding the third syscall argument.
pub const REG_A2: usize = 12;

/// Register holding the syscall identifier.
pub const REG_A7: usize = 17;

/// A task's saved register-and-status block: the general-purpose
/// registers, the privilege-status snapshot taken at trap time, and the
/// resume address.  One lives in a fixed per-task memory region; the trap
/// entry glue fills it and hands it here by reference.
#[derive(Debug)]
pub struct TrapContext {
    pub regs: Vec<usize>,
    pub sstatus: usize,
    pub sepc: usize,
}

impl TrapContext {
    /// The register block has its full fixed width.
    pub open spec fn wf(self) -> bool {
        self.regs@.len() == REG_COUNT as int
    }

    /// Sets the saved stack pointer.
    pub fn set_sp(&mut self, sp: usize)
        requires
            old(self).wf(),
        ensures
            final(self).wf(),
            final(self).regs@ == old(self).regs@.update(REG_SP as int, sp),
            final(self).sstatus == old(self).sstatus,
            final(self).sepc == old(self).sepc,
    {
        self.regs.set(REG_SP, sp);
    }

    /// The initial saved context for an application about to run for the
    /// first time: all registers zero but the stack pointer, the resume
    /// address at the entry point, and the privilege-status snapshot the
    /// boot glue prepared (user privilege selected).
    pub fn app_init_context(entry: usize, sp: usize, sstatus: usize) -> (r: Self)
        ensures
            r.wf(),
            r.sepc == entry,
            r.sstatus == sstatus,
            r.regs@[REG_SP as int] == sp,
            forall|i: int| 0 <= i < REG_COUNT as int && i != REG_SP as int ==> r.regs@[i] == 0,
    {
        let mut regs: Vec<usize> = Vec::new();
        let mut i: usize = 0;
        while i < REG_COUNT
            invariant
                i <= REG_COUNT,
                regs@.len() == i as int,
                forall|k: int| 0 <= k < i as int ==> regs@[k] == 0,
            decreases REG_COUNT - i,
        {
            regs.push(0);
            i += 1;
        }
        let mut context = TrapContext { regs, sstatus, sepc: entry };
        context.set_sp(sp);
        context
    }
}

/// The classified cause of a trap, read from the cause register by the
/// entry glue.  Exactly the causes this kernel services are distinguished;
/// everything else is `Unsupported` and fatal.
#[derive(PartialEq, Eq, Structural, Clone, Copy, Debug)]
pub enum TrapCause {
    /// A syscall request from user mode.
    UserEnvCall,
    /// A store fault: the faulting task is terminated.
    StoreFault,
    /// A store page fault: the faulting task is terminated.
    StorePageFault,
    /// An illegal instruction: the faulting task is terminated.
    IllegalInstruction,
    /// The preemption tick.
    SupervisorTimer,
    /// Any cause this kernel does not service.
    Unsupported,
}

/// What the machine glue must do after a trap is serviced.
#[derive(PartialEq, Debug)]
pub enum TrapAction {
    /// Resume the trapped task with its (updated) saved context.
    Resume,
    /// Print `len` bytes of user memory at `buf`, then resume the trapped
    /// task.
    Print { buf: usize, len: usize },
    /// Store `time` at user address `out`, then resume the trapped task.
    StoreTime { out: usize, time: TimeVal },
    /// Store `info` at user address `out`, then resume the trapped task.
    StoreInfo { out: usize, info: TaskInfo },
    /// Hand the named saved context to the register-restore primitive;
    /// control leaves the trapped task.
    Switch(Dispatch),
    /// Arm the next preemption tick, then switch as in `Switch`.
    RearmTimerAndSwitch(Dispatch),
}

/// Routes one trap.  For a syscall the resume address is advanced past the
/// trapping instruction, the identifier and three arguments are taken from
/// their fixed register slots, and the dispatcher's result is written back
/// into the return-value slot.  Faults terminate the trapped task; the
/// timer tick suspends it; both delegate the choice of the next task to
/// the scheduler.  `context_handle` names the memory `ctx` was captured
/// in, and is what a suspended task's record keeps.
pub fn trap_handler(
    tm: &mut TaskManager,
    ctx: &mut TrapContext,
    cause: TrapCause,
    context_handle: usize,
    now_us: usize,
) -> (r: Result<TrapAction, KernelError>)
    requires
        old(tm).wf(),
        old(ctx).wf(),
        cause == TrapCause::UserEnvCall ==> old(ctx).sepc < usize::MAX - 3,
        cause == TrapCause::UserEnvCall && counted_syscall(old(ctx).regs@[REG_A7 as int] as int)
            ==> old(tm)@.tasks[old(tm)@.cur].counts[old(ctx).regs@[REG_A7 as int] as int]
            < u32::MAX,
        cause == TrapCause::UserEnvCall && old(ctx).regs@[REG_A7 as int] == SYSCALL_WRITE
            ==> old(ctx).regs@[REG_A2 as int] <= isize::MAX as usize,
        cause == TrapCause::UserEnvCall && old(ctx).regs@[REG_A7 as int] == SYSCALL_TASK_INFO
            ==> now_us as int >= old(tm)@.tasks[old(tm)@.cur].time,
    ensures
        final(tm).wf(),
        final(ctx).wf(),
        (cause == TrapCause::StoreFault || cause == TrapCause::StorePageFault || cause
            == TrapCause::IllegalInstruction) ==> ({
            let s1 = old(tm)@.exit_current();
            &&& *final(ctx) == *old(ctx)
            &&& s1.has_ready() ==> (r matches Ok(a) && a matches TrapAction::Switch(d)
                && d.task_id as int == s1.next_task() && d.context as int
                == s1.tasks[s1.next_task()].context && final(tm)@ == s1.dispatch_to(
                s1.next_task(),
                now_us as int,
            ))
            &&& !s1.has_ready() ==> r == Err::<TrapAction, KernelError>(
                KernelError::AllApplicationsFinished,
            ) && final(tm)@ == s1
        }),
        cause == TrapCause::SupervisorTimer ==> ({
            let s1 = old(tm)@.suspend_current(context_handle as int);
            &&& *final(ctx) == *old(ctx)
            &&& r matches Ok(a) && a matches TrapAction::RearmTimerAndSwitch(d)
                && d.task_id as int == s1.next_task() && d.context as int
                == s1.tasks[s1.next_task()].context && final(tm)@ == s1.dispatch_to(
                s1.next_task(),
                now_us as int,
            )
        }),
        cause == TrapCause::Unsupported ==> r == Err::<TrapAction, KernelError>(
            KernelError::UnsupportedTrap,
        ) && final(tm)@ == old(tm)@ && *final(ctx) == *old(ctx),
        cause == TrapCause::UserEnvCall ==> ({
            let id = old(ctx).regs@[REG_A7 as int];
            let a0 = old(ctx).regs@[REG_A0 as int];
            let a1 = old(ctx).regs@[REG_A1 as int];
            let a2 = old(ctx).regs@[REG_A2 as int];
            &&& final(ctx).sepc == old(ctx).sepc + 4
            &&& final(ctx).sstatus == old(ctx).sstatus
            &&& id == SYSCALL_WRITE ==> ({
                &&& final(tm)@ == old(tm)@.bump_count(SYSCALL_WRITE as int)
                &&& a0 == FD_STDOUT ==> r == Ok::<TrapAction, KernelError>(
                    TrapAction::Print { buf: a1, len: a2 },
                ) && final(ctx).regs@ == old(ctx).regs@.update(REG_A0 as int, a2)
                &&& a0 != FD_STDOUT ==> r == Err::<TrapAction, KernelError>(
                    KernelError::UnsupportedFd,
                ) && final(ctx).regs@ == old(ctx).regs@
            })
            &&& id == SYSCALL_EXIT ==> ({
                let s1 = old(tm)@.exit_current();
                &&& s1.has_ready() ==> (r matches Ok(a) && a matches TrapAction::Switch(d)
                    && d.task_id as int == s1.next_task() && d.context as int
                    == s1.tasks[s1.next_task()].context && final(tm)@ == s1.dispatch_to(
                    s1.next_task(),
                    now_us as int,
                ) && final(ctx).regs@ == old(ctx).regs@.update(REG_A0 as int, 0))
                &&& !s1.has_ready() ==> r == Err::<TrapAction, KernelError>(
                    KernelError::AllApplicationsFinished,
                ) && final(tm)@ == s1 && final(ctx).regs@ == old(ctx).regs@
            })
            &&& id == SYSCALL_YIELD ==> ({
                let s1 = old(tm)@.bump_count(SYSCALL_YIELD as int).suspend_current(
                    context_handle as int,
                );
                r matches Ok(a) && a matches TrapAction::Switch(d) && d.task_id as int
                    == s1.next_task() && d.context as int == s1.tasks[s1.next_task()].context
                    && final(tm)@ == s1.dispatch_to(s1.next_task(), now_us as int)
                    && final(ctx).regs@ == old(ctx).regs@.update(REG_A0 as int, 0)
            })
            &&& id == SYSCALL_GET_TIME ==> ({
                &&& final(tm)@ == old(tm)@.bump_count(SYSCALL_GET_TIME as int)
                &&& final(ctx).regs@ == old(ctx).regs@.update(REG_A0 as int, 0)
                &&& r == Ok::<TrapAction, KernelError>(
                    TrapAction::StoreTime {
                        out: a0,
                        time: TimeVal {
                            sec: (now_us as int / 1_000_000) as usize,
                            usec: (now_us as int % 1_000_000) as usize,
                        },
                    },
                )
            })
            &&& id == SYSCALL_TASK_INFO ==> ({
                let s0 = old(tm)@.bump_count(SYSCALL_TASK_INFO as int);
                &&& final(tm)@ == s0
                &&& final(ctx).regs@ == old(ctx).regs@.update(REG_A0 as int, 0)
                &&& r matches Ok(a) && a matches TrapAction::StoreInfo { out, info } && out == a0
                    && info.status == s0.tasks[s0.cur].status && info.syscall_times@
                    == s0.tasks[s0.cur].counts && info.time as int == now_us as int
                    - s0.tasks[s0.cur].time
            })
            &&& !(id == SYSCALL_WRITE || id == SYSCALL_EXIT || id == SYSCALL_YIELD || id
                == SYSCALL_GET_TIME || id == SYSCALL_TASK_INFO) ==> r == Err::<
                TrapAction,
                KernelError,
            >(KernelError::UnsupportedSyscall(id)) && final(tm)@ == old(tm)@ && final(ctx).regs@
                == old(ctx).regs@
        }),
{
    match cause {
        TrapCause::UserEnvCall => {
            ctx.sepc = ctx.sepc + 4;
            let id = ctx.regs[REG_A7];
            let args = [ctx.regs[REG_A0], ctx.regs[REG_A1], ctx.regs[REG_A2]];
            match syscall(tm, id, args, context_handle, now_us) {
                Ok(SyscallOutcome::Output { buf, len, value }) => {
                    let v = #[verifier::truncate] (value as usize);
                    ctx.regs.set(REG_A0, v);
                    Ok(TrapAction::Print { buf, len })
                },
                Ok(SyscallOutcome::SetTime { out, time }) => {
                    ctx.regs.set(REG_A0, 0);
                    Ok(TrapAction::StoreTime { out, time })
                },
                Ok(SyscallOutcome::SetInfo { out, info }) => {
                    ctx.regs.set(REG_A0, 0);
                    Ok(TrapAction::StoreInfo { out, info })
                },
                Ok(SyscallOutcome::Switch(d)) => {
                    ctx.regs.set(REG_A0, 0);
                    Ok(TrapAction::Switch(d))
                },
                Err(e) => Err(e),
            }
        },
        TrapCause::StoreFault | TrapCause::StorePageFault | TrapCause::IllegalInstruction => {
            match tm.exit_and_run_next_app(now_us) {
                Ok(d) => Ok(TrapAction::Switch(d)),
                Err(e) => Err(e),
            }
        },
        TrapCause::SupervisorTimer => {
            let d = tm.suspend_and_run_next_app(context_handle, now_us);
            Ok(TrapAction::RearmTimerAndSwitch(d))
        },
        TrapCause::Unsupported => Err(KernelError::UnsupportedTrap),
    }
}

} // verus!
