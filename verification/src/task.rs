//! The task scheduler: a fixed table of task records, their run-state
//! machine, and the round-robin selection policy.
//!
//! The scheduler is an explicit owned object ([`TaskManager`]); the machine
//! glue constructs one at boot from the loader's outputs and drives it from
//! the trap path.  Control transfers themselves (the register-restore
//! primitive) happen outside: scheduling operations return a [`Dispatch`]
//! naming the task to resume and its saved-context handle.

use vstd::prelude::*;

use crate::config::{MAX_APP_NUM, MAX_SYSCALL_NUM};

verus! {

/// Run state of one task slot.  `Exit` is terminal: an exited slot is skipped
/// by every later scheduling decision and never reclaimed.  `Suspend` is
/// reserved for future blocking I/O and is not produced by any operation
/// here.
#[derive(PartialEq, Eq, Structural, Clone, Copy, Debug)]
pub enum TaskStatus {
    UInited,
    Ready,
    Running,
    Suspend,
    Exit,
}

/// One task record: stable slot index, opaque saved-context handle,
/// microsecond timestamp of the first dispatch (zero means "never run"),
/// run state, and one invocation counter per syscall identifier.
#[derive(Debug)]
pub struct TaskContext {
    pub id: usize,
    pub context: usize,
    pub time: usize,
    pub status: TaskStatus,
    pub syscall_times: Vec<u32>,
}

/// Mathematical value of one task record.
#[verifier::ext_equal]
pub struct TaskModel {
    pub id: int,
    pub context: int,
    pub time: int,
    pub status: TaskStatus,
    pub counts: Seq<u32>,
}

impl View for TaskContext {
    type V = TaskModel;

    open spec fn view(&self) -> TaskModel {
        TaskModel {
            id: self.id as int,
            context: self.context as int,
            time: self.time as int,
            status: self.status,
            counts: self.syscall_times@,
        }
    }
}

/// Mathematical value of the whole scheduler: the populated prefix length,
/// the round-robin cursor, and the task table.
#[verifier::ext_equal]
pub struct SchedModel {
    pub app_num: int,
    pub cur: int,
    pub tasks: Seq<TaskModel>,
}

/// All syscall counters of `s` are zero.
pub open spec fn all_zero(s: Seq<u32>) -> bool {
    forall|i: int| 0 <= i < s.len() ==> s[i] == 0
}

impl SchedModel {
    /// Well-formedness of the scheduler state: the table has full capacity,
    /// a non-empty prefix of it is populated, the cursor points into that
    /// prefix, each record's id equals its slot index, every counter table
    /// has full length, unpopulated slots stay uninitialized, and no slot
    /// other than the cursor is ever `Running` (single CPU).
    pub open spec fn wf(self) -> bool {
        &&& self.tasks.len() == MAX_APP_NUM as int
        &&& 0 < self.app_num <= MAX_APP_NUM as int
        &&& 0 <= self.cur < self.app_num
        &&& forall|i: int| 0 <= i < self.tasks.len() ==> (#[trigger] self.tasks[i]).id == i
        &&& forall|i: int|
            0 <= i < self.tasks.len() ==> (#[trigger] self.tasks[i]).counts.len()
                == MAX_SYSCALL_NUM as int
        &&& forall|i: int|
            self.app_num <= i < self.tasks.len() ==> (#[trigger] self.tasks[i]).status
                == TaskStatus::UInited
        &&& forall|i: int|
            0 <= i < self.app_num && i != self.cur ==> (#[trigger] self.tasks[i]).status
                != TaskStatus::Running
    }

    /// Slot `i` is ready to run.
    pub open spec fn ready(self, i: int) -> bool {
        self.tasks[i].status == TaskStatus::Ready
    }

    /// Some populated slot is ready.
    pub open spec fn has_ready(self) -> bool {
        exists|i: int| 0 <= i < self.app_num && self.ready(i)
    }

    /// The slot reached after stepping `j` positions forward from the cursor,
    /// wrapping around the populated prefix.
    pub open spec fn slot_at(self, j: int) -> int {
        (self.cur + j) % self.app_num
    }

    /// Circular distance from the cursor to slot `i`.
    pub open spec fn offset_of(self, i: int) -> int {
        if i >= self.cur {
            i - self.cur
        } else {
            i + self.app_num - self.cur
        }
    }

    /// First ready slot at circular distance `j` or more from the cursor, or
    /// `-1` if none is ready anywhere in the populated prefix.
    pub open spec fn scan_from(self, j: int) -> int
        decreases self.app_num - j,
    {
        if j >= self.app_num {
            -1
        } else if self.ready(self.slot_at(j)) {
            self.slot_at(j)
        } else {
            self.scan_from(j + 1)
        }
    }

    /// The slot the round-robin policy selects next: the ready slot nearest
    /// to the cursor, the cursor itself included; `-1` if none is ready.
    pub open spec fn next_task(self) -> int {
        self.scan_from(0)
    }

    /// State after the current task is suspended: it becomes ready again,
    /// its saved-context handle is recorded, and the cursor advances one
    /// slot (so the selection that follows starts just past it).
    pub open spec fn suspend_current(self, context: int) -> SchedModel {
        SchedModel {
            app_num: self.app_num,
            cur: (self.cur + 1) % self.app_num,
            tasks: self.tasks.update(
                self.cur,
                TaskModel { status: TaskStatus::Ready, context, ..self.tasks[self.cur] },
            ),
        }
    }

    /// State after the current task exits: its slot is terminally `Exit`;
    /// the cursor stays, so the selection that follows skips the exited slot
    /// and starts just past it.
    pub open spec fn exit_current(self) -> SchedModel {
        SchedModel {
            app_num: self.app_num,
            cur: self.cur,
            tasks: self.tasks.update(
                self.cur,
                TaskModel { status: TaskStatus::Exit, ..self.tasks[self.cur] },
            ),
        }
    }

    /// State after slot `t` is dispatched: it becomes `Running`, its first
    /// dispatch is timestamped with `now` (later dispatches keep the first
    /// timestamp), and the cursor moves to it.
    pub open spec fn dispatch_to(self, t: int, now: int) -> SchedModel {
        SchedModel {
            app_num: self.app_num,
            cur: t,
            tasks: self.tasks.update(
                t,
                TaskModel {
                    status: TaskStatus::Running,
                    time: if self.tasks[t].time == 0 {
                        now
                    } else {
                        self.tasks[t].time
                    },
                    ..self.tasks[t]
                },
            ),
        }
    }

    /// State after the current task's counter for syscall `id` is bumped.
    pub open spec fn bump_count(self, id: int) -> SchedModel {
        SchedModel {
            app_num: self.app_num,
            cur: self.cur,
            tasks: self.tasks.update(
                self.cur,
                TaskModel {
                    counts: self.tasks[self.cur].counts.update(
                        id,
                        (self.tasks[self.cur].counts[id] + 1) as u32,
                    ),
                    ..self.tasks[self.cur]
                },
            ),
        }
    }
}

/// For `0 <= x < 2n` the remainder wraps at most once.
proof fn lemma_wrap_mod(x: int, n: int)
    requires
        n > 0,
        0 <= x < 2 * n,
    ensures
        x % n == if x < n {
            x
        } else {
            x - n
        },
{
    if x < n {
        vstd::arithmetic::div_mod::lemma_small_mod(x as nat, n as nat);
    } else {
        vstd::arithmetic::div_mod::lemma_mod_sub_multiples_vanish(x, n);
        vstd::arithmetic::div_mod::lemma_small_mod((x - n) as nat, n as nat);
    }
}

/// Stepping `k` slots from the cursor lands in the populated prefix, at
/// circular distance exactly `k`.
proof fn lemma_slot_offset(m: SchedModel, k: int)
    requires
        m.wf(),
        0 <= k < m.app_num,
    ensures
        0 <= m.slot_at(k) < m.app_num,
        m.offset_of(m.slot_at(k)) == k,
{
    lemma_wrap_mod(m.cur + k, m.app_num);
}

/// Every populated slot is reached from the cursor at its circular distance.
proof fn lemma_offset_slot(m: SchedModel, i: int)
    requires
        m.wf(),
        0 <= i < m.app_num,
    ensures
        0 <= m.offset_of(i) < m.app_num,
        m.slot_at(m.offset_of(i)) == i,
{
    lemma_wrap_mod(m.cur + m.offset_of(i), m.app_num);
}

/// What the scan computes, for any starting distance `j`: either nothing at
/// distance `j` or beyond is ready and the scan reports `-1`, or it reports
/// the ready slot whose circular distance is least among those `>= j`.
proof fn lemma_scan_char(m: SchedModel, j: int)
    requires
        m.wf(),
        0 <= j <= m.app_num,
    ensures
        m.scan_from(j) == -1 ==> forall|k: int|
            j <= k < m.app_num ==> !m.ready(m.slot_at(k)),
        m.scan_from(j) != -1 ==> {
            let t = m.scan_from(j);
            &&& 0 <= t < m.app_num
            &&& m.ready(t)
            &&& j <= m.offset_of(t) < m.app_num
            &&& forall|k: int| j <= k < m.offset_of(t) ==> !m.ready(m.slot_at(k))
        },
        (exists|k: int| j <= k < m.app_num && m.ready(m.slot_at(k))) ==> m.scan_from(j) != -1,
    decreases m.app_num - j,
{
    if j >= m.app_num {
    } else if m.ready(m.slot_at(j)) {
        lemma_slot_offset(m, j);
    } else {
        lemma_scan_char(m, j + 1);
        if exists|k: int| j <= k < m.app_num && m.ready(m.slot_at(k)) {
            let k = choose|k: int| j <= k < m.app_num && m.ready(m.slot_at(k));
            assert(j + 1 <= k < m.app_num && m.ready(m.slot_at(k)));
        }
    }
}

/// The round-robin selection law: whenever some populated slot is ready, the
/// scan selects a ready slot whose circular distance from the cursor is
/// minimal among all ready slots (FIFO-fair rotation, ties broken by
/// position); when none is ready, it reports `-1` and the kernel must halt.
pub proof fn lemma_next_task_spec(m: SchedModel)
    requires
        m.wf(),
    ensures
        m.has_ready() ==> 0 <= m.next_task() < m.app_num,
        m.has_ready() ==> m.ready(m.next_task()),
        m.has_ready() ==> forall|u: int|
            0 <= u < m.app_num && m.ready(u) ==> m.offset_of(m.next_task()) <= m.offset_of(u),
        !m.has_ready() ==> m.next_task() == -1,
{
    lemma_scan_char(m, 0);
    if m.has_ready() {
        let i = choose|i: int| 0 <= i < m.app_num && m.ready(i);
        lemma_offset_slot(m, i);
        assert(0 <= m.offset_of(i) < m.app_num && m.ready(m.slot_at(m.offset_of(i))));
        let t = m.next_task();
        assert forall|u: int| 0 <= u < m.app_num && m.ready(u) implies m.offset_of(t)
            <= m.offset_of(u) by {
            lemma_offset_slot(m, u);
        }
    } else {
        if m.next_task() != -1 {
            assert(m.ready(m.next_task()));
        }
    }
}

/// Once a slot is `Exit` it is never again selected by the scan, whatever
/// the rest of the table holds.
pub proof fn lemma_exited_never_selected(m: SchedModel, t: int)
    requires
        m.wf(),
        0 <= t < m.app_num,
        m.tasks[t].status == TaskStatus::Exit,
    ensures
        m.next_task() != t,
{
    lemma_next_task_spec(m);
}

/// `Exit` is terminal: no scheduler operation — suspending the running
/// task, exiting it, dispatching another slot, or counting a syscall —
/// ever changes an exited slot's status.  Together with
/// [`lemma_exited_never_selected`] this shows an exited task is skipped by
/// every subsequent scheduling call.
pub proof fn lemma_exited_stays_exited(m: SchedModel, t: int, context: int, u: int, now: int, id: int)
    requires
        m.wf(),
        0 <= t < m.app_num,
        m.tasks[t].status == TaskStatus::Exit,
        0 <= u < m.app_num,
        u != t,
    ensures
        t != m.cur ==> m.suspend_current(context).tasks[t].status == TaskStatus::Exit,
        m.exit_current().tasks[t].status == TaskStatus::Exit,
        m.dispatch_to(u, now).tasks[t].status == TaskStatus::Exit,
        m.bump_count(id).tasks[t].status == TaskStatus::Exit,
{
}

/// The rotation law behind fair round-robin: if every populated slot other
/// than the current one is ready, then after the current task is suspended
/// (which marks it ready again and advances the cursor one slot) the scan
/// selects exactly the cyclic successor of the suspended slot.  Iterating
/// this gives the dispatch order of repeated `yield`s: the cyclic sequence
/// of slot ids, starting one past the previous current, repeating
/// indefinitely.
pub proof fn lemma_round_robin_rotation(m: SchedModel, context: int)
    requires
        m.wf(),
        forall|i: int| 0 <= i < m.app_num && i != m.cur ==> m.ready(i),
    ensures
        m.suspend_current(context).next_task() == (m.cur + 1) % m.app_num,
{
    let s1 = m.suspend_current(context);
    vstd::arithmetic::div_mod::lemma_mod_division_less_than_divisor(m.cur + 1, m.app_num);
    assert(s1.wf());
    assert(s1.ready(s1.cur)) by {
        lemma_wrap_mod(m.cur + 1, m.app_num);
        if s1.cur != m.cur {
            assert(m.ready(s1.cur));
        }
    }
    lemma_next_task_spec(s1);
    let t = s1.next_task();
    assert(s1.offset_of(t) <= s1.offset_of(s1.cur));
    assert(s1.offset_of(s1.cur) == 0);
    assert(s1.slot_at(0) == s1.cur) by {
        lemma_wrap_mod(s1.cur + 0, s1.app_num);
    }
}

/// One whole yield step keeps the rotation going: suspending the current
/// task and dispatching the slot the scan selects leaves a well-formed
/// state whose current slot is the cyclic successor and in which, again,
/// every slot but the current one is ready.  By induction over
/// [`lemma_yield_step`], any number of consecutive yields dispatches the
/// cyclic sequence of slot ids, starting one past the first current slot,
/// repeating indefinitely.
pub proof fn lemma_yield_step(m: SchedModel, context: int, now: int)
    requires
        m.wf(),
        forall|i: int| 0 <= i < m.app_num && i != m.cur ==> m.ready(i),
    ensures
        ({
            let s1 = m.suspend_current(context);
            let s2 = s1.dispatch_to(s1.next_task(), now);
            &&& s2.wf()
            &&& s2.cur == (m.cur + 1) % m.app_num
            &&& forall|i: int| 0 <= i < s2.app_num && i != s2.cur ==> s2.ready(i)
        }),
{
    lemma_round_robin_rotation(m, context);
    let s1 = m.suspend_current(context);
    let s2 = s1.dispatch_to(s1.next_task(), now);
    vstd::arithmetic::div_mod::lemma_mod_division_less_than_divisor(m.cur + 1, m.app_num);
    assert forall|i: int| 0 <= i < s2.app_num && i != s2.cur implies s2.ready(i) by {
        if i != m.cur {
            assert(m.ready(i));
        }
    }
}

/// The wrap-around law: when exactly one populated slot is ready, the scan
/// wraps fully around the table and selects that slot — in particular a
/// sole remaining task that yields is rescheduled to itself every time.
pub proof fn lemma_sole_ready_selected(m: SchedModel, t: int)
    requires
        m.wf(),
        0 <= t < m.app_num,
        m.ready(t),
        forall|u: int| 0 <= u < m.app_num && u != t ==> !m.ready(u),
    ensures
        m.next_task() == t,
{
    lemma_next_task_spec(m);
}

/// A scheduling decision: resume the task in slot `task_id` by handing
/// `context` to the register-restore primitive.
#[derive(PartialEq, Eq, Structural, Clone, Copy, Debug)]
pub struct Dispatch {
    pub task_id: usize,
    pub context: usize,
}

/// A condition the kernel cannot recover from.  The machine glue must print
/// a diagnostic naming the cause and halt; none of these is ever returned to
/// a user task as an error value.
#[derive(PartialEq, Eq, Structural, Clone, Copy, Debug)]
pub enum KernelError {
    /// No populated slot is ready: every application has finished.
    AllApplicationsFinished,
    /// A `write` syscall named a file descriptor other than stdout.
    UnsupportedFd,
    /// A syscall identifier outside the dispatch table (the carried value).
    UnsupportedSyscall(usize),
    /// A trap cause this kernel does not service.
    UnsupportedTrap,
}

/// The task scheduler: the fixed task table, the populated prefix length,
/// and the round-robin cursor.
pub struct TaskManager {
    pub app_num: usize,
    pub cur_app: usize,
    pub apps: Vec<TaskContext>,
}

impl View for TaskManager {
    type V = SchedModel;

    open spec fn view(&self) -> SchedModel {
        SchedModel {
            app_num: self.app_num as int,
            cur: self.cur_app as int,
            tasks: self.apps@.map_values(|t: TaskContext| t@),
        }
    }
}

/// A full-length counter table, all zeros.
fn zero_counts() -> (r: Vec<u32>)
    ensures
        r@.len() == MAX_SYSCALL_NUM as int,
        all_zero(r@),
{
    let mut r: Vec<u32> = Vec::new();
    let mut i: usize = 0;
    while i < MAX_SYSCALL_NUM
        invariant
            i <= MAX_SYSCALL_NUM,
            r@.len() == i as int,
            all_zero(r@),
        decreases MAX_SYSCALL_NUM - i,
    {
        r.push(0);
        i += 1;
    }
    r
}

/// An element-for-element copy of a counter table.
fn copy_counts(v: &Vec<u32>) -> (r: Vec<u32>)
    ensures
        r@ == v@,
{
    let mut r: Vec<u32> = Vec::new();
    let mut i: usize = 0;
    while i < v.len()
        invariant
            i <= v.len(),
            r@ == v@.subrange(0, i as int),
        decreases v.len() - i,
    {
        r.push(v[i]);
        i += 1;
    }
    proof {
        assert(r@ =~= v@);
    }
    r
}

/// Builds the scheduler from the loader's outputs: the number of loaded
/// applications and, per populated slot, the handle of the ready-to-run
/// initial context the loader prepared.  Every slot starts uninitialized
/// with zeroed counters and the cursor at slot 0.  The lazily-initialized
/// global of a running kernel becomes this explicit constructed value.
pub fn get_task_manager(app_num: usize, contexts: &Vec<usize>) -> (tm: TaskManager)
    requires
        0 < app_num <= MAX_APP_NUM,
        contexts@.len() == app_num as int,
    ensures
        tm.wf(),
        tm@.app_num == app_num as int,
        tm@.cur == 0,
        forall|i: int|
            0 <= i < MAX_APP_NUM as int ==> {
                &&& (#[trigger] tm@.tasks[i]).time == 0
                &&& tm@.tasks[i].status == TaskStatus::UInited
                &&& all_zero(tm@.tasks[i].counts)
                &&& (i < app_num as int ==> tm@.tasks[i].context == contexts@[i] as int)
            },
{
    let mut apps: Vec<TaskContext> = Vec::new();
    let mut i: usize = 0;
    while i < MAX_APP_NUM
        invariant
            i <= MAX_APP_NUM,
            0 < app_num <= MAX_APP_NUM,
            contexts@.len() == app_num as int,
            apps@.len() == i as int,
            forall|k: int|
                0 <= k < i as int ==> {
                    &&& (#[trigger] apps@[k])@.id == k
                    &&& apps@[k]@.time == 0
                    &&& apps@[k]@.status == TaskStatus::UInited
                    &&& apps@[k]@.counts.len() == MAX_SYSCALL_NUM as int
                    &&& all_zero(apps@[k]@.counts)
                    &&& (k < app_num as int ==> apps@[k]@.context == contexts@[k] as int)
                },
        decreases MAX_APP_NUM - i,
    {
        let context: usize = if i < app_num {
            contexts[i]
        } else {
            0
        };
        apps.push(
            TaskContext {
                id: i,
                context,
                time: 0,
                status: TaskStatus::UInited,
                syscall_times: zero_counts(),
            },
        );
        i += 1;
    }
    TaskManager { app_num, cur_app: 0, apps }
}

impl TaskManager {
    /// The scheduler state is well formed (see [`SchedModel::wf`]).
    pub open spec fn wf(self) -> bool {
        self@.wf()
    }

    /// Number of populated slots.
    pub fn get_app_nums(&self) -> (r: usize)
        ensures
            r as int == self@.app_num,
    {
        self.app_num
    }

    /// Slot index currently marked `Running` (or most recently dispatched).
    pub fn get_cur_app_id(&self) -> (r: usize)
        ensures
            r as int == self@.cur,
    {
        self.cur_app
    }

    /// Run state of the current task.
    pub fn get_task_status(&self) -> (r: TaskStatus)
        requires
            self.wf(),
        ensures
            r == self@.tasks[self@.cur].status,
    {
        self.apps[self.cur_app].status
    }

    /// Microseconds the current task has been running: the clock reading
    /// `now_us`, sampled by the caller, minus the task's first-dispatch
    /// timestamp.
    pub fn get_task_time(&self, now_us: usize) -> (r: usize)
        requires
            self.wf(),
            now_us as int >= self@.tasks[self@.cur].time,
        ensures
            r as int == now_us as int - self@.tasks[self@.cur].time,
    {
        now_us - self.apps[self.cur_app].time
    }

    /// Replaces the record in slot `i`, leaving every other slot and the
    /// scalar fields alone.
    fn set_task(&mut self, i: usize, tc: TaskContext)
        requires
            i < old(self).apps@.len(),
        ensures
            final(self).app_num == old(self).app_num,
            final(self).cur_app == old(self).cur_app,
            final(self).apps@.len() == old(self).apps@.len(),
            final(self)@.tasks == old(self)@.tasks.update(i as int, tc@),
    {
        self.apps.set(i, tc);
        proof {
            assert(self@.tasks =~= old(self)@.tasks.update(i as int, self.apps@[i as int]@));
        }
    }

    /// Transitions every populated slot from `UInited` to `Ready`.  Must run
    /// before any scheduling decision; first-dispatch timestamps stay zero
    /// until each task actually runs.
    pub fn init(&mut self)
        requires
            old(self).wf(),
        ensures
            final(self).wf(),
            final(self)@.app_num == old(self)@.app_num,
            final(self)@.cur == old(self)@.cur,
            final(self)@.tasks.len() == old(self)@.tasks.len(),
            forall|i: int|
                0 <= i < old(self)@.app_num ==> final(self)@.tasks[i] == (TaskModel {
                    status: TaskStatus::Ready,
                    ..old(self)@.tasks[i]
                }),
            forall|i: int|
                old(self)@.app_num <= i < old(self)@.tasks.len() ==> final(self)@.tasks[i]
                    == old(self)@.tasks[i],
    {
        let mut id: usize = 0;
        while id < self.app_num
            invariant
                old(self).wf(),
                id <= self.app_num,
                self.app_num == old(self).app_num,
                self.cur_app == old(self).cur_app,
                self.apps@.len() == old(self).apps@.len(),
                forall|i: int|
                    0 <= i < id as int ==> self@.tasks[i] == (TaskModel {
                        status: TaskStatus::Ready,
                        ..old(self)@.tasks[i]
                    }),
                forall|i: int|
                    id as int <= i < self@.tasks.len() ==> self@.tasks[i] == old(self)@.tasks[i],
            decreases self.app_num - id,
        {
            let counts = copy_counts(&self.apps[id].syscall_times);
            let tc = TaskContext {
                id: self.apps[id].id,
                context: self.apps[id].context,
                time: self.apps[id].time,
                status: TaskStatus::Ready,
                syscall_times: counts,
            };
            self.set_task(id, tc);
            id += 1;
        }
    }

    /// Bumps the current task's counter for syscall `syscall_id`; no other
    /// part of the state moves.  An identifier at or beyond the configured
    /// maximum is a configuration violation, excluded by precondition.
    pub fn syscall_count(&mut self, syscall_id: usize)
        requires
            old(self).wf(),
            syscall_id < MAX_SYSCALL_NUM,
            old(self)@.tasks[old(self)@.cur].counts[syscall_id as int] < u32::MAX,
        ensures
            final(self).wf(),
            final(self)@ == old(self)@.bump_count(syscall_id as int),
            final(self)@.tasks[old(self)@.cur].counts[syscall_id as int]
                == old(self)@.tasks[old(self)@.cur].counts[syscall_id as int] + 1,
            forall|j: int|
                0 <= j < MAX_SYSCALL_NUM as int && j != syscall_id as int
                    ==> final(self)@.tasks[old(self)@.cur].counts[j]
                    == old(self)@.tasks[old(self)@.cur].counts[j],
            forall|i: int|
                0 <= i < old(self)@.tasks.len() && i != old(self)@.cur ==> final(self)@.tasks[i]
                    == old(self)@.tasks[i],
    {
        let cur = self.cur_app;
        let mut counts = copy_counts(&self.apps[cur].syscall_times);
        let bumped = counts[syscall_id] + 1;
        counts.set(syscall_id, bumped);
        let tc = TaskContext {
            id: self.apps[cur].id,
            context: self.apps[cur].context,
            time: self.apps[cur].time,
            status: self.apps[cur].status,
            syscall_times: counts,
        };
        self.set_task(cur, tc);
        proof {
            assert(self@ =~= old(self)@.bump_count(syscall_id as int));
        }
    }

    /// The saved-context handle to hand to the register-restore primitive in
    /// order to resume the task in slot `id`.  A slot outside the populated
    /// prefix is a configuration violation, excluded by precondition.
    pub fn run_app_by_id(&self, id: usize) -> (r: usize)
        requires
            self.wf(),
            (id as int) < self@.app_num,
        ensures
            r as int == self@.tasks[id as int].context,
    {
        self.apps[id].context
    }

    /// The round-robin selection and dispatch: scanning circularly from the
    /// cursor, the first ready slot becomes `Running` (timestamped on its
    /// first dispatch with `now_us`) and the cursor moves to it; the returned
    /// decision names the slot and its saved-context handle.  When no
    /// populated slot is ready, every application has finished: the state is
    /// left untouched and the fatal condition is reported for the machine
    /// glue to halt on.
    pub fn run_next_app(&mut self, now_us: usize) -> (r: Result<Dispatch, KernelError>)
        requires
            old(self).wf(),
            old(self)@.tasks[old(self)@.cur].status != TaskStatus::Running,
        ensures
            final(self).wf(),
            old(self)@.has_ready() ==> ({
                let t = old(self)@.next_task();
                r matches Ok(d) && d.task_id as int == t && d.context as int
                    == old(self)@.tasks[t].context && final(self)@ == old(self)@.dispatch_to(
                    t,
                    now_us as int,
                )
            }),
            !old(self)@.has_ready() ==> r == Err::<Dispatch, KernelError>(
                KernelError::AllApplicationsFinished,
            ) && final(self)@ == old(self)@,
    {
        let n = self.app_num;
        let start = self.cur_app;
        let mut i: usize = 0;
        while i < n && self.apps[(start + i) % n].status != TaskStatus::Ready
            invariant
                *self == *old(self),
                self.wf(),
                n == self.app_num,
                start == self.cur_app,
                i <= n,
                forall|k: int| 0 <= k < i as int ==> !self@.ready(self@.slot_at(k)),
            decreases n - i,
        {
            i += 1;
        }
        if i == n {
            proof {
                lemma_scan_char(self@, 0);
                assert forall|u: int| 0 <= u < self@.app_num implies !self@.ready(u) by {
                    lemma_offset_slot(self@, u);
                }
            }
            return Err(KernelError::AllApplicationsFinished);
        }
        let t = (start + i) % n;
        proof {
            lemma_scan_char(self@, 0);
            lemma_slot_offset(self@, i as int);
            assert(self@.has_ready());
            let nt = self@.next_task();
            assert(nt != -1);
            assert(self@.offset_of(nt) == i as int) by {
                if self@.offset_of(nt) < i as int {
                    assert(!self@.ready(self@.slot_at(self@.offset_of(nt))));
                    lemma_offset_slot(self@, nt);
                } else if self@.offset_of(nt) > i as int {
                    assert(!self@.ready(self@.slot_at(i as int)));
                }
            }
            lemma_offset_slot(self@, nt);
            assert(nt == t as int);
        }
        let counts = copy_counts(&self.apps[t].syscall_times);
        let stamped = if self.apps[t].time == 0 {
            now_us
        } else {
            self.apps[t].time
        };
        let tc = TaskContext {
            id: self.apps[t].id,
            context: self.apps[t].context,
            time: stamped,
            status: TaskStatus::Running,
            syscall_times: counts,
        };
        let d = Dispatch { task_id: t, context: self.apps[t].context };
        self.set_task(t, tc);
        self.cur_app = t;
        proof {
            assert(self@ =~= old(self)@.dispatch_to(t as int, now_us as int));
        }
        Ok(d)
    }

    /// Preemption: the current task goes back to `Ready`, its saved-context
    /// handle is stored, the cursor advances one slot past it, and selection
    /// and dispatch run.  Because the suspended task itself is ready again,
    /// a ready slot always exists and a decision is always returned.
    pub fn suspend_and_run_next_app(&mut self, context: usize, now_us: usize) -> (d: Dispatch)
        requires
            old(self).wf(),
        ensures
            final(self).wf(),
            ({
                let s1 = old(self)@.suspend_current(context as int);
                d.task_id as int == s1.next_task() && d.context as int
                    == s1.tasks[s1.next_task()].context && final(self)@ == s1.dispatch_to(
                    s1.next_task(),
                    now_us as int,
                )
            }),
    {
        let index = self.cur_app;
        let counts = copy_counts(&self.apps[index].syscall_times);
        let tc = TaskContext {
            id: self.apps[index].id,
            context,
            time: self.apps[index].time,
            status: TaskStatus::Ready,
            syscall_times: counts,
        };
        self.set_task(index, tc);
        self.cur_app = (index + 1) % self.app_num;
        proof {
            vstd::arithmetic::div_mod::lemma_mod_division_less_than_divisor(
                index as int + 1,
                self.app_num as int,
            );
            assert(self@ =~= old(self)@.suspend_current(context as int));
            assert(self@.ready(index as int));
        }
        match self.run_next_app(now_us) {
            Ok(d) => d,
            Err(_) => vstd::pervasive::unreached(),
        }
    }

    /// Cooperative exit or fault isolation: the current task becomes `Exit`
    /// — terminal, never rescheduled — and selection and dispatch run.  When
    /// it was the last ready task, the fatal all-finished condition is
    /// reported with the exit already recorded.
    pub fn exit_and_run_next_app(&mut self, now_us: usize) -> (r: Result<Dispatch, KernelError>)
        requires
            old(self).wf(),
        ensures
            final(self).wf(),
            ({
                let s1 = old(self)@.exit_current();
                &&& s1.has_ready() ==> (r matches Ok(d) && d.task_id as int == s1.next_task()
                    && d.context as int == s1.tasks[s1.next_task()].context && final(self)@
                    == s1.dispatch_to(s1.next_task(), now_us as int))
                &&& !s1.has_ready() ==> r == Err::<Dispatch, KernelError>(
                    KernelError::AllApplicationsFinished,
                ) && final(self)@ == s1
            }),
    {
        let index = self.cur_app;
        let counts = copy_counts(&self.apps[index].syscall_times);
        let tc = TaskContext {
            id: self.apps[index].id,
            context: self.apps[index].context,
            time: self.apps[index].time,
            status: TaskStatus::Exit,
            syscall_times: counts,
        };
        self.set_task(index, tc);
        proof {
            assert(self@ =~= old(self)@.exit_current());
        }
        self.run_next_app(now_us)
    }

    /// Replaces `data` with a copy of the current task's syscall counters,
    /// a table of the fixed per-task counter length.
    pub fn get_syscall_count(&self, data: &mut Vec<u32>)
        requires
            self.wf(),
        ensures
            final(data)@ == self@.tasks[self@.cur].counts,
    {
        let src = &self.apps[self.cur_app].syscall_times;
        let copy = copy_counts(src);
        *data = copy;
    }
}

} // verus!
