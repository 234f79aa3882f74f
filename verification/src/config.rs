//! Build-time configuration constants: the capacity of the task table and the
//! number of syscall identifiers for which per-task counters are kept.

use vstd::prelude::*;

verus! {

/// Capacity of the task table.  Only the first `app_num` slots of a
/// [`crate::task::TaskManager`] are populated; the rest stay uninitialized.
pub const MAX_APP_NUM: usize = 16;

/// One counter per syscall identifier is kept for each task; identifiers at or
/// above this bound are configuration violations and are never counted.
pub const MAX_SYSCALL_NUM: usize = 500;

} // verus!
