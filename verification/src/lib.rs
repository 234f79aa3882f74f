//! Core of a minimal single-CPU multi-tasking kernel: a fixed table of task
//! records driven round-robin, a syscall dispatcher, and a trap router.
//!
//! The library is the decision-making half of the kernel.  Everything that
//! touches hardware — reading the clock or the trap cause registers, writing
//! bytes to the console, and the register-restore primitive that actually
//! resumes a task — lives outside; the functions here take those inputs as
//! plain values (a microsecond timestamp, a classified trap cause, a saved
//! register block) and return the action the machine glue must perform.

pub mod config;
pub mod syscall;
pub mod task;
pub mod trap;
