//! The flag of the process: set while the panel runs, cleared once when it
//! is to stop. The UI thread clears it and the bus endpoint polls it.
//!
//! Here the flag is a value with its two states; whoever shares it between
//! threads puts it behind a lock of its own.

use vstd::prelude::*;

verus! {

/// A flag for a process that has just started: set.
pub fn new_flag() -> (flag: ActiveFlag)
    ensures
        flag@,
{
    ActiveFlag { active: true }
}

/// Whether the flag is still set: true from the start of the process until
/// the flag is cleared, false from then on. The bus endpoint goes on while
/// this holds.
pub fn is_active(flag: &ActiveFlag) -> (active: bool)
    ensures
        active == flag@,
{
    flag.active
}

/// Clears the flag: the panel is to stop. A flag that is cleared stays
/// cleared, since nothing sets it again.
pub fn set_stopped(flag: &mut ActiveFlag)
    ensures
        !final(flag)@,
{
    flag.active = false;
}

/// The flag of the process.
#[derive(Debug)]
pub struct ActiveFlag {
    active: bool,
}

impl View for ActiveFlag {
    type V = bool;

    /// Whether the flag is set.
    closed spec fn view(&self) -> bool {
        self.active
    }
}

} // verus!
