//! Control flow that `before_*` lifecycle hooks return.

use vstd::prelude::*;

verus! {

/// Whether the operation a hook guards may go on.
#[derive(Debug, Clone, Copy, PartialEq, Eq)]
pub enum HookControl {
    Continue,
    Cancel,
}

impl HookControl {
    pub fn is_cancelled(self) -> (b: bool)
        ensures
            b == (self == HookControl::Cancel),
    {
        match self {
            HookControl::Cancel => true,
            HookControl::Continue => false,
        }
    }
}

} // verus!
