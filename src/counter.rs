//! The counter's state and its four operations.

use vstd::prelude::*;
use crate::log_lines::{
    added_line, added_message, changed_line, changed_message, overflow_warning,
    overflow_warning_message, reset_line, reset_message,
};

verus! {

/// How much `add` raises the counter by.
pub const ADD_AMOUNT: i32 = 1000;

/// How much `change` lowers the counter by.
pub const CHANGE_AMOUNT: i32 = 10;

/// The contract's state: the current value of the counter.
///
/// The counter never wraps: `add` and `change` ask their callers to keep the
/// result within `i32`, and a host that cannot must fail the invocation.
pub struct Change {
    pub val: i32,
}

impl Change {
    /// The state after one `add`.
    pub open spec fn added(self) -> Change {
        Change { val: (self.val + ADD_AMOUNT) as i32 }
    }

    /// The state after one `change`.
    pub open spec fn changed(self) -> Change {
        Change { val: (self.val - CHANGE_AMOUNT) as i32 }
    }

    /// The state after one `reset`.
    pub open spec fn cleared(self) -> Change {
        Change { val: 0 }
    }

    /// Returns the current value.
    pub fn get_num(&self) -> (r: i32)
        ensures
            r == self.val,
    {
        self.val
    }

    /// Raises the counter by `ADD_AMOUNT` and returns the lines to log: the
    /// new value, then the overflow warning.
    pub fn add(&mut self) -> (logs: Vec<String>)
        requires
            old(self).val + ADD_AMOUNT <= i32::MAX,
        ensures
            *final(self) == old(self).added(),
            final(self).val == old(self).val + ADD_AMOUNT,
            logs@.len() == 2,
            logs@[0]@ == added_line(final(self).val as int),
            logs@[1]@ == overflow_warning(),
    {
        self.val = self.val + ADD_AMOUNT;
        let mut logs: Vec<String> = Vec::new();
        logs.push(added_message(self.val));
        logs.push(overflow_warning_message());
        logs
    }

    /// Lowers the counter by `CHANGE_AMOUNT` and returns the lines to log: the
    /// new value, then the overflow warning.
    pub fn change(&mut self) -> (logs: Vec<String>)
        requires
            old(self).val - CHANGE_AMOUNT >= i32::MIN,
        ensures
            *final(self) == old(self).changed(),
            final(self).val == old(self).val - CHANGE_AMOUNT,
            logs@.len() == 2,
            logs@[0]@ == changed_line(final(self).val as int),
            logs@[1]@ == overflow_warning(),
    {
        self.val = self.val - CHANGE_AMOUNT;
        let mut logs: Vec<String> = Vec::new();
        logs.push(changed_message(self.val));
        logs.push(overflow_warning_message());
        logs
    }

    /// Sets the counter to zero and returns the one line to log.
    pub fn reset(&mut self) -> (logs: Vec<String>)
        ensures
            *final(self) == old(self).cleared(),
            final(self).val == 0,
            logs@.len() == 1,
            logs@[0]@ == reset_line(),
    {
        self.val = 0;
        let mut logs: Vec<String> = Vec::new();
        logs.push(reset_message());
        logs
    }
}

impl Default for Change {
    /// A freshly deployed counter starts at zero.
    fn default() -> (r: Change)
        ensures
            r.val == 0,
    {
        Change { val: 0 }
    }
}

/// Clearing is idempotent: clearing a counter twice leaves the same state as
/// clearing it once, a value of zero.
pub proof fn reset_idempotent(c: Change)
    ensures
        c.cleared().cleared() == c.cleared(),
        c.cleared().cleared().val == 0,
{
}

} // verus!
