//! The control-process bookkeeping of one socket unit: which pid runs its
//! control command, if any.  Watching and unwatching the pid is the
//! manager's concern; unwatching hands the pid back to the caller.

use vstd::prelude::*;

verus! {

/// The control-process record of one socket unit.
#[derive(Debug)]
pub struct SocketPid {
    /// The pid of the running control process, if one runs.
    pub control: Option<i32>,
}

impl SocketPid {
    /// Fresh bookkeeping: no control process.
    pub fn new() -> (r: SocketPid)
        ensures
            r.control is None,
    {
        SocketPid { control: None }
    }

    /// The control pid, if one is recorded.
    pub fn control(&self) -> (r: Option<i32>)
        ensures
            r == self.control,
    {
        self.control
    }

    /// Record the control pid.
    pub fn set_control(&mut self, pid: i32)
        ensures
            final(self).control == Some(pid),
    {
        self.control = Some(pid);
    }

    /// Forget the control pid.
    pub fn reset_control(&mut self)
        ensures
            final(self).control is None,
    {
        self.control = None;
    }

    /// Record a pid or forget the old one, as the caller learned it.
    pub fn update_control(&mut self, pid: Option<i32>)
        ensures
            final(self).control == pid,
    {
        match pid {
            Some(id) => self.set_control(id),
            None => self.reset_control(),
        }
    }

    /// Stop watching the control process: the recorded pid is handed back
    /// for the manager to unwatch, and forgotten here.
    pub fn unwatch_control(&mut self) -> (r: Option<i32>)
        ensures
            r == old(self).control,
            final(self).control is None,
    {
        let pid = self.control;
        self.reset_control();
        pid
    }
}

} // verus!
