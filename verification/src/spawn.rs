//! The service-spawn collaborator's bookkeeping: the socket descriptor a
//! service inherits, the watchdog setting, and the execution parameters the
//! last spawn was given.  Forking and executing belong to the excluded
//! process supervisor.

use vstd::prelude::*;

verus! {

/// Relies on nix::unistd::close: closes the file descriptor; a close
/// failure is deliberately ignored.
#[verifier::external_body]
fn close_fd(fd: i32) {
    let _ = nix::unistd::close(fd);
}

/// The parameters one spawn was given, as far as the core records them.
#[derive(Debug)]
pub struct ExecParameters {
    /// Environment entries handed to the child.
    pub env: Vec<(String, String)>,
    /// File descriptors passed along.
    pub fds: Vec<i32>,
    /// The watchdog interval, in microseconds.
    pub watchdog_usec: u64,
    /// The runtime directories prepared for the child.
    pub runtime_directory: Option<Vec<String>>,
}

impl ExecParameters {
    /// Fresh parameters with nothing set.
    pub fn new() -> (r: ExecParameters)
        ensures
            r.env@.len() == 0,
            r.fds@.len() == 0,
            r.watchdog_usec == 0,
            r.runtime_directory is None,
    {
        ExecParameters { env: Vec::new(), fds: Vec::new(), watchdog_usec: 0, runtime_directory: None }
    }

    /// The runtime directories prepared for the child.
    pub fn get_runtime_directory(&self) -> (r: Option<Vec<String>>)
        ensures
            match (&self.runtime_directory, &r) {
                (Some(d), Some(c)) => c.deep_view() == d.deep_view(),
                (None, None) => true,
                _ => false,
            },
    {
        match &self.runtime_directory {
            Some(d) => Some(crate::records::clone_strings(d)),
            None => None,
        }
    }
}

/// The spawn bookkeeping of one service unit.
#[derive(Debug)]
pub struct ServiceSpawn {
    /// The one socket descriptor handed over directly, or -1.
    pub socket_fd: i32,
    /// The configured watchdog interval, in seconds.
    pub watchdog_sec: u64,
    /// What the last spawn was given, once one ran.
    pub exec_params: Option<ExecParameters>,
}

impl ServiceSpawn {
    /// Fresh bookkeeping: no descriptor, nothing spawned yet.
    pub fn new(watchdog_sec: u64) -> (r: ServiceSpawn)
        ensures
            r.socket_fd == -1,
            r.watchdog_sec == watchdog_sec,
            r.exec_params is None,
    {
        ServiceSpawn { socket_fd: -1, watchdog_sec, exec_params: None }
    }

    /// The runtime directories of the last spawn, if one ran.
    pub fn get_runtime_directory(&self) -> (r: Option<Vec<String>>)
        ensures
            self.exec_params is None ==> r is None,
            self.exec_params matches Some(p) ==> (match (&p.runtime_directory, &r) {
                (Some(d), Some(c)) => c.deep_view() == d.deep_view(),
                (None, None) => true,
                _ => false,
            }),
    {
        match &self.exec_params {
            None => None,
            Some(p) => p.get_runtime_directory(),
        }
    }

    /// The descriptors to pass: the direct one alone when it is set, else
    /// whatever the manager collected from the unit's sockets.
    pub fn collect_socket_fds(&self, manager_fds: Vec<i32>) -> (r: Vec<i32>)
        ensures
            self.socket_fd >= 0 ==> r@.len() == 1 && r@[0] == self.socket_fd,
            self.socket_fd < 0 ==> r@ == manager_fds@,
    {
        if self.socket_fd >= 0 {
            let mut r: Vec<i32> = Vec::new();
            r.push(self.socket_fd);
            r
        } else {
            manager_fds
        }
    }

    /// The configured watchdog interval.
    pub fn watchdog_timer(&self) -> (r: u64)
        ensures
            r == self.watchdog_sec,
    {
        self.watchdog_sec
    }

    /// Record the direct socket descriptor.
    pub fn set_socket_fd(&mut self, fd: i32)
        ensures
            *final(self) == (ServiceSpawn { socket_fd: fd, ..*old(self) }),
    {
        self.socket_fd = fd;
    }

    /// The direct socket descriptor, or -1.
    pub fn get_socket_fd(&self) -> (r: i32)
        ensures
            r == self.socket_fd,
    {
        self.socket_fd
    }

    /// Close the descriptor and forget it.
    pub fn release_socket_fd(&mut self, fd: i32)
        ensures
            *final(self) == (ServiceSpawn { socket_fd: -1i32, ..*old(self) }),
    {
        close_fd(fd);
        self.socket_fd = -1;
    }
}

} // verus!
