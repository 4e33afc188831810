//! The process manager: the one registry through which every child process
//! is created, so that teardown reaches them all.
//!
//! Spawning and signalling OS processes happens outside the library; the
//! registry's bookkeeping — every spawn tracked, nothing removed before
//! teardown, a stop of an already-stopped child a no-op, teardown stopping
//! everything — is verified here.

use vstd::prelude::*;
use crate::config::GlobalConfig;

verus! {

/// One tracked child process.
pub struct ManagedProcess {
    /// The logical daemon name it was spawned under.
    pub name: Vec<u8>,
    /// Whether the child is still believed to be running. Stopping an
    /// already-exited child is a no-op, not an error.
    pub running: bool,
    /// Whether the child is killed when its manager is torn down.
    pub kill_on_drop: bool,
}

/// Owns the global configuration and the registry of every spawned child.
/// Entries are only ever appended, and only teardown stops them all.
pub struct ProcessManager {
    pub globals: GlobalConfig,
    pub procs: Vec<ManagedProcess>,
}

/// Every tracked child has observed its termination signal.
pub open spec fn all_stopped(procs: Seq<ManagedProcess>) -> bool {
    forall|i: int| 0 <= i < procs.len() ==> !(#[trigger] procs[i]).running
}

impl ProcessManager {
    /// A fresh manager: it owns the configuration and tracks nothing yet.
    pub fn new(globals: GlobalConfig) -> (m: ProcessManager)
        ensures
            m.globals == globals,
            m.procs@.len() == 0,
    {
        ProcessManager { globals, procs: Vec::new() }
    }

    /// Registers one spawned child and returns its handle. The registry only
    /// grows: nothing already tracked is touched.
    pub fn register(&mut self, name: Vec<u8>, kill_on_drop: bool) -> (handle: usize)
        ensures
            handle == old(self).procs@.len(),
            final(self).procs@.len() == old(self).procs@.len() + 1,
            final(self).procs@ == old(self).procs@.push(
                ManagedProcess { name, running: true, kill_on_drop },
            ),
            final(self).globals == old(self).globals,
    {
        let handle = self.procs.len();
        self.procs.push(ManagedProcess { name, running: true, kill_on_drop });
        handle
    }

    /// How many children are tracked.
    pub fn process_count(&self) -> (n: usize)
        ensures
            n == self.procs@.len(),
    {
        self.procs.len()
    }

    /// Whether the child behind `handle` is still running.
    pub fn is_running(&self, handle: usize) -> (r: bool)
        requires
            handle < self.procs@.len(),
        ensures
            r == self.procs@[handle as int].running,
    {
        self.procs[handle].running
    }

    /// Records that the child behind `handle` was sent its termination
    /// signal, or that stopping it was requested again: a double stop is a
    /// no-op. No other entry changes, and the entry itself stays tracked.
    pub fn stop(&mut self, handle: usize)
        requires
            handle < old(self).procs@.len(),
        ensures
            final(self).procs@.len() == old(self).procs@.len(),
            !final(self).procs@[handle as int].running,
            final(self).procs@[handle as int].name == old(self).procs@[handle as int].name,
            final(self).procs@[handle as int].kill_on_drop == old(self).procs@[
                handle as int
            ].kill_on_drop,
            forall|i: int| 0 <= i < old(self).procs@.len() && i != handle ==> final(self).procs@[i]
                == old(self).procs@[i],
            final(self).globals == old(self).globals,
    {
        if self.procs[handle].running {
            let mut p = self.procs.remove(handle);
            p.running = false;
            self.procs.insert(handle, p);
            assert(self.procs@ =~= old(self).procs@.update(
                handle as int,
                ManagedProcess {
                    name: old(self).procs@[handle as int].name,
                    running: false,
                    kill_on_drop: old(self).procs@[handle as int].kill_on_drop,
                },
            ));
        }
    }

    /// Tears the whole registry down: every still-running child receives its
    /// termination signal, every entry ends stopped, and none is lost.
    pub fn teardown(&mut self)
        ensures
            final(self).procs@.len() == old(self).procs@.len(),
            all_stopped(final(self).procs@),
            forall|i: int| 0 <= i < old(self).procs@.len() ==> final(self).procs@[i].name == old(
                self,
            ).procs@[i].name,
            forall|i: int| 0 <= i < old(self).procs@.len() ==> final(self).procs@[i].kill_on_drop
                == old(self).procs@[i].kill_on_drop,
            final(self).globals == old(self).globals,
    {
        let n = self.procs.len();
        let mut i: usize = 0;
        while i < n
            invariant
                n == self.procs@.len(),
                i <= n,
                self.procs@.len() == old(self).procs@.len(),
                forall|j: int| 0 <= j < i ==> !(#[trigger] self.procs@[j]).running,
                forall|j: int| 0 <= j < n ==> self.procs@[j].name == old(self).procs@[j].name,
                forall|j: int| 0 <= j < n ==> self.procs@[j].kill_on_drop == old(self).procs@[
                    j
                ].kill_on_drop,
                self.globals == old(self).globals,
            decreases n - i,
        {
            self.stop(i);
            i += 1;
        }
    }
}

} // verus!
