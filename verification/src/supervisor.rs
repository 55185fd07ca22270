//! The restart policy round the dispatch loop, and the relay set that the loop needs.

use vstd::prelude::*;
use crate::text::texts_of;

verus! {

/// The seconds to wait before the dispatch loop is started again after a failure.
pub const RESTART_BACKOFF_SECS: u64 = 2;

/// How a run of the dispatch loop ended.
#[derive(Debug, Clone, Copy, PartialEq, Eq, Structural)]
pub enum LoopExit {
    /// The loop returned without an error.
    Ended,
    /// An error escaped the loop.
    Failed,
}

/// What the supervisor does when the loop has ended. It never gives up.
#[derive(Debug, Clone, Copy, PartialEq, Eq, Structural)]
pub enum Supervision {
    /// Start the loop again at once.
    RestartNow,
    /// Wait, then start the loop again.
    RestartAfter { seconds: u64 },
}

/// What follows an exit of the loop: after a failure the fixed backoff and then a
/// restart, else a restart at once. How often the loop has failed before plays no
/// part.
pub open spec fn supervision_after(exit: LoopExit) -> Supervision {
    match exit {
        LoopExit::Ended => Supervision::RestartNow,
        LoopExit::Failed => Supervision::RestartAfter { seconds: RESTART_BACKOFF_SECS },
    }
}

/// What the supervisor does after an exit of the loop.
pub fn after_exit(exit: LoopExit) -> (r: Supervision)
    ensures
        r == supervision_after(exit),
{
    match exit {
        LoopExit::Ended => Supervision::RestartNow,
        LoopExit::Failed => Supervision::RestartAfter { seconds: RESTART_BACKOFF_SECS },
    }
}

/// One relay and whether a connection to it stands.
#[derive(Debug, Clone, PartialEq, Eq)]
pub struct Relay {
    pub url: String,
    pub connected: bool,
}

/// The relays of this server, in the order in which they were added.
#[derive(Debug, Clone, PartialEq, Eq)]
pub struct RelaySet {
    pub relays: Vec<Relay>,
}

/// Startup cannot go on: no relay is connected.
#[derive(Debug, Clone, Copy, PartialEq, Eq, Structural)]
pub struct NoRelayConnected;

/// Whether one of the relays is connected.
pub open spec fn any_connected(relays: Seq<Relay>) -> bool {
    exists|i: int| 0 <= i < relays.len() && (#[trigger] relays[i]).connected
}

/// The addresses of the relays, in order.
pub open spec fn relay_urls(relays: Seq<Relay>) -> Seq<Seq<char>> {
    Seq::new(relays.len(), |i: int| relays[i].url@)
}

impl RelaySet {
    /// A set without relays.
    pub fn new() -> (r: Self)
        ensures
            r.relays@.len() == 0,
    {
        RelaySet { relays: Vec::new() }
    }

    /// Adds a relay behind the others, connected or not. A relay that could not be
    /// reached is kept: it does not stop the others.
    pub fn add(&mut self, url: String, connected: bool)
        ensures
            final(self).relays@.len() == old(self).relays@.len() + 1,
            final(self).relays@.last().url@ == url@,
            final(self).relays@.last().connected == connected,
            forall|i: int|
                0 <= i < old(self).relays@.len() ==> final(self).relays@[i] == old(self).relays@[i],
    {
        self.relays.push(Relay { url, connected });
    }

    /// Whether listening may begin: at least one relay is connected.
    pub fn can_listen(&self) -> (r: bool)
        ensures
            r == any_connected(self.relays@),
    {
        let mut i: usize = 0;
        while i < self.relays.len()
            invariant
                i <= self.relays.len(),
                forall|k: int| 0 <= k < i ==> !(#[trigger] self.relays@[k]).connected,
            decreases self.relays.len() - i,
        {
            if self.relays[i].connected {
                return true;
            }
            i = i + 1;
        }
        false
    }

    /// Startup goes on only where a relay is connected.
    pub fn ready(&self) -> (r: Result<(), NoRelayConnected>)
        ensures
            r is Ok <==> any_connected(self.relays@),
    {
        if self.can_listen() {
            Ok(())
        } else {
            Err(NoRelayConnected)
        }
    }

    /// The addresses of the relays, in the order in which they were added.
    pub fn urls(&self) -> (r: Vec<String>)
        ensures
            texts_of(r@) == relay_urls(self.relays@),
    {
        let mut out: Vec<String> = Vec::new();
        let mut i: usize = 0;
        while i < self.relays.len()
            invariant
                i <= self.relays.len(),
                out@.len() == i,
                forall|k: int| 0 <= k < i ==> (#[trigger] out@[k])@ == self.relays@[k].url@,
            decreases self.relays.len() - i,
        {
            out.push(self.relays[i].url.clone());
            i = i + 1;
        }
        assert(texts_of(out@) =~= relay_urls(self.relays@));
        out
    }
}

} // verus!
