use vstd::prelude::*;

use crate::event::Event;
use crate::sync::{
    batch_parses, cursor_after_outcome, extract_joined, opt_string_view, SyncEngine, SyncError,
    SyncOutcome,
};

verus! {

/// Where the outer loop stands.
#[derive(Clone, Copy, Debug)]
pub enum Phase {
    /// Ready to issue the next sync round.
    Idle,
    /// A sync round is in flight.
    Syncing,
    /// A batch is in hand; its handlers are to be issued.
    Dispatching,
    /// Unrecoverable failure: the loop is over.
    Stopped,
}

/// Drives the loop: sync, dispatch, sync again. It owns the engine — and
/// with it the cursor — and decides after each round whether to dispatch,
/// retry, or stop. Rounds are strictly sequential: a new one may start only
/// from `Idle`.
pub struct Orchestrator {
    engine: SyncEngine,
    phase: Phase,
}

impl Orchestrator {
    pub closed spec fn phase(&self) -> Phase {
        self.phase
    }

    pub closed spec fn cursor_view(&self) -> Option<Seq<char>> {
        self.engine.cursor_view()
    }

    /// The phase the loop is in, so a caller can check that a step is due
    /// before taking it.
    pub fn current_phase(&self) -> (p: Phase)
        ensures
            p == self.phase(),
    {
        self.phase
    }

    /// A fresh loop is idle and syncs "from now".
    pub fn new() -> (r: Orchestrator)
        ensures
            r.phase() is Idle,
            r.cursor_view() is None,
    {
        Orchestrator { engine: SyncEngine::new(), phase: Phase::Idle }
    }

    /// Starts one sync round, yielding the cursor the request must carry:
    /// exactly the stored one.
    pub fn begin_sync(&mut self) -> (c: Option<String>)
        requires
            old(self).phase() is Idle,
        ensures
            final(self).phase() is Syncing,
            final(self).cursor_view() == old(self).cursor_view(),
            opt_string_view(c) == old(self).cursor_view(),
    {
        self.phase = Phase::Syncing;
        self.engine.request_cursor()
    }

    /// Finishes one sync round. The engine absorbs the outcome (advancing
    /// the cursor only on a readable response), and the loop moves on: a
    /// parsed batch is to be dispatched; a transport or protocol failure
    /// returns the loop to idle, to retry with the cursor the engine kept;
    /// rejected credentials stop it for good.
    pub fn complete_sync(&mut self, outcome: SyncOutcome) -> (r: Result<Vec<Event>, SyncError>)
        requires
            old(self).phase() is Syncing,
        ensures
            final(self).cursor_view() == cursor_after_outcome(old(self).cursor_view(), outcome),
            outcome matches SyncOutcome::Response(resp) ==> {
                &&& (r is Ok <==> batch_parses(resp.rooms@))
                &&& (r matches Ok(events) ==> events@ == extract_joined(resp.rooms@))
                &&& (r matches Err(e) ==> e is Protocol)
            },
            outcome is TransportFailed ==> (r matches Err(e) && e is Transport),
            outcome is MalformedResponse ==> (r matches Err(e) && e is Protocol),
            outcome is AuthRejected ==> (r matches Err(e) && e is Auth),
            r is Ok ==> final(self).phase() is Dispatching,
            (r matches Err(e) && !(e is Auth)) ==> final(self).phase() is Idle,
            (r matches Err(e) && e is Auth) ==> final(self).phase() is Stopped,
    {
        let r = self.engine.absorb(outcome);
        match &r {
            Ok(_) => {
                self.phase = Phase::Dispatching;
            },
            Err(e) => {
                match e {
                    SyncError::Auth => {
                        self.phase = Phase::Stopped;
                    },
                    _ => {
                        self.phase = Phase::Idle;
                    },
                }
            },
        }
        r
    }

    /// Handlers need only be issued, never completed, before the next
    /// round: once the batch's handlers are spawned the loop is idle again,
    /// so slow handlers apply no backpressure to syncing.
    pub fn dispatch_issued(&mut self)
        requires
            old(self).phase() is Dispatching,
        ensures
            final(self).phase() is Idle,
            final(self).cursor_view() == old(self).cursor_view(),
    {
        self.phase = Phase::Idle;
    }
}

} // verus!
