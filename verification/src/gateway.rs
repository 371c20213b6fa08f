//! The request/response gateway: an explicit handle that registers the
//! single compute worker, serializes callers onto it, and answers with
//! typed errors instead of aborting on protocol misuse.

use vstd::prelude::*;

use crate::filter::spec_filter;
use crate::geometry::{ComputeRect, Point};
use crate::worker::{ComputeCommand, ComputeError, ComputeResponse, Worker, WorkerPhase};

verus! {

/// The gateway handle. Callers hold it instead of a process-wide
/// registry; it carries at most one worker, the single instance this
/// service supports.
pub struct Gateway {
    pub worker: Option<Worker>,
}

/// The outcome the gateway owes for a compute submission against a
/// given gateway state: the filtered points when a live worker is
/// registered, the uninitialized error otherwise.
pub open spec fn spec_compute_outcome(g: Gateway, ps: Seq<Point>, r: ComputeRect) -> Result<
    Seq<Point>,
    ComputeError,
> {
    if g.live() {
        Ok(spec_filter(ps, r))
    } else {
        Err(ComputeError::Uninitialized)
    }
}

/// The gateway state after a successful dispose round-trip: the entry
/// remains, but its worker is terminated.
pub open spec fn spec_after_dispose(g: Gateway) -> Gateway {
    Gateway { worker: Some(Worker { phase: WorkerPhase::Terminated }) }
}

impl Gateway {
    /// A worker is registered and ready for requests.
    pub open spec fn live(self) -> bool {
        match self.worker {
            Some(w) => w.phase is Idle,
            None => false,
        }
    }

    /// A fresh gateway: nothing is registered, every submission is a
    /// protocol error until `init` runs.
    pub fn new() -> (g: Gateway)
        ensures
            !g.live(),
            g.worker is None,
    {
        Gateway { worker: None }
    }

    /// Registers the worker. Idempotent: when a live worker is already
    /// registered, the call changes nothing.
    pub fn init(&mut self)
        ensures
            final(self).live(),
            old(self).live() ==> *final(self) == *old(self),
    {
        let already = match &self.worker {
            Some(w) => matches!(w.phase, WorkerPhase::Idle),
            None => false,
        };
        if !already {
            self.worker = Some(Worker::new());
        }
    }

    /// Submits the query and blocks until the worker's response: the
    /// filtered points from a live worker, `Uninitialized` — never a
    /// hang — when no live worker is registered (before `init` or
    /// after `dispose`).
    pub fn run_compute(&mut self, points: Vec<Point>, rect: ComputeRect) -> (r: Result<
        Vec<Point>,
        ComputeError,
    >)
        ensures
            old(self).live() ==> (r matches Ok(out) && out@ == spec_filter(points@, rect)
                && final(self).live()),
            !old(self).live() ==> r == Err::<Vec<Point>, ComputeError>(ComputeError::Uninitialized)
                && *final(self) == *old(self),
            (match r {
                Ok(out) => spec_compute_outcome(*old(self), points@, rect) == Ok::<
                    Seq<Point>,
                    ComputeError,
                >(out@),
                Err(e) => spec_compute_outcome(*old(self), points@, rect) == Err::<
                    Seq<Point>,
                    ComputeError,
                >(e),
            }),
    {
        let live = match &self.worker {
            Some(w) => matches!(w.phase, WorkerPhase::Idle),
            None => false,
        };
        if !live {
            return Err(ComputeError::Uninitialized);
        }
        let mut w = self.worker.take().unwrap();
        let cmd = ComputeCommand::Compute(points, rect);
        let resp = w.handle_command(&cmd);
        self.worker = Some(w);
        Ok(resp.points)
    }

    /// Sends the terminal request. A live worker acknowledges with the
    /// empty protocol response and is left terminated: later
    /// submissions fail with `Uninitialized`. Without a live worker
    /// the call itself fails the same way.
    pub fn dispose(&mut self) -> (r: Result<ComputeResponse, ComputeError>)
        ensures
            old(self).live() ==> (r matches Ok(resp) && resp.points@ == Seq::<Point>::empty()
                && *final(self) == spec_after_dispose(*old(self)) && !final(self).live()),
            !old(self).live() ==> (r matches Err(e) && e == ComputeError::Uninitialized
                && *final(self) == *old(self)),
    {
        let live = match &self.worker {
            Some(w) => matches!(w.phase, WorkerPhase::Idle),
            None => false,
        };
        if !live {
            return Err(ComputeError::Uninitialized);
        }
        let mut w = self.worker.take().unwrap();
        let resp = w.handle_command(&ComputeCommand::Dispose);
        self.worker = Some(w);
        Ok(resp)
    }
}

/// After a dispose round-trip, a compute submission on the same
/// gateway is owed exactly the `Uninitialized` error — the typed
/// failure, not a hang.
pub proof fn lemma_dispose_disables_compute(g: Gateway, ps: Seq<Point>, r: ComputeRect)
    ensures
        spec_compute_outcome(spec_after_dispose(g), ps, r) == Err::<Seq<Point>, ComputeError>(
            ComputeError::Uninitialized,
        ),
{
}

} // verus!
