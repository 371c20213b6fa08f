//! The compute worker: a state machine that owns the device for its
//! lifetime, processes one request at a time, and terminates on the
//! dispose request. The readback synchronizer's decision — both staging
//! buffers must signal ready before the response may be assembled — is
//! part of the machine.

use vstd::prelude::*;

use crate::assemble::{assemble, lemma_assemble_matches_filter};
use crate::filter::spec_filter;
use crate::geometry::{classify_all, ComputeRect, Point};

verus! {

/// A request for the worker: run the query, or shut the worker down.
pub enum ComputeCommand {
    Compute(Vec<Point>, ComputeRect),
    Dispose,
}

/// The worker's answer: the filtered points, or the empty protocol
/// response that acknowledges a dispose.
pub struct ComputeResponse {
    pub points: Vec<Point>,
}

/// The typed failures of the service.
#[derive(Clone, Copy, PartialEq, Eq, Structural, Debug)]
pub enum ComputeError {
    /// A call reached the gateway before initialization or after
    /// dispose.
    Uninitialized,
    /// The device reported a mapping failure while reading a staging
    /// buffer back.
    ReadbackFailed,
    /// A request or response channel lost its peer.
    ChannelClosed,
}

/// What a staging buffer's completion callback delivered.
#[derive(Clone, Copy, PartialEq, Eq, Structural, Debug)]
pub enum MapSignal {
    Ready,
    Failed,
}

/// Where the worker stands in its request cycle.
#[derive(Clone, Copy, PartialEq, Eq, Structural, Debug)]
pub enum WorkerPhase {
    /// Blocked on the inbound channel.
    Idle,
    /// Uploading buffers and recording the kernel dispatch.
    Dispatching,
    /// Copy commands submitted; both staging buffers still pending.
    AwaitingReadback,
    /// Both buffers readable; assembling and sending the response.
    Responding,
    /// The dispose request was processed; the device is released.
    Terminated,
}

/// The compute worker. Exactly one request is in flight at a time.
pub struct Worker {
    pub phase: WorkerPhase,
}

/// What processing one command leaves behind: the phase the worker
/// returns to and the response owed to the caller.
pub open spec fn handle_post(cmd: ComputeCommand, w: Worker, resp: ComputeResponse) -> bool {
    match cmd {
        ComputeCommand::Compute(ps, r) => w.phase is Idle && resp.points@ == spec_filter(ps@, r),
        ComputeCommand::Dispose => w.phase is Terminated && resp.points@ == Seq::<Point>::empty(),
    }
}

impl Worker {
    /// A fresh worker, ready for its first request.
    pub fn new() -> (w: Worker)
        ensures
            w.phase is Idle,
    {
        Worker { phase: WorkerPhase::Idle }
    }

    /// A compute request was pulled from the inbound channel: start the
    /// buffer pipeline.
    pub fn begin_dispatch(&mut self)
        requires
            old(self).phase is Idle,
        ensures
            final(self).phase is Dispatching,
    {
        self.phase = WorkerPhase::Dispatching;
    }

    /// The kernel dispatch and both staging copies are submitted: wait
    /// for the two completion signals.
    pub fn begin_readback(&mut self)
        requires
            old(self).phase is Dispatching,
        ensures
            final(self).phase is AwaitingReadback,
    {
        self.phase = WorkerPhase::AwaitingReadback;
    }

    /// The readback synchronizer's verdict, taken in the fixed order:
    /// the output-points signal first, then the sentinel signal. Only
    /// two ready signals allow a response; any failure is terminal.
    pub fn finish_readback(&mut self, output: MapSignal, sentinels: MapSignal) -> (r: Result<
        (),
        ComputeError,
    >)
        requires
            old(self).phase is AwaitingReadback,
        ensures
            output is Ready && sentinels is Ready ==> r is Ok && final(self).phase is Responding,
            !(output is Ready && sentinels is Ready) ==> r == Err::<(), ComputeError>(
                ComputeError::ReadbackFailed,
            ) && final(self).phase is Terminated,
    {
        match (output, sentinels) {
            (MapSignal::Ready, MapSignal::Ready) => {
                self.phase = WorkerPhase::Responding;
                Ok(())
            },
            _ => {
                self.phase = WorkerPhase::Terminated;
                Err(ComputeError::ReadbackFailed)
            },
        }
    }

    /// The response went out on the outbound channel: block on the next
    /// request.
    pub fn finish_respond(&mut self)
        requires
            old(self).phase is Responding,
        ensures
            final(self).phase is Idle,
    {
        self.phase = WorkerPhase::Idle;
    }

    /// The dispose request: acknowledge and end the loop.
    pub fn terminate(&mut self)
        requires
            old(self).phase is Idle,
        ensures
            final(self).phase is Terminated,
    {
        self.phase = WorkerPhase::Terminated;
    }

    /// Processes one request to completion on the host: the full cycle
    /// through dispatch, readback and response for a compute request
    /// (the host evaluation completes at once, so both completion
    /// signals are ready by construction), or termination with the
    /// empty response for a dispose.
    pub fn handle_command(&mut self, cmd: &ComputeCommand) -> (resp: ComputeResponse)
        requires
            old(self).phase is Idle,
        ensures
            handle_post(*cmd, *final(self), resp),
    {
        match cmd {
            ComputeCommand::Compute(ps, r) => {
                self.begin_dispatch();
                let sentinels = classify_all(ps, r);
                self.begin_readback();
                let ready = self.finish_readback(MapSignal::Ready, MapSignal::Ready);
                proof {
                    assert(ready is Ok);
                }
                let out = assemble(ps, &sentinels);
                proof {
                    lemma_assemble_matches_filter(ps@, sentinels@, *r);
                }
                self.finish_respond();
                ComputeResponse { points: out }
            },
            ComputeCommand::Dispose => {
                self.terminate();
                ComputeResponse { points: Vec::new() }
            },
        }
    }
}

} // verus!
