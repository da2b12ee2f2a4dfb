//! The runtime lifecycle of a built graph: the pipeline state machine,
//! the ordered stream of runtime events, and the out-of-band shutdown
//! request. Termination is absorbing: once the state is `Terminated`, no
//! event has any observable effect, and a shutdown request against a
//! terminated or already-destroyed graph is a no-op.

use vstd::prelude::*;
use crate::graph::Graph;

verus! {

/// The single authoritative state of a graph, mutated only by its
/// controller.
#[derive(Debug, Clone, Copy, PartialEq, Eq, Structural)]
pub enum PipelineState {
    Constructed,
    Playing,
    Draining,
    Terminated,
}

/// One occurrence reported by the running graph, consumed exactly once
/// from a single ordered channel.
#[derive(Debug, Clone)]
pub enum RuntimeEvent {
    /// No further data will arrive: the designed success terminal.
    EndOfStream,
    /// A stage failed while the graph was live; fatal.
    Error { node_path: String, message: String },
    /// A stage changed state; observed, never terminal.
    StateChanged,
}

/// A fatal in-graph failure, surfaced with the failing stage's path and
/// its message, unmodified.
#[derive(Debug, Clone)]
pub struct RuntimeError {
    pub node_path: String,
    pub message: String,
}

/// Owns the running graph and its state, consumes the event stream, and
/// drives orderly or emergency termination.
#[derive(Debug)]
pub struct LifecycleController {
    pub graph: Graph,
    pub state: PipelineState,
}

impl LifecycleController {
    /// Take ownership of a freshly built graph.
    pub fn new(graph: Graph) -> (c: LifecycleController)
        ensures
            c.graph == graph,
            c.state == PipelineState::Constructed,
    {
        LifecycleController { graph, state: PipelineState::Constructed }
    }

    /// Request the transition to the live state. Returns once the request
    /// is accepted; completion is observed through the event stream.
    pub fn start(&mut self)
        requires
            old(self).state == PipelineState::Constructed,
        ensures
            final(self).state == PipelineState::Playing,
            final(self).graph == old(self).graph,
    {
        self.state = PipelineState::Playing;
    }

    /// The graph is live: events can still terminate it.
    pub open spec fn live(self) -> bool {
        self.state == PipelineState::Playing || self.state == PipelineState::Draining
    }

    /// Consume one event. End of stream terminates with success; an error
    /// terminates immediately, bypassing the drain, and carries the
    /// failing stage's path and message unmodified; anything else is
    /// observed without effect. Once terminated, every event is ignored.
    pub fn on_event(&mut self, ev: &RuntimeEvent) -> (out: Option<Result<(), RuntimeError>>)
        ensures
            final(self).graph == old(self).graph,
            old(self).state == PipelineState::Terminated ==> (*final(self) == *old(self) && out
                is None),
            old(self).live() && ev is EndOfStream ==> (final(self).state
                == PipelineState::Terminated && out == Some(Ok::<(), RuntimeError>(()))),
            old(self).live() ==> (ev matches RuntimeEvent::Error { node_path, message } ==> (
            final(self).state == PipelineState::Terminated && (out matches Some(r) && r matches
            Err(e) && e.node_path@ == node_path@ && e.message@ == message@))),
            ev is StateChanged ==> (final(self).state == old(self).state && out is None),
            old(self).state == PipelineState::Constructed ==> (*final(self) == *old(self) && out
                is None),
    {
        if !(matches!(self.state, PipelineState::Playing) || matches!(
            self.state,
            PipelineState::Draining,
        )) {
            return None;
        }
        match ev {
            RuntimeEvent::EndOfStream => {
                self.state = PipelineState::Terminated;
                Some(Ok(()))
            },
            RuntimeEvent::Error { node_path, message } => {
                self.state = PipelineState::Terminated;
                Some(
                    Err(
                        RuntimeError {
                            node_path: node_path.clone(),
                            message: message.clone(),
                        },
                    ),
                )
            },
            RuntimeEvent::StateChanged => None,
        }
    }

    /// Out-of-band shutdown: if the graph is live, ask the capture source
    /// alone to signal end of stream, so each branch drains its own
    /// in-flight data, and move to `Draining`. Anywhere else — before
    /// start or after termination — this is a no-op.
    pub fn request_shutdown(&mut self) -> (injected: bool)
        ensures
            final(self).graph == old(self).graph,
            injected <==> old(self).state == PipelineState::Playing,
            old(self).state == PipelineState::Playing ==> final(self).state
                == PipelineState::Draining,
            old(self).state != PipelineState::Playing ==> *final(self) == *old(self),
    {
        if matches!(self.state, PipelineState::Playing) {
            self.state = PipelineState::Draining;
            true
        } else {
            false
        }
    }

    /// The main loop over a finite stretch of the event channel: consume
    /// events in order until the first end of stream or error, which
    /// terminates the graph and is returned; a stream with no terminal
    /// event changes nothing and returns nothing, as does a loop entered
    /// before start or after termination.
    pub fn drive(&mut self, events: &Vec<RuntimeEvent>) -> (r: Option<Result<(), RuntimeError>>)
        ensures
            final(self).graph == old(self).graph,
            !old(self).live() ==> (*final(self) == *old(self) && r is None),
            old(self).live() ==> ((r is None) <==> forall|t: int|
                0 <= t < events@.len() ==> !is_terminal(#[trigger] events@[t])),
            old(self).live() ==> (r is None ==> *final(self) == *old(self)),
            old(self).live() ==> forall|t: int|
                first_terminal_at(events@, t) ==> {
                    &&& final(self).state == PipelineState::Terminated
                    &&& (events@[t] is EndOfStream ==> r == Some(Ok::<(), RuntimeError>(())))
                    &&& (events@[t] matches RuntimeEvent::Error { node_path, message } ==> (r
                        matches Some(res) && res matches Err(e) && e.node_path@ == node_path@
                        && e.message@ == message@))
                },
    {
        if !(matches!(self.state, PipelineState::Playing) || matches!(
            self.state,
            PipelineState::Draining,
        )) {
            return None;
        }
        let n = events.len();
        let mut i: usize = 0;
        while i < n
            invariant
                i <= n,
                n == events@.len(),
                *self == *old(self),
                old(self).live(),
                forall|j: int| 0 <= j < i ==> !is_terminal(#[trigger] events@[j]),
            decreases n - i,
        {
            let out = self.on_event(&events[i]);
            if let Some(res) = out {
                proof {
                    assert(is_terminal(events@[i as int]));
                    assert(first_terminal_at(events@, i as int));
                    assert forall|t: int| first_terminal_at(events@, t) implies t == i as int by {
                        if t < i as int {
                            assert(!is_terminal(events@[t]));
                        } else if t > i as int {
                            assert(!is_terminal(events@[i as int]));
                        }
                    }
                }
                return Some(res);
            }
            proof {
                if is_terminal(events@[i as int]) {
                    assert(false);
                }
            }
            i += 1;
        }
        None
    }
}


/// An event that ends the main loop.
pub open spec fn is_terminal(ev: RuntimeEvent) -> bool {
    ev is EndOfStream || ev is Error
}

/// Position `t` holds the first terminal event of `events`.
pub open spec fn first_terminal_at(events: Seq<RuntimeEvent>, t: int) -> bool {
    &&& 0 <= t < events.len()
    &&& is_terminal(events[t])
    &&& forall|j: int| 0 <= j < t ==> !is_terminal(#[trigger] events[j])
}

/// The non-owning liveness-checked handle a signal handler holds: the slot
/// is empty once the graph has been destroyed. A shutdown request through
/// an empty slot must not fault and must change nothing.
#[derive(Debug)]
pub struct PipelineSlot {
    pub inner: Option<LifecycleController>,
}

impl PipelineSlot {
    /// Destroy the graph: the slot empties and later shutdown requests
    /// become no-ops.
    pub fn destroy(&mut self)
        ensures
            final(self).inner is None,
    {
        self.inner = None;
    }

    /// Shutdown through the handle: a no-op on a destroyed or terminated
    /// graph, an end-of-stream injection at the capture source otherwise.
    pub fn request_shutdown(&mut self) -> (injected: bool)
        ensures
            old(self).inner is None ==> (*final(self) == *old(self) && !injected),
            old(self).inner matches Some(c) ==> (c.state != PipelineState::Playing
                ==> (*final(self) == *old(self) && !injected)),
            old(self).inner matches Some(c) ==> (c.state == PipelineState::Playing ==> (injected
                && (final(self).inner matches Some(c2) && c2.state == PipelineState::Draining
                && c2.graph == c.graph))),
    {
        match &mut self.inner {
            None => false,
            Some(c) => c.request_shutdown(),
        }
    }
}


}
