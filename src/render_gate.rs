//! Alternation between the node-graph worker and the event loop: one
//! evaluation, then its result consumed, then a go-ahead for the next.
use vstd::prelude::*;

verus! {

/// What one node-graph evaluation reported.
#[derive(Clone, Copy, PartialEq, Eq, Debug)]
pub enum NodeGraphOutcome {
    /// Nothing was evaluated.
    NotRun,
    /// The graph ran, producing a new texture or none.
    HasRun { has_texture: bool },
}

/// What the event loop does with an evaluation result.
#[derive(Clone, Copy, PartialEq, Eq, Debug)]
pub struct ResultPlan {
    /// Ask the editor to poll for the evaluation's side effects.
    pub poll_evaluation: bool,
    /// Bind the new texture for display and request a redraw.
    pub bind_texture: bool,
}

/// The event loop's side of the rendezvous: whether a result has been
/// consumed whose go-ahead has not been sent yet.
pub struct RenderGate {
    pub go_ahead_owed: bool,
}

impl RenderGate {
    /// Nothing owed yet: the worker's first evaluation needs no go-ahead.
    pub fn new() -> (r: RenderGate)
        ensures
            !r.go_ahead_owed,
    {
        RenderGate { go_ahead_owed: false }
    }

    /// Consumes an evaluation result. A graph that ran is polled for its side
    /// effects, and a texture it produced is bound and redrawn where a display
    /// is ready; a result that did not run asks for nothing. Either way the
    /// worker is owed its go-ahead.
    pub fn on_result(&mut self, outcome: NodeGraphOutcome, display_ready: bool) -> (plan: ResultPlan)
        ensures
            final(self).go_ahead_owed,
            plan.poll_evaluation == (outcome != NodeGraphOutcome::NotRun),
            plan.bind_texture == (outcome == NodeGraphOutcome::HasRun { has_texture: true }
                && display_ready),
    {
        self.go_ahead_owed = true;
        match outcome {
            NodeGraphOutcome::NotRun => ResultPlan { poll_evaluation: false, bind_texture: false },
            NodeGraphOutcome::HasRun { has_texture } => ResultPlan {
                poll_evaluation: true,
                bind_texture: has_texture && display_ready,
            },
        }
    }

    /// A frame was rendered: returns whether to send the go-ahead now, which
    /// is exactly when one is owed, and after which none is.
    pub fn on_redraw(&mut self) -> (send: bool)
        ensures
            send == old(self).go_ahead_owed,
            !final(self).go_ahead_owed,
    {
        let send = self.go_ahead_owed;
        self.go_ahead_owed = false;
        send
    }
}

/// The whole rendezvous: the worker, the result on its way to the event
/// loop, the go-ahead owed by the event loop, and the capacity-one slot.
pub struct RendezvousModel {
    /// The worker is evaluating; otherwise it waits for a go-ahead.
    pub evaluating: bool,
    /// A result has been sent and not yet consumed by the event loop.
    pub result_in_flight: bool,
    /// The event loop owes the worker a go-ahead.
    pub go_ahead_owed: bool,
    /// The go-ahead slot is full.
    pub slot_full: bool,
}

/// What happens next, on either side.
pub enum RendezvousEvent {
    /// The worker finishes evaluating and sends its result.
    Finish,
    /// The event loop consumes the result.
    Consume,
    /// The event loop renders a frame and sends a go-ahead where one is owed.
    Redraw,
    /// The worker takes the go-ahead from a full slot and starts evaluating.
    Take,
}

/// The worker evaluates first, with nothing else under way.
pub open spec fn rendezvous_start() -> RendezvousModel {
    RendezvousModel { evaluating: true, result_in_flight: false, go_ahead_owed: false, slot_full: false }
}

/// One event; an event that cannot happen in a state leaves it unchanged.
pub open spec fn rendezvous_step(s: RendezvousModel, e: RendezvousEvent) -> RendezvousModel {
    match e {
        RendezvousEvent::Finish => if s.evaluating {
            RendezvousModel { evaluating: false, result_in_flight: true, ..s }
        } else {
            s
        },
        RendezvousEvent::Consume => if s.result_in_flight {
            RendezvousModel { result_in_flight: false, go_ahead_owed: true, ..s }
        } else {
            s
        },
        RendezvousEvent::Redraw => if s.go_ahead_owed {
            RendezvousModel { go_ahead_owed: false, slot_full: true, ..s }
        } else {
            s
        },
        RendezvousEvent::Take => if !s.evaluating && s.slot_full {
            RendezvousModel { evaluating: true, slot_full: false, ..s }
        } else {
            s
        },
    }
}

pub open spec fn rendezvous_run(s: RendezvousModel, events: Seq<RendezvousEvent>) -> RendezvousModel
    decreases events.len(),
{
    if events.len() == 0 {
        s
    } else {
        rendezvous_step(rendezvous_run(s, events.drop_last()), events.last())
    }
}

/// Evaluations started and not yet consumed by the event loop.
pub open spec fn outstanding(s: RendezvousModel) -> int {
    (if s.evaluating { 1int } else { 0 }) + (if s.result_in_flight { 1int } else { 0 })
}

/// One permission to evaluate circulates: exactly one of the four places
/// holds it.
pub open spec fn one_token(s: RendezvousModel) -> bool {
    (if s.evaluating { 1int } else { 0 }) + (if s.result_in_flight { 1int } else { 0 }) + (if s.go_ahead_owed { 1int } else { 0 }) + (if s.slot_full { 1int } else { 0 }) == 1
}

/// Whatever the interleaving of the worker's steps and the event loop's,
/// at most one evaluation is started and not yet consumed.
pub proof fn lemma_at_most_one_outstanding(events: Seq<RendezvousEvent>)
    ensures
        outstanding(rendezvous_run(rendezvous_start(), events)) <= 1,
        one_token(rendezvous_run(rendezvous_start(), events)),
    decreases events.len(),
{
    if events.len() > 0 {
        lemma_at_most_one_outstanding(events.drop_last());
    }
}

} // verus!
