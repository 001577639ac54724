//! Outgoing messages to the script side, held back until its transport is ready.
use vstd::prelude::*;

verus! {

/// The queue as a mathematical value: whether the transport is ready, and the
/// payloads held back, oldest first.
pub struct QueueModel {
    pub ready: bool,
    pub held: Seq<Seq<u8>>,
}

/// What happens to the queue: a payload is sent, or the transport reports
/// that it is ready.
pub enum BridgeEvent {
    Send(Seq<u8>),
    Ready,
}

/// One event: the new queue and the payloads delivered to the script side.
pub open spec fn step(q: QueueModel, e: BridgeEvent) -> (QueueModel, Seq<Seq<u8>>) {
    match e {
        BridgeEvent::Send(m) => if q.ready {
            (q, seq![m])
        } else {
            (QueueModel { ready: false, held: q.held.push(m) }, Seq::empty())
        },
        BridgeEvent::Ready => (QueueModel { ready: true, held: Seq::empty() }, q.held),
    }
}

/// A run of events: the final queue and everything delivered, in order.
pub open spec fn run(q: QueueModel, events: Seq<BridgeEvent>) -> (QueueModel, Seq<Seq<u8>>)
    decreases events.len(),
{
    if events.len() == 0 {
        (q, Seq::empty())
    } else {
        let (q1, out1) = run(q, events.drop_last());
        let (q2, out2) = step(q1, events.last());
        (q2, out1 + out2)
    }
}

/// The payloads sent in a run of events, in the order they were sent.
pub open spec fn sent(events: Seq<BridgeEvent>) -> Seq<Seq<u8>>
    decreases events.len(),
{
    if events.len() == 0 {
        Seq::empty()
    } else {
        match events.last() {
            BridgeEvent::Send(m) => sent(events.drop_last()).push(m),
            BridgeEvent::Ready => sent(events.drop_last()),
        }
    }
}

/// The queue before the transport has reported anything.
pub open spec fn initial() -> QueueModel {
    QueueModel { ready: false, held: Seq::empty() }
}

/// Outgoing payloads and the flag that says whether the script side can take
/// them yet.
pub struct WebMessageQueue {
    pub initialized: bool,
    pub startup_buffer: Vec<Vec<u8>>,
}

impl WebMessageQueue {
    pub open spec fn view(&self) -> QueueModel {
        QueueModel {
            ready: self.initialized,
            held: self.startup_buffer@.map_values(|m: Vec<u8>| m@),
        }
    }

    /// Once the transport is ready nothing is held back.
    pub open spec fn wf(&self) -> bool {
        self.initialized ==> self.startup_buffer@.len() == 0
    }

    /// A queue whose transport is not ready yet, holding nothing.
    pub fn new() -> (r: WebMessageQueue)
        ensures
            r.wf(),
            r.view() == initial(),
    {
        let r = WebMessageQueue { initialized: false, startup_buffer: Vec::new() };
        assert(r.view().held =~= Seq::<Seq<u8>>::empty());
        r
    }

    /// Sends `message`: once the transport is ready it is returned to be
    /// delivered at once; before that it is held back and nothing is returned.
    pub fn send_or_queue(&mut self, message: Vec<u8>) -> (deliver: Option<Vec<u8>>)
        requires
            old(self).wf(),
        ensures
            final(self).wf(),
            final(self).view() == step(old(self).view(), BridgeEvent::Send(message@)).0,
            step(old(self).view(), BridgeEvent::Send(message@)).1 == match deliver {
                Some(m) => seq![m@],
                None => Seq::<Seq<u8>>::empty(),
            },
    {
        if self.initialized {
            Some(message)
        } else {
            proof {
                let m = message@;
                assert(self.startup_buffer@.push(message).map_values(|v: Vec<u8>| v@)
                    =~= self.startup_buffer@.map_values(|v: Vec<u8>| v@).push(m));
            }
            self.startup_buffer.push(message);
            None
        }
    }

    /// The transport reports that it is ready: every payload held back is
    /// returned, oldest first, to be delivered now, and nothing is held any
    /// more. A second report returns nothing.
    pub fn mark_initialized(&mut self) -> (deliver: Vec<Vec<u8>>)
        requires
            old(self).wf(),
        ensures
            final(self).wf(),
            final(self).view() == step(old(self).view(), BridgeEvent::Ready).0,
            deliver@.map_values(|m: Vec<u8>| m@) == step(old(self).view(), BridgeEvent::Ready).1,
    {
        self.initialized = true;
        let mut held: Vec<Vec<u8>> = Vec::new();
        std::mem::swap(&mut held, &mut self.startup_buffer);
        proof {
            assert(self.startup_buffer@.map_values(|v: Vec<u8>| v@) =~= Seq::<Seq<u8>>::empty());
        }
        held
    }
}

/// Every payload is delivered to the script side exactly once, in the order
/// it was sent, however the sends fall before and after the transport
/// reports ready and however often it does: what was delivered, followed by
/// what is still held back, is exactly what was sent; once the transport is
/// ready nothing is held back, so what was delivered is what was sent.
pub proof fn lemma_delivery_in_send_order(events: Seq<BridgeEvent>)
    ensures
        run(initial(), events).1 + run(initial(), events).0.held == sent(events),
        run(initial(), events).0.ready ==> run(initial(), events).1 == sent(events),
    decreases events.len(),
{
    if events.len() == 0 {
        assert(run(initial(), events).1 + run(initial(), events).0.held =~= sent(events));
    } else {
        let prefix = events.drop_last();
        lemma_delivery_in_send_order(prefix);
        let (q1, out1) = run(initial(), prefix);
        match events.last() {
            BridgeEvent::Send(m) => {
                if q1.ready {
                    assert(q1.held.len() == 0) by {
                        lemma_ready_holds_nothing(prefix);
                    }
                    assert(out1 + seq![m] + q1.held =~= (out1 + q1.held).push(m));
                } else {
                    assert(out1 + Seq::<Seq<u8>>::empty() + q1.held.push(m) =~= (out1
                        + q1.held).push(m));
                }
            },
            BridgeEvent::Ready => {
                assert(out1 + q1.held + Seq::<Seq<u8>>::empty() =~= out1 + q1.held);
            },
        }
    }
}

/// Once the transport is ready the queue holds nothing.
pub proof fn lemma_ready_holds_nothing(events: Seq<BridgeEvent>)
    ensures
        run(initial(), events).0.ready ==> run(initial(), events).0.held.len() == 0,
    decreases events.len(),
{
    if events.len() > 0 {
        lemma_ready_holds_nothing(events.drop_last());
    }
}

} // verus!
