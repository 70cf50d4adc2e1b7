use vstd::prelude::*;
use crate::battery::BatteryProcessor;
use crate::channel::EventQueue;
use crate::event::Event;

verus! {

/// What one step of the processor chain did.
#[derive(Clone, Copy, Debug, PartialEq, Eq, Structural)]
pub enum ChainStep {
    /// No event was waiting for the chain.
    Idle,
    /// An event was read and needed nothing published.
    Consumed,
    /// An event was read and the derived event was published.
    Published(Event),
    /// An event was read, but the queue had no room for the derived event:
    /// send it again once a subscriber has read.
    Blocked(Event),
}

/// One step of the processor chain: reads the next event for subscriber
/// `sub`, lets the battery stage look at it, and publishes what it derives.
/// The derived event is held back only when the queue is full.
pub fn processor_step(q: &mut EventQueue, sub: usize, stage: &BatteryProcessor) -> (r: ChainStep)
    requires
        old(q).wf(),
        sub < old(q).subscribers(),
    ensures
        final(q).wf(),
        final(q).depth() == old(q).depth(),
        final(q).subscribers() == old(q).subscribers(),
        old(q).unread(sub as int) <= 0 ==> r == ChainStep::Idle && final(q).sent() == old(q).sent(),
        old(q).unread(sub as int) > 0 ==> {
            let e = old(q).sent()[old(q).received(sub as int).len() as int];
            &&& final(q).received(sub as int) == old(q).received(sub as int).push(e)
            &&& match stage.process_spec(e) {
                None => r == ChainStep::Consumed && final(q).sent() == old(q).sent(),
                Some(d) => {
                    ||| r == ChainStep::Published(d) && final(q).sent() == old(q).sent().push(d)
                    ||| r == ChainStep::Blocked(d) && final(q).sent() == old(q).sent()
                },
            }
        },
        r matches ChainStep::Blocked(_) ==> final(q).backlog() == final(q).depth(),
        forall|t: int|
            0 <= t < old(q).subscribers() && t != sub ==> #[trigger] final(q).received(t) == old(q).received(t),
{
    match q.receive(sub) {
        None => ChainStep::Idle,
        Some(e) => match stage.process(e) {
            None => ChainStep::Consumed,
            Some(d) => {
                if q.send(d) {
                    ChainStep::Published(d)
                } else {
                    proof {
                        q.lemma_delivery();
                    }
                    ChainStep::Blocked(d)
                }
            },
        },
    }
}

} // verus!
