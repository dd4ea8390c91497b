//! The dispatch loop step: the single consumer of dataflow-runtime events.
//! On a tick it drains the relay queue for emission into the runtime; on any
//! other input it turns the event into a packet to forward over the
//! transport; on a stop signal it lowers the run flag.

use vstd::prelude::*;

use crate::codec::Packet;
use crate::lifecycle::RunFlag;
use crate::queue::RelayQueue;

verus! {

/// One event delivered by the dataflow runtime. Metadata travels with the
/// event outside the core and is passed through unchanged by the caller.
pub enum Event {
    /// A named input: the id is a topic (or the tick trigger), the payload
    /// is the raw data.
    Input { id: Vec<u8>, payload: Vec<u8> },
    /// The runtime's stop signal.
    Stop,
}

/// What the caller must do after one dispatch step.
pub enum Step {
    /// Emit each packet to the dataflow runtime, in the given order, tagged
    /// with its topic. A per-packet emission failure is logged and does not
    /// abort the rest.
    Emits(Vec<Packet>),
    /// Forward one packet out over the transport.
    Forward(Packet),
    /// The stop signal was consumed: shut down and deliver no more events.
    Quit,
    /// The flag was already lowered: nothing to do.
    Idle,
}

/// The reserved event id that triggers a drain: the bytes of `"tick"`.
pub open spec fn tick_id() -> Seq<u8> {
    seq![116u8, 105u8, 99u8, 107u8]
}

/// Whether an event id is the tick trigger.
fn is_tick(id: &Vec<u8>) -> (b: bool)
    ensures
        b == (id@ == tick_id()),
{
    let b = id.len() == 4 && id[0] == 116 && id[1] == 105 && id[2] == 99 && id[3] == 107;
    proof {
        if b {
            assert(id@ =~= tick_id());
        } else {
            if id@ == tick_id() {
                assert(id@.len() == 4);
                assert(id@[0] == 116 && id@[1] == 105 && id@[2] == 99 && id@[3] == 107);
            }
        }
    }
    b
}

/// Consume one dataflow-runtime event. With the flag lowered, nothing is
/// accepted or emitted any more; while it is raised, a tick drains the
/// queue in FIFO order, any other input becomes one packet to forward
/// (its id the topic, its payload the data), and a stop lowers the flag.
pub fn handle_event(queue: &mut RelayQueue, flag: &mut RunFlag, event: Event) -> (step: Step)
    requires
        old(queue).wf(),
    ensures
        final(queue).wf(),
        final(queue).cap() == old(queue).cap(),
        final(flag).running() ==> old(flag).running(),
        !old(flag).running() ==> step is Idle && final(queue)@ == old(queue)@
            && !final(flag).running(),
        old(flag).running() ==> match event {
            Event::Input { id, payload } => {
                if id@ == tick_id() {
                    (step matches Step::Emits(drained) && drained@ == old(queue)@)
                        && final(queue)@.len() == 0 && final(flag).running()
                } else {
                    (step matches Step::Forward(p) && p.topic@ == id@ && p.payload@ == payload@)
                        && final(queue)@ == old(queue)@ && final(flag).running()
                }
            },
            Event::Stop => step is Quit && final(queue)@ == old(queue)@ && !final(flag).running(),
        },
{
    if !flag.is_running() {
        return Step::Idle;
    }
    match event {
        Event::Input { id, payload } => {
            if is_tick(&id) {
                let drained = queue.drain_all();
                Step::Emits(drained)
            } else {
                Step::Forward(Packet { topic: id, payload })
            }
        },
        Event::Stop => {
            flag.request_stop();
            Step::Quit
        },
    }
}

} // verus!
