//! The transport listener step: for each raw inbound message, decode (or
//! strip the namespace prefix), then push the packet into the relay queue,
//! respecting the queue's drop policy and the run flag. The blocking
//! receive itself stays with the caller.

use vstd::prelude::*;

use crate::codec::decode;
use crate::codec::decoded;
use crate::codec::Packet;
use crate::lifecycle::RunFlag;
use crate::queue::RelayQueue;
use crate::topics::stripped;
use crate::topics::strip_key;

verus! {

/// What became of one inbound message.
pub enum ListenOutcome {
    /// The run flag was lowered: the message was not looked at.
    Ignored,
    /// The bytes did not decode: logged and discarded, listening continues.
    Malformed,
    /// The packet was appended to the relay queue.
    Accepted,
    /// The queue was full: the packet was dropped (drop-newest policy).
    Dropped,
}

/// The listener's life: it is created idle, runs its receive loop, winds
/// down once the run flag is observed lowered, and is then stopped.
pub enum ListenerPhase {
    Idle,
    Running,
    Stopping,
    Stopped,
}

/// The listener's state machine. Transitions only ever move forward:
/// `Idle -> Running -> Stopping -> Stopped`.
pub struct Listener {
    phase: ListenerPhase,
}

impl Listener {
    /// The current phase.
    pub closed spec fn phase(&self) -> ListenerPhase {
        self.phase
    }

    /// A listener that has not started receiving yet.
    pub fn new() -> (l: Listener)
        ensures
            l.phase() is Idle,
    {
        Listener { phase: ListenerPhase::Idle }
    }

    /// Enter the receive loop. The inbound endpoint must already be bound;
    /// a bind failure is fatal at startup and never reaches a running
    /// listener.
    pub fn start(&mut self)
        requires
            old(self).phase() is Idle,
        ensures
            final(self).phase() is Running,
    {
        self.phase = ListenerPhase::Running;
    }

    /// Observe the lowered run flag and leave the receive loop.
    pub fn wind_down(&mut self, flag: &RunFlag)
        requires
            old(self).phase() is Running,
            !flag.running(),
        ensures
            final(self).phase() is Stopping,
    {
        self.phase = ListenerPhase::Stopping;
    }

    /// Release the endpoint; the listener is done.
    pub fn finish(&mut self)
        requires
            old(self).phase() is Stopping,
        ensures
            final(self).phase() is Stopped,
    {
        self.phase = ListenerPhase::Stopped;
    }
}

/// Handle one raw datagram: decode it as a wire frame and push the packet.
/// With the flag lowered nothing is accepted; a malformed frame is
/// discarded; a full queue drops the packet.
pub fn on_datagram(queue: &mut RelayQueue, flag: &RunFlag, bytes: &Vec<u8>) -> (out: ListenOutcome)
    requires
        old(queue).wf(),
    ensures
        final(queue).wf(),
        final(queue).cap() == old(queue).cap(),
        !flag.running() ==> out is Ignored && final(queue)@ == old(queue)@,
        flag.running() ==> match decoded(bytes@) {
            Option::None => out is Malformed && final(queue)@ == old(queue)@,
            Option::Some(tp) => {
                if old(queue)@.len() < old(queue).cap() {
                    (out is Accepted && final(queue)@.len() == old(queue)@.len() + 1)
                        && final(queue)@.take(old(queue)@.len() as int) == old(queue)@
                        && final(queue)@.last().topic@ == tp.0
                        && final(queue)@.last().payload@ == tp.1
                } else {
                    out is Dropped && final(queue)@ == old(queue)@
                }
            },
        },
{
    if !flag.is_running() {
        return ListenOutcome::Ignored;
    }
    match decode(bytes) {
        Ok(packet) => {
            if queue.push(packet) {
                proof {
                    assert(queue@.take(old(queue)@.len() as int) =~= old(queue)@);
                }
                ListenOutcome::Accepted
            } else {
                ListenOutcome::Dropped
            }
        },
        Err(_) => ListenOutcome::Malformed,
    }
}

/// Handle one publish/subscribe sample: the namespace prefix is stripped
/// from the key to recover the flat topic, the message body is the payload.
/// With the flag lowered nothing is accepted; a full queue drops the packet.
pub fn on_sample(
    queue: &mut RelayQueue,
    flag: &RunFlag,
    prefix: &Vec<u8>,
    key: &Vec<u8>,
    payload: Vec<u8>,
) -> (out: ListenOutcome)
    requires
        old(queue).wf(),
    ensures
        final(queue).wf(),
        final(queue).cap() == old(queue).cap(),
        !flag.running() ==> out is Ignored && final(queue)@ == old(queue)@,
        flag.running() ==> if old(queue)@.len() < old(queue).cap() {
            (out is Accepted && final(queue)@.len() == old(queue)@.len() + 1)
                && final(queue)@.take(old(queue)@.len() as int) == old(queue)@
                && final(queue)@.last().topic@ == stripped(prefix@, key@)
                && final(queue)@.last().payload@ == payload@
        } else {
            out is Dropped && final(queue)@ == old(queue)@
        },
{
    if !flag.is_running() {
        return ListenOutcome::Ignored;
    }
    let topic = strip_key(prefix, key);
    let packet = Packet { topic, payload };
    if queue.push(packet) {
        proof {
            assert(queue@.take(old(queue)@.len() as int) =~= old(queue)@);
        }
        ListenOutcome::Accepted
    } else {
        ListenOutcome::Dropped
    }
}

} // verus!
