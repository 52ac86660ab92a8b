//! The host's two trigger sources: the local signal socket and the heartbeat timer.

use vstd::prelude::*;
use crate::registry::{can_send, sent, Registry, SendOutcome};
use crate::trigger::Trigger;

verus! {

/// Seconds between two heartbeats.
pub const HEARTBEAT_PERIOD_SECS: u64 = 10;

/// The byte that the one-shot local command writes to the signal socket.
pub const LOCAL_SIGNAL: u8 = 0xFF;

/// The trigger that one accepted local connection stands for.
///
/// `read` is the number of bytes read from it, or `None` where the read
/// failed. Any non-empty read is a ping, whatever the byte; an empty or failed
/// read is nothing.
pub open spec fn spec_local_trigger(read: Option<usize>) -> Option<Trigger> {
    match read {
        Some(count) => if count > 0 {
            Some(Trigger::Ping)
        } else {
            None
        },
        None => None,
    }
}

/// Decides what one accepted local connection asks for, given the result of
/// reading from it.
pub fn local_trigger(read: Option<usize>) -> (trigger: Option<Trigger>)
    ensures
        trigger == spec_local_trigger(read),
{
    match read {
        Some(count) => if count > 0 {
            Some(Trigger::Ping)
        } else {
            None
        },
        None => None,
    }
}

/// Handles one accepted local connection: a non-empty read is forwarded to
/// the registry as a ping, anything else is dropped without effect.
pub fn forward_local_signal<S, W: FnOnce(&S, u8) -> bool>(
    registry: &mut Registry<S>,
    read: Option<usize>,
    write: W,
) -> (outcome: SendOutcome)
    requires
        spec_local_trigger(read) matches Some(trigger) ==> can_send(*old(registry), trigger, write),
    ensures
        spec_local_trigger(read) is None ==> *final(registry) == *old(registry) && outcome
            == SendOutcome::Skipped,
        spec_local_trigger(read) matches Some(trigger) ==> sent(
            *old(registry),
            trigger,
            write,
            *final(registry),
            outcome,
        ),
{
    match local_trigger(read) {
        Some(trigger) => registry.send(trigger, write),
        None => SendOutcome::Skipped,
    }
}

/// Handles one tick of the heartbeat timer: a heartbeat is sent to the
/// registry, whether or not a session is installed.
pub fn emit_heartbeat<S, W: FnOnce(&S, u8) -> bool>(registry: &mut Registry<S>, write: W) -> (outcome:
    SendOutcome)
    requires
        can_send(*old(registry), Trigger::Heartbeat, write),
    ensures
        sent(*old(registry), Trigger::Heartbeat, write, *final(registry), outcome),
{
    registry.send(Trigger::Heartbeat, write)
}

} // verus!
