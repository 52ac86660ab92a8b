//! The one-byte signals that travel over the push channel.

use vstd::prelude::*;

verus! {

/// Wire value of an operator-initiated ping.
pub const PING_BYTE: u8 = 0xFF;

/// Wire value of a timer-initiated heartbeat.
pub const HEARTBEAT_BYTE: u8 = 0x00;

/// A single-byte signal pushed to the connected client.
#[derive(Clone, Copy, Debug, PartialEq, Eq, Structural)]
pub enum Trigger {
    /// Operator-initiated notification.
    Ping,
    /// Timer-initiated liveness signal.
    Heartbeat,
}

impl Trigger {
    /// The byte that stands for this trigger on the wire.
    pub open spec fn spec_byte(self) -> u8 {
        match self {
            Trigger::Ping => 0xFFu8,
            Trigger::Heartbeat => 0x00u8,
        }
    }

    /// The trigger that a wire byte stands for, if it is one of the two recognised values.
    pub open spec fn spec_from_byte(byte: u8) -> Option<Trigger> {
        if byte == 0xFFu8 {
            Some(Trigger::Ping)
        } else if byte == 0x00u8 {
            Some(Trigger::Heartbeat)
        } else {
            None
        }
    }

    /// Encodes the trigger as its wire byte.
    pub fn byte(self) -> (b: u8)
        ensures
            b == self.spec_byte(),
    {
        match self {
            Trigger::Ping => PING_BYTE,
            Trigger::Heartbeat => HEARTBEAT_BYTE,
        }
    }

    /// Decodes a wire byte; any value other than the two recognised ones is malformed.
    pub fn from_byte(byte: u8) -> (t: Option<Trigger>)
        ensures
            t == Trigger::spec_from_byte(byte),
    {
        if byte == PING_BYTE {
            Some(Trigger::Ping)
        } else if byte == HEARTBEAT_BYTE {
            Some(Trigger::Heartbeat)
        } else {
            None
        }
    }
}

/// Decoding the byte of a trigger gives the trigger back, and the two
/// triggers have different bytes.
pub proof fn lemma_byte_round_trip(trigger: Trigger)
    ensures
        Trigger::spec_from_byte(trigger.spec_byte()) == Some(trigger),
        Trigger::Ping.spec_byte() != Trigger::Heartbeat.spec_byte(),
{
}

} // verus!
