//! Session lifecycle and trigger delivery for a one-connection notification relay.
//!
//! A host keeps at most one live push connection in a [`registry::Registry`] and
//! forwards [`trigger::Trigger`]s to it; a client follows the reconnect machine in
//! [`client`]. Every decision is made here; the caller performs the I/O.

pub mod trigger;
pub mod registry;
pub mod host;
pub mod client;
pub mod failure;
