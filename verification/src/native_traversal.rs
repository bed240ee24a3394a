//! Native UDP traversal without sockets: packets, routing tags, outstanding probes, the state of
//! one peer, and the policies for keeping endpoints and reconnecting.
pub mod endpoint_laws;
pub mod endpoints;
pub mod error;
pub mod ledger;
pub mod peer;
pub mod probe;
pub mod probe_history;
pub mod reconnect;
pub mod routing_tags;
pub mod traversal_laws;
