/// Per-message authentication: verification-key dispatch by message kind.
pub mod auth;
/// The node's window onto the transport and the ledger.
pub mod client;
/// The fixed binary serialization of packets, with its round-trip proof.
pub mod codec;
/// Configuration and the derivation of the engine parameters.
pub mod config;
/// The legacy point-to-point demo coordinator.
pub mod coordinator;
/// The protocol-engine interfaces the run loop drives.
pub mod engine;
/// Protocol messages, packets and operation results.
pub mod messages;
/// The participant registry and coordinator election.
pub mod registry;
/// The run loop: command queue, round states and the event pipeline.
pub mod runloop;
