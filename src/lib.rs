//! The responder's side of a BCH/XMR atomic swap: the swap state machine,
//! the bookkeeping of a multiplexed chain connection, and the choices the
//! runner makes between polling and stepping the machine.
pub mod keys;
pub mod protocol;
pub mod bob;
pub mod tx;
pub mod blockchain;
