//! Event-and-command dispatcher of a Lightning node.
//!
//! Protocol events raised by the channel engine are turned into collaborator
//! actions and domain events; application commands are resolved against an
//! ordered chain of external handlers. Every step that waits on the outside
//! world (a handler, a fee estimate, a wallet, the channel engine) is exposed
//! as a verified transition that takes the outside result as an argument.
pub mod error;
pub mod event;
pub mod bus;
pub mod chain;
pub mod funding;
pub mod handler;
