//! A validation-phase execution tracer for a smart-contract virtual machine.
//!
//! During the account- and paymaster-validation window of a transaction the
//! surrounding protocol must keep user-supplied code from forcing expensive
//! work on the network before any fee is collected.  The tracer watches every
//! instruction the machine is about to execute in that window and enforces a
//! fixed policy: which storage slots may be read, which contracts may be
//! called, which context data may be queried, and how much computation may be
//! spent.  The first broken rule is latched and reported as the reason the
//! transaction was rejected.

pub mod farcall;
pub mod keccak;
pub mod laws;
pub mod messages;
pub mod policy;
pub mod tracer;
pub mod words;
