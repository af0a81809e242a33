//! Contract state machines for collective custody of funds, written so that
//! every state transition is a verified function over plain values.
//!
//! The centrepiece is [`multi_sig_wallet`]: a quorum-based transaction
//! authorization engine in which a fixed set of co-owners collectively
//! authorize outgoing value transfers once a configurable number of
//! independent confirmations has been gathered. The companion modules hold
//! the structurally similar auction escrow machine and two small contracts.
//!
//! The hosting runtime (caller identity, native value transfers, event
//! delivery, persistent storage) stays outside this library: each operation
//! takes the current caller and the outcome of any external call as explicit
//! arguments, and hands back the action the runtime must perform. The
//! contracts of the public operations pin down the returned value, the error
//! taxonomy, and exactly how the state changes.

pub mod account;
pub mod english_auction;
pub mod hello_world;
pub mod ledger;
pub mod multi_sig_wallet;
pub mod psp22;
pub mod wallet;
