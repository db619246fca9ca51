//! Verified state machines of a small family of Gear programs: a greeting
//! program, a loan, an escrow, an ICO, a non-fungible token and a sealed-bid
//! auction, together with the message types they exchange.
//!
//! Every program is written as pure decisions: a handler takes the program's
//! state and what the runtime tells it about the message (sender, attached
//! value, block time) and returns either an error, with the state left as it
//! was, or the new state together with the messages to send.
pub mod ids;
pub mod assoc_map;
pub mod loan;
pub mod escrow;
pub mod hello;
pub mod ft_io;
pub mod ico;
pub mod nft;
pub mod auction;
