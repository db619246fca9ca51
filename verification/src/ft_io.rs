//! The messages of a fungible token program, as other programs speak to it.
use vstd::prelude::*;
use crate::ids::ActorId;

verus! {

/// What a fungible token is created with.
#[derive(Clone, Debug)]
pub struct InitFToken {
    pub name: String,
    pub symbol: String,
}

/// What a message asks of a fungible token.
#[derive(Clone, Copy, Debug, PartialEq, Eq)]
pub enum FTAction {
    Mint { amount: u128 },
    Burn { amount: u128 },
    Transfer { from: ActorId, to: ActorId, amount: u128 },
    Approve { to: ActorId, amount: u128 },
    TotalSupply,
}

/// What a fungible token replies.
#[derive(Clone, Copy, Debug, PartialEq, Eq)]
pub enum FTEvent {
    Transfer { from: ActorId, to: ActorId, amount: u128 },
    Approve { from: ActorId, to: ActorId, amount: u128 },
    TotalSupply(u128),
}

/// A state query of a fungible token.
#[derive(Clone, Copy, Debug, PartialEq, Eq)]
pub enum State {
    MetaData,
    TotalSupply,
    BalanceOf(ActorId),
}

/// The answer to a state query of a fungible token.
#[derive(Clone, Debug)]
pub enum StateReply {
    MetaData { name: String, symbol: String },
    TotalSupply(u128),
    Balance(u128),
}

/// The total supply that a token's reply reports: the number in a
/// `TotalSupply` reply, and 0 for any other reply.
pub fn total_supply_of(reply: &FTEvent) -> (r: u128)
    ensures
        r == (match *reply {
            FTEvent::TotalSupply(t) => t,
            _ => 0,
        }),
{
    if let FTEvent::TotalSupply(t) = reply {
        *t
    } else {
        0
    }
}

} // verus!
