//! An escrow between a seller and a buyer. The buyer's payment waits until the
//! seller approves or rejects the sale; on approval the payment is held until the
//! buyer confirms delivery, on rejection it goes back to the buyer.
use vstd::prelude::*;
use crate::ids::{ActorId, MessageId, ViewEq, zero_actor};

verus! {

/// What the escrow is created with.
#[derive(Clone, Copy, Debug)]
pub struct InitEscrow {
    pub seller: ActorId,
    pub price: u128,
}

/// Where an escrow stands.
#[derive(Clone, Copy, Debug, PartialEq, Eq)]
pub enum EscrowState {
    Uninitialized,
    /// A payment arrived; its message waits for the seller's decision.
    PaymentSent { payment_id: MessageId },
    ApprovedBySeller,
    AwaitingDelivery,
    ConfirmDelivery,
    Completed,
}

impl Default for EscrowState {
    fn default() -> (r: EscrowState)
        ensures
            r == EscrowState::Uninitialized,
    {
        EscrowState::Uninitialized
    }
}

/// The program's state.
#[derive(Clone, Copy, Debug, PartialEq, Eq)]
pub struct Escrow {
    pub buyer: ActorId,
    pub seller: ActorId,
    pub state: EscrowState,
    pub price: u128,
}

/// What a message asks of the escrow.
#[derive(Clone, Copy, Debug, PartialEq, Eq)]
pub enum EscrowAction {
    SendPayment,
    ApproveSale(bool),
    ConfirmDelivery,
}

/// What the escrow replies.
#[derive(Clone, Copy, Debug, PartialEq, Eq, Structural)]
pub enum EscrowEvent {
    PaymentSentToContract,
    PaymentSentBack,
    EscrowCompleted,
}

/// Why the escrow refuses a message.
#[derive(Clone, Copy, Debug, PartialEq, Eq)]
pub enum EscrowError {
    /// The message does not carry exactly the price.
    WrongValue { price: u128 },
    /// The message does not come from `expected`.
    WrongSource { expected: ActorId },
    /// The escrow has no payment waiting for a decision.
    NotPaymentSent,
    /// The escrow is not awaiting delivery.
    NotAwaitingDelivery,
}

/// What the escrow does in answer to a message.
#[derive(Clone, Copy, Debug, PartialEq, Eq)]
pub enum EscrowEffect {
    /// The message being handled waits until it is woken; it is then handled anew.
    Wait,
    /// Wakes the waiting message `message`.
    Wake { message: MessageId },
    /// Sends `value` to `to` with the text `Payment`.
    SendPayment { to: ActorId, value: u128 },
    /// The reply to the message being handled.
    Reply { event: EscrowEvent, value: u128 },
}

/// The escrow that a program holds before it is created.
pub open spec fn default_escrow() -> Escrow {
    Escrow { buyer: zero_actor(), seller: zero_actor(), state: EscrowState::Uninitialized, price: 0 }
}

impl Default for Escrow {
    fn default() -> (r: Escrow)
        ensures
            r == default_escrow(),
    {
        Escrow { buyer: ActorId::zero(), seller: ActorId::zero(), state: EscrowState::default(), price: 0 }
    }
}

impl Escrow {
    /// What a payment message does.
    pub open spec fn send_payment_result(self, source: ActorId, value: u128, message: MessageId) -> Result<
        (Escrow, Seq<EscrowEffect>),
        EscrowError,
    > {
        if value != self.price {
            Err(EscrowError::WrongValue { price: self.price })
        } else {
            let paid = Escrow { buyer: source, ..self };
            match self.state {
                EscrowState::Uninitialized => Ok(
                    (
                        Escrow { state: EscrowState::PaymentSent { payment_id: message }, ..paid },
                        seq![EscrowEffect::Wait],
                    ),
                ),
                EscrowState::ApprovedBySeller => Ok(
                    (
                        Escrow { state: EscrowState::AwaitingDelivery, ..paid },
                        seq![EscrowEffect::Reply { event: EscrowEvent::PaymentSentToContract, value: 0 }],
                    ),
                ),
                _ => Ok((paid, seq![EscrowEffect::Reply { event: EscrowEvent::PaymentSentBack, value: value }])),
            }
        }
    }

    /// What the seller's decision does.
    pub open spec fn approve_sale_result(self, source: ActorId, approve: bool) -> Result<
        (Escrow, Seq<EscrowEffect>),
        EscrowError,
    > {
        if source@ != self.seller@ {
            Err(EscrowError::WrongSource { expected: self.seller })
        } else {
            match self.state {
                EscrowState::PaymentSent { payment_id } => Ok(
                    (
                        if approve {
                            Escrow { state: EscrowState::ApprovedBySeller, ..self }
                        } else {
                            self
                        },
                        seq![EscrowEffect::Wake { message: payment_id }],
                    ),
                ),
                _ => Err(EscrowError::NotPaymentSent),
            }
        }
    }

    /// What the buyer's confirmation of delivery does: the answer to the buyer is
    /// `PaymentSentBack`.
    pub open spec fn confirm_delivery_result(self, source: ActorId, value: u128) -> Result<
        (Escrow, Seq<EscrowEffect>),
        EscrowError,
    > {
        if source@ != self.buyer@ {
            Err(EscrowError::WrongSource { expected: self.buyer })
        } else if self.state != EscrowState::AwaitingDelivery {
            Err(EscrowError::NotAwaitingDelivery)
        } else {
            Ok(
                (
                    Escrow { state: EscrowState::Completed, ..self },
                    seq![
                        EscrowEffect::SendPayment { to: self.seller, value: value },
                        EscrowEffect::Reply { event: EscrowEvent::PaymentSentBack, value: 0 },
                    ],
                ),
            )
        }
    }

    /// What handling `action` does.
    pub open spec fn handle_result(
        self,
        action: EscrowAction,
        source: ActorId,
        value: u128,
        message: MessageId,
    ) -> Result<(Escrow, Seq<EscrowEffect>), EscrowError> {
        match action {
            EscrowAction::SendPayment => self.send_payment_result(source, value, message),
            EscrowAction::ApproveSale(approve) => self.approve_sale_result(source, approve),
            EscrowAction::ConfirmDelivery => self.confirm_delivery_result(source, value),
        }
    }

    /// A new escrow: its seller is the creator of the program.
    pub fn new(source: ActorId, price: u128) -> (r: Escrow)
        ensures
            r == (Escrow { seller: source, price: price, ..default_escrow() }),
    {
        Escrow { seller: source, price, ..Escrow::default() }
    }

    fn check_msg_source(&self, source: ActorId, account: ActorId) -> (r: Result<(), EscrowError>)
        ensures
            r == (if source@ == account@ {
                Ok(())
            } else {
                Err(EscrowError::WrongSource { expected: account })
            }),
    {
        if !source.view_eq(&account) {
            Err(EscrowError::WrongSource { expected: account })
        } else {
            Ok(())
        }
    }

    /// A payment of exactly the price. The first payment waits for the seller; once
    /// woken it is handled again and is taken in if the seller approved, or sent back.
    pub fn send_payment(&mut self, source: ActorId, value: u128, message: MessageId) -> (r: Result<
        Vec<EscrowEffect>,
        EscrowError,
    >)
        ensures
            match old(self).send_payment_result(source, value, message) {
                Ok((e, effects)) => r is Ok && r->Ok_0@ == effects && *final(self) == e,
                Err(err) => r == Err::<Vec<EscrowEffect>, EscrowError>(err) && *final(self) == *old(self),
            },
    {
        if value != self.price {
            return Err(EscrowError::WrongValue { price: self.price });
        }
        self.buyer = source;
        match self.state {
            EscrowState::Uninitialized => {
                self.state = EscrowState::PaymentSent { payment_id: message };
                Ok(vec![EscrowEffect::Wait])
            },
            EscrowState::ApprovedBySeller => {
                self.state = EscrowState::AwaitingDelivery;
                Ok(vec![EscrowEffect::Reply { event: EscrowEvent::PaymentSentToContract, value: 0 }])
            },
            _ => Ok(vec![EscrowEffect::Reply { event: EscrowEvent::PaymentSentBack, value }]),
        }
    }

    /// The seller approves or rejects the waiting payment, and wakes it.
    pub fn approve_sale(&mut self, source: ActorId, approve: bool) -> (r: Result<Vec<EscrowEffect>, EscrowError>)
        ensures
            match old(self).approve_sale_result(source, approve) {
                Ok((e, effects)) => r is Ok && r->Ok_0@ == effects && *final(self) == e,
                Err(err) => r == Err::<Vec<EscrowEffect>, EscrowError>(err) && *final(self) == *old(self),
            },
    {
        self.check_msg_source(source, self.seller)?;
        match self.state {
            EscrowState::PaymentSent { payment_id } => {
                if approve {
                    self.state = EscrowState::ApprovedBySeller;
                }
                Ok(vec![EscrowEffect::Wake { message: payment_id }])
            },
            _ => Err(EscrowError::NotPaymentSent),
        }
    }

    /// The buyer confirms delivery: the value attached to this message goes to the
    /// seller, the escrow is completed, and the buyer is answered `PaymentSentBack`.
    pub fn confirm_delivery(&mut self, source: ActorId, value: u128) -> (r: Result<Vec<EscrowEffect>, EscrowError>)
        ensures
            match old(self).confirm_delivery_result(source, value) {
                Ok((e, effects)) => r is Ok && r->Ok_0@ == effects && *final(self) == e,
                Err(err) => r == Err::<Vec<EscrowEffect>, EscrowError>(err) && *final(self) == *old(self),
            },
    {
        self.check_msg_source(source, self.buyer)?;
        match self.state {
            EscrowState::AwaitingDelivery => {},
            _ => {
                return Err(EscrowError::NotAwaitingDelivery);
            },
        }
        self.check_msg_source(source, self.buyer)?;
        self.state = EscrowState::Completed;
        Ok(
            vec![
                EscrowEffect::SendPayment { to: self.seller, value },
                EscrowEffect::Reply { event: EscrowEvent::PaymentSentBack, value: 0 },
            ],
        )
    }
}

/// Handles one message; a program without an escrow gets the default one first.
pub fn handle(
    slot: &mut Option<Escrow>,
    action: EscrowAction,
    source: ActorId,
    value: u128,
    message: MessageId,
) -> (r: Result<Vec<EscrowEffect>, EscrowError>)
    ensures
        (*final(slot)) is Some,
        ({
            let before = (*old(slot)).unwrap_or(default_escrow());
            match before.handle_result(action, source, value, message) {
                Ok((e, effects)) => r is Ok && r->Ok_0@ == effects && (*final(slot))->Some_0 == e,
                Err(err) => r == Err::<Vec<EscrowEffect>, EscrowError>(err) && (*final(slot))->Some_0
                    == before,
            }
        }),
{
    let mut escrow = match slot.take() {
        Some(e) => e,
        None => Escrow::default(),
    };
    let r = match action {
        EscrowAction::SendPayment => escrow.send_payment(source, value, message),
        EscrowAction::ApproveSale(approve) => escrow.approve_sale(source, approve),
        EscrowAction::ConfirmDelivery => escrow.confirm_delivery(source, value),
    };
    *slot = Some(escrow);
    r
}

/// Creates the program's escrow: the creator sells at `price`.
pub fn init(source: ActorId, price: u128) -> (r: Option<Escrow>)
    ensures
        r == Some(Escrow { seller: source, price: price, ..default_escrow() }),
{
    Some(Escrow::new(source, price))
}

/// A payment is accepted exactly when it carries the price: with any other
/// value, over- or underpaid, it is refused (and the handler leaves the escrow as
/// it was), and with the price it is accepted and its sender becomes the buyer.
pub proof fn lemma_payment_needs_exact_price(e: Escrow, source: ActorId, value: u128, message: MessageId)
    ensures
        value != e.price ==> e.send_payment_result(source, value, message) == Err::<
            (Escrow, Seq<EscrowEffect>),
            EscrowError,
        >(EscrowError::WrongValue { price: e.price }),
        value == e.price ==> e.send_payment_result(source, value, message) is Ok
            && e.send_payment_result(source, value, message)->Ok_0.0.buyer == source
            && e.send_payment_result(source, value, message)->Ok_0.0.price == e.price,
{
}

/// The seller and the price never change.
pub proof fn lemma_seller_and_price_fixed(
    e: Escrow,
    action: EscrowAction,
    source: ActorId,
    value: u128,
    message: MessageId,
)
    requires
        e.handle_result(action, source, value, message) is Ok,
    ensures
        e.handle_result(action, source, value, message)->Ok_0.0.seller == e.seller,
        e.handle_result(action, source, value, message)->Ok_0.0.price == e.price,
{
}

/// An escrow is completed only by its buyer confirming delivery while it awaits delivery.
pub proof fn lemma_completion_only_by_buyer(
    e: Escrow,
    action: EscrowAction,
    source: ActorId,
    value: u128,
    message: MessageId,
)
    requires
        e.state != EscrowState::Completed,
        e.handle_result(action, source, value, message) is Ok,
        e.handle_result(action, source, value, message)->Ok_0.0.state == EscrowState::Completed,
    ensures
        action == EscrowAction::ConfirmDelivery,
        e.state == EscrowState::AwaitingDelivery,
        source@ == e.buyer@,
{
}

/// The round trip of a payment: a first payment of the price waits; the seller's
/// approval wakes it, and handled again it is taken in and the escrow awaits
/// delivery; the seller's rejection wakes it too, and it is sent back with its value.
pub proof fn lemma_payment_round_trip(e: Escrow, buyer: ActorId, message: MessageId, approve: bool)
    requires
        e.state == EscrowState::Uninitialized,
    ensures
        ({
            let paid = e.send_payment_result(buyer, e.price, message);
            &&& paid is Ok
            &&& paid->Ok_0.1 == seq![EscrowEffect::Wait]
            &&& ({
                let waiting = paid->Ok_0.0;
                let decided = waiting.approve_sale_result(e.seller, approve);
                &&& decided is Ok
                &&& decided->Ok_0.1 == seq![EscrowEffect::Wake { message }]
                &&& ({
                    let again = decided->Ok_0.0.send_payment_result(buyer, e.price, message);
                    &&& again is Ok
                    &&& if approve {
                        &&& again->Ok_0.1 == seq![
                            EscrowEffect::Reply { event: EscrowEvent::PaymentSentToContract, value: 0 },
                        ]
                        &&& again->Ok_0.0.state == EscrowState::AwaitingDelivery
                    } else {
                        again->Ok_0.1 == seq![
                            EscrowEffect::Reply { event: EscrowEvent::PaymentSentBack, value: e.price },
                        ]
                    }
                })
            })
        }),
{
}

} // verus!
