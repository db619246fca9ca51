use gear_dapps::escrow::{
    handle, init, Escrow, EscrowAction, EscrowEffect, EscrowError, EscrowEvent, EscrowState,
};
use gear_dapps::ids::{ActorId, MessageId};

const BUYER: u64 = 3;
const SELLER: u64 = 4;

fn actor(n: u64) -> ActorId {
    let mut bytes = [0u8; 32];
    bytes[..8].copy_from_slice(&n.to_le_bytes());
    ActorId { bytes }
}

fn message(n: u8) -> MessageId {
    MessageId { bytes: [n; 32] }
}

fn init_escrow() -> Option<Escrow> {
    init(actor(SELLER), 1000)
}

fn send_payment(e: &mut Option<Escrow>, from: u64, amount: u128, id: MessageId) -> Result<Vec<EscrowEffect>, EscrowError> {
    handle(e, EscrowAction::SendPayment, actor(from), amount, id)
}

fn approve_sale(e: &mut Option<Escrow>, from: u64, approve: bool) -> Result<Vec<EscrowEffect>, EscrowError> {
    handle(e, EscrowAction::ApproveSale(approve), actor(from), 0, message(200))
}

fn confirm_delivery(e: &mut Option<Escrow>, from: u64, value: u128) -> Result<Vec<EscrowEffect>, EscrowError> {
    handle(e, EscrowAction::ConfirmDelivery, actor(from), value, message(201))
}

/// Handles the woken payment message again, as the runtime does after a wake.
fn rerun_woken(e: &mut Option<Escrow>, woken: &[EscrowEffect], from: u64, amount: u128) -> Vec<EscrowEffect> {
    let id = match woken {
        [EscrowEffect::Wake { message }] => *message,
        _ => panic!("no message was woken"),
    };
    send_payment(e, from, amount, id).unwrap()
}

#[test]
fn send_payment_success() {
    let mut escrow = init_escrow();
    assert!(send_payment(&mut escrow, BUYER, 1000, message(1)).is_ok());
}

#[test]
fn approve_sale_success() {
    let mut escrow = init_escrow();
    assert!(send_payment(&mut escrow, BUYER, 1000, message(1)).is_ok());
    let woken = approve_sale(&mut escrow, SELLER, true).unwrap();
    let res = rerun_woken(&mut escrow, &woken, BUYER, 1000);
    assert!(res.contains(&EscrowEffect::Reply { event: EscrowEvent::PaymentSentToContract, value: 0 }));

    let mut escrow = init_escrow();
    assert!(send_payment(&mut escrow, BUYER, 1000, message(2)).is_ok());
    let woken = approve_sale(&mut escrow, SELLER, false).unwrap();
    let res = rerun_woken(&mut escrow, &woken, BUYER, 1000);
    assert!(res.contains(&EscrowEffect::Reply { event: EscrowEvent::PaymentSentBack, value: 1000 }));
}

#[test]
fn confirm_delivery_success() {
    let mut escrow = init_escrow();
    assert!(send_payment(&mut escrow, BUYER, 1000, message(1)).is_ok());
    let woken = approve_sale(&mut escrow, SELLER, true).unwrap();
    rerun_woken(&mut escrow, &woken, BUYER, 1000);

    let res = confirm_delivery(&mut escrow, BUYER, 0).unwrap();
    assert!(res.contains(&EscrowEffect::Reply { event: EscrowEvent::PaymentSentBack, value: 0 }));
}

#[test]
fn send_payment_failures() {
    let mut escrow = init_escrow();
    assert!(send_payment(&mut escrow, BUYER, 1000, message(1)).is_ok());
}

#[test]
fn first_payment_waits_for_the_seller() {
    let mut escrow = init_escrow();
    assert_eq!(send_payment(&mut escrow, BUYER, 1000, message(9)), Ok(vec![EscrowEffect::Wait]));
    let e = escrow.unwrap();
    assert_eq!(e.state, EscrowState::PaymentSent { payment_id: message(9) });
    assert_eq!(e.buyer, actor(BUYER));
}

#[test]
fn delivery_completes_the_escrow() {
    let mut escrow = init_escrow();
    send_payment(&mut escrow, BUYER, 1000, message(1)).unwrap();
    let woken = approve_sale(&mut escrow, SELLER, true).unwrap();
    assert_eq!(woken, vec![EscrowEffect::Wake { message: message(1) }]);
    rerun_woken(&mut escrow, &woken, BUYER, 1000);
    assert_eq!(escrow.unwrap().state, EscrowState::AwaitingDelivery);
    let res = confirm_delivery(&mut escrow, BUYER, 5).unwrap();
    assert_eq!(
        res,
        vec![
            EscrowEffect::SendPayment { to: actor(SELLER), value: 5 },
            EscrowEffect::Reply { event: EscrowEvent::PaymentSentBack, value: 0 },
        ]
    );
    assert_eq!(escrow.unwrap().state, EscrowState::Completed);
}

#[test]
fn refusals_keep_the_escrow() {
    let mut escrow = init_escrow();
    let before = escrow;
    assert_eq!(send_payment(&mut escrow, BUYER, 999, message(1)), Err(EscrowError::WrongValue { price: 1000 }));
    assert_eq!(approve_sale(&mut escrow, BUYER, true), Err(EscrowError::WrongSource { expected: actor(SELLER) }));
    assert_eq!(approve_sale(&mut escrow, SELLER, true), Err(EscrowError::NotPaymentSent));
    assert_eq!(confirm_delivery(&mut escrow, 0, 0), Err(EscrowError::NotAwaitingDelivery));
    assert_eq!(escrow, before);
    send_payment(&mut escrow, BUYER, 1000, message(1)).unwrap();
    assert_eq!(
        confirm_delivery(&mut escrow, SELLER, 0),
        Err(EscrowError::WrongSource { expected: actor(BUYER) })
    );
}

#[test]
fn later_payments_are_sent_back() {
    let mut escrow = init_escrow();
    send_payment(&mut escrow, BUYER, 1000, message(1)).unwrap();
    // another payment while the first waits is sent back, and its sender becomes the buyer
    let res = send_payment(&mut escrow, 7, 1000, message(2)).unwrap();
    assert_eq!(res, vec![EscrowEffect::Reply { event: EscrowEvent::PaymentSentBack, value: 1000 }]);
    assert_eq!(escrow.unwrap().buyer, actor(7));
    assert_eq!(escrow.unwrap().state, EscrowState::PaymentSent { payment_id: message(1) });
}

#[test]
fn a_program_without_an_escrow_uses_the_default_one() {
    let mut slot: Option<Escrow> = None;
    assert_eq!(send_payment(&mut slot, BUYER, 0, message(3)), Ok(vec![EscrowEffect::Wait]));
    assert_eq!(slot.unwrap().seller, ActorId { bytes: [0; 32] });
}
