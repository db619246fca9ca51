use gear_dapps::ids::ActorId;
use gear_dapps::loan::{
    handle, init, meta_state, InitLoan, Loan, LoanAction, LoanEffect, LoanError, LoanEvent, LoanMetaState,
    LoanMetaStateReply, LoanNote, LoanState,
};

const LENDER: u64 = 2;
const BORROWER: u64 = 3;
const DURATION: u64 = 10 * 24 * 60 * 60 * 1000;
/// Block time when the tests start, and the time that one block takes.
const START: u64 = 1_000;
const BLOCK_MS: u64 = 1_000;

fn actor(n: u64) -> ActorId {
    let mut bytes = [0u8; 32];
    bytes[..8].copy_from_slice(&n.to_le_bytes());
    ActorId { bytes }
}

fn init_loan() -> Option<Loan> {
    init(InitLoan {
        amount: 1000,
        interest: 100,
        lender: actor(LENDER),
        borrower: actor(BORROWER),
        duration: DURATION,
    })
}

fn fund(slot: &mut Option<Loan>, from: u64, amount: u128, now: u64) -> Result<Vec<LoanEffect>, LoanError> {
    handle(slot, LoanAction::Fund, actor(from), amount, now)
}

fn reimburse(slot: &mut Option<Loan>, from: u64, amount: u128, now: u64) -> Result<Vec<LoanEffect>, LoanError> {
    handle(slot, LoanAction::Reimburse, actor(from), amount, now)
}

fn replied(res: &Result<Vec<LoanEffect>, LoanError>, event: LoanEvent) -> bool {
    match res {
        Ok(effects) => effects.contains(&LoanEffect::Reply { event, value: 0 }),
        Err(_) => false,
    }
}

#[test]
fn fund_success() {
    let mut loan = init_loan();
    let res = fund(&mut loan, LENDER, 1000, START);
    assert!(replied(&res, LoanEvent::Funded));
}

#[test]
fn reimburse_success() {
    let mut loan = init_loan();
    assert!(fund(&mut loan, LENDER, 1000, START).is_ok());
    let now = START + DURATION * BLOCK_MS;
    let res = reimburse(&mut loan, BORROWER, 1100, now);
    assert!(replied(&res, LoanEvent::Reimbursed));
}

#[test]
fn fund_failures() {
    let mut loan = init_loan();
    // the caller is not the lender
    assert!(fund(&mut loan, BORROWER, 1000, START).is_err());
    // the attached value is not the amount
    assert!(fund(&mut loan, LENDER, 1001, START).is_err());
    assert!(fund(&mut loan, LENDER, 1000, START).is_ok());
    let now = START + DURATION * BLOCK_MS;
    assert!(reimburse(&mut loan, BORROWER, 1100, now).is_ok());
    // the loan is closed
    assert!(fund(&mut loan, LENDER, 1000, now).is_err());
}

#[test]
fn reimburse_failures() {
    let mut loan = init_loan();
    // the loan is pending
    assert!(reimburse(&mut loan, BORROWER, 1100, START).is_err());
    assert!(fund(&mut loan, LENDER, 1000, START).is_ok());
    // the loan period has not ended
    assert!(reimburse(&mut loan, BORROWER, 1100, START).is_err());
    let now = START + DURATION * BLOCK_MS;
    // the caller is not the borrower
    assert!(reimburse(&mut loan, LENDER, 1100, now).is_err());
    // the attached value is not amount plus interest
    assert!(reimburse(&mut loan, BORROWER, 1101, now).is_err());
    assert!(reimburse(&mut loan, BORROWER, 1100, now).is_ok());
    // the loan is closed
    assert!(reimburse(&mut loan, BORROWER, 1100, now).is_err());
}

#[test]
fn refusals_name_the_expectation_and_keep_the_loan() {
    let mut loan = init_loan();
    let before = loan;
    assert_eq!(
        fund(&mut loan, BORROWER, 1000, START),
        Err(LoanError::WrongSource { expected: actor(LENDER) })
    );
    assert_eq!(fund(&mut loan, LENDER, 999, START), Err(LoanError::WrongValue { expected: 1000 }));
    assert_eq!(
        reimburse(&mut loan, BORROWER, 1100, START),
        Err(LoanError::WrongState { expected: LoanState::Active })
    );
    assert_eq!(loan, before);
    assert!(fund(&mut loan, LENDER, 1000, START).is_ok());
    let funded = loan;
    assert_eq!(reimburse(&mut loan, BORROWER, 1100, START + DURATION - 1), Err(LoanError::TooEarly));
    assert_eq!(
        reimburse(&mut loan, BORROWER, 1000, START + DURATION),
        Err(LoanError::WrongValue { expected: 1100 })
    );
    assert_eq!(
        fund(&mut loan, LENDER, 1000, START),
        Err(LoanError::WrongState { expected: LoanState::Pending })
    );
    assert_eq!(loan, funded);
}

#[test]
fn funding_starts_the_period_and_passes_the_amount_on() {
    let mut loan = init_loan();
    let res = fund(&mut loan, LENDER, 1000, 5_000).unwrap();
    assert_eq!(
        res,
        vec![
            LoanEffect::Send { to: actor(BORROWER), note: LoanNote::LendingIsActive, value: 1000 },
            LoanEffect::Reply { event: LoanEvent::Funded, value: 0 },
        ]
    );
    let l = loan.unwrap();
    assert_eq!(l.state, LoanState::Active);
    assert_eq!(l.end, 5_000 + DURATION);
    // reimbursable exactly from the end of the period
    let mut slot = Some(l);
    assert_eq!(reimburse(&mut slot, BORROWER, 1100, 5_000 + DURATION - 1), Err(LoanError::TooEarly));
    let done = reimburse(&mut slot, BORROWER, 1100, 5_000 + DURATION).unwrap();
    assert_eq!(
        done,
        vec![
            LoanEffect::Send { to: actor(BORROWER), note: LoanNote::Reimburse, value: 1100 },
            LoanEffect::Reply { event: LoanEvent::Reimbursed, value: 0 },
        ]
    );
    let closed = slot.unwrap();
    assert_eq!(closed.state, LoanState::Closed);
    assert_eq!(closed.lender, actor(LENDER));
    assert_eq!(closed.amount, 1000);
    assert_eq!(closed.interest, 100);
    assert_eq!(closed.duration, DURATION);
}

#[test]
fn notes_are_fixed_texts() {
    assert_eq!(LoanNote::LendingIsActive.payload(), b"Lending is active".to_vec());
    assert_eq!(LoanNote::Reimburse.payload(), b"Reimburse".to_vec());
}

#[test]
fn meta_state_reports_state_and_details() {
    let mut loan = init_loan();
    assert_eq!(meta_state(&mut loan, LoanMetaState::CurrentState), LoanMetaStateReply::CurrentState(LoanState::Pending));
    assert!(fund(&mut loan, LENDER, 1000, 7).is_ok());
    assert_eq!(
        meta_state(&mut loan, LoanMetaState::Details),
        LoanMetaStateReply::Details {
            lender: actor(LENDER),
            borrower: actor(BORROWER),
            amount: 1000,
            interest: 100,
            end: 7 + DURATION,
        }
    );
}

#[test]
fn a_program_without_a_loan_uses_the_default_one() {
    let mut slot: Option<Loan> = None;
    assert_eq!(meta_state(&mut slot, LoanMetaState::CurrentState), LoanMetaStateReply::CurrentState(LoanState::Pending));
    assert_eq!(slot, Some(Loan::default()));
    // the default lender is the zero address, and the default amount is zero
    let mut slot: Option<Loan> = None;
    assert!(fund(&mut slot, 0, 0, 10).is_ok());
    assert_eq!(slot.unwrap().state, LoanState::Active);
}

#[test]
fn a_closed_loan_refuses_everything() {
    let mut loan = init_loan();
    fund(&mut loan, LENDER, 1000, 0).unwrap();
    reimburse(&mut loan, BORROWER, 1100, DURATION).unwrap();
    let closed = loan;
    for (from, value) in [(LENDER, 1000u128), (BORROWER, 1100), (BORROWER, 0), (LENDER, 0)] {
        assert!(fund(&mut loan, from, value, 2 * DURATION).is_err());
        assert!(reimburse(&mut loan, from, value, 2 * DURATION).is_err());
    }
    assert_eq!(loan, closed);
}

#[test]
fn each_action_is_accepted_at_most_once() {
    let mut loan = init_loan();
    let mut funds = 0;
    let mut repayments = 0;
    let messages = [
        (LoanAction::Reimburse, BORROWER, 1100u128, 0u64),
        (LoanAction::Fund, LENDER, 1000, 0),
        (LoanAction::Fund, LENDER, 1000, 1),
        (LoanAction::Reimburse, BORROWER, 1100, DURATION),
        (LoanAction::Reimburse, BORROWER, 1100, DURATION + 1),
        (LoanAction::Fund, LENDER, 1000, DURATION + 2),
    ];
    for (action, from, value, now) in messages {
        if handle(&mut loan, action, actor(from), value, now).is_ok() {
            match action {
                LoanAction::Fund => funds += 1,
                LoanAction::Reimburse => repayments += 1,
            }
        }
    }
    assert_eq!((funds, repayments), (1, 1));
    assert_eq!(loan.unwrap().state, LoanState::Closed);
}
