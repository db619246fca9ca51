//! A loan between a lender and a borrower: the lender funds it, the borrower
//! pays back the amount with interest once the loan period has ended.
use vstd::prelude::*;
use crate::ids::{ActorId, ViewEq, zero_actor};

verus! {

/// Where a loan stands.
#[derive(Clone, Copy, Debug, PartialEq, Eq, Structural)]
pub enum LoanState {
    Pending,
    Active,
    Closed,
}

impl Default for LoanState {
    fn default() -> (r: LoanState)
        ensures
            r == LoanState::Pending,
    {
        LoanState::Pending
    }
}

/// The position of a state in the loan's life: pending, then active, then closed.
pub open spec fn stage(s: LoanState) -> int {
    match s {
        LoanState::Pending => 0,
        LoanState::Active => 1,
        LoanState::Closed => 2,
    }
}

/// What the program is created with.
#[derive(Clone, Copy, Debug)]
pub struct InitLoan {
    pub amount: u128,
    pub interest: u128,
    pub lender: ActorId,
    pub borrower: ActorId,
    pub duration: u64,
}

/// The program's state.
#[derive(Clone, Copy, Debug, PartialEq, Eq)]
pub struct Loan {
    pub state: LoanState,
    pub borrower: ActorId,
    pub lender: ActorId,
    pub duration: u64,
    pub end: u64,
    pub amount: u128,
    pub interest: u128,
}

/// What a message asks of the loan.
#[derive(Clone, Copy, Debug, PartialEq, Eq)]
pub enum LoanAction {
    Fund,
    Reimburse,
}

/// What the loan replies after a successful action.
#[derive(Clone, Copy, Debug, PartialEq, Eq, Structural)]
pub enum LoanEvent {
    Funded,
    Reimbursed,
}

/// A state query.
#[derive(Clone, Copy, Debug, PartialEq, Eq)]
pub enum LoanMetaState {
    CurrentState,
    Details,
}

/// The answer to a state query.
#[derive(Clone, Copy, Debug, PartialEq, Eq)]
pub enum LoanMetaStateReply {
    CurrentState(LoanState),
    Details { lender: ActorId, borrower: ActorId, amount: u128, interest: u128, end: u64 },
}

/// Why the loan refuses a message.
#[derive(Clone, Copy, Debug, PartialEq, Eq)]
#[allow(inconsistent_fields)]
pub enum LoanError {
    /// The message does not come from `expected`.
    WrongSource { expected: ActorId },
    /// The loan is not in the `expected` state.
    WrongState { expected: LoanState },
    /// The message does not carry exactly `expected`.
    WrongValue { expected: u128 },
    /// The loan period has not ended yet.
    TooEarly,
}

/// The fixed text of a message the loan sends.
#[derive(Clone, Copy, Debug, PartialEq, Eq, Structural)]
pub enum LoanNote {
    LendingIsActive,
    Reimburse,
}

/// A message that the loan sends as part of handling an action.
#[derive(Clone, Copy, Debug, PartialEq, Eq)]
pub enum LoanEffect {
    /// A message with a fixed text and an attached value.
    Send { to: ActorId, note: LoanNote, value: u128 },
    /// The reply to the message being handled.
    Reply { event: LoanEvent, value: u128 },
}

/// The bytes of a note.
pub open spec fn note_bytes(n: LoanNote) -> Seq<u8> {
    match n {
        LoanNote::LendingIsActive => seq![76u8, 101, 110, 100, 105, 110, 103, 32, 105, 115, 32, 97, 99, 116, 105, 118, 101],
        LoanNote::Reimburse => seq![82u8, 101, 105, 109, 98, 117, 114, 115, 101],
    }
}

impl LoanNote {
    /// The text of the note: `Lending is active` or `Reimburse`.
    pub fn payload(&self) -> (r: Vec<u8>)
        ensures
            r@ == note_bytes(*self),
    {
        match self {
            LoanNote::LendingIsActive => {
                let r = vec![76u8, 101, 110, 100, 105, 110, 103, 32, 105, 115, 32, 97, 99, 116, 105, 118, 101];
                assert(r@ =~= note_bytes(*self));
                r
            },
            LoanNote::Reimburse => {
                let r = vec![82u8, 101, 105, 109, 98, 117, 114, 115, 101];
                assert(r@ =~= note_bytes(*self));
                r
            },
        }
    }
}

/// The loan that a program holds before it is created, and the base of a new one.
pub open spec fn default_loan() -> Loan {
    Loan {
        state: LoanState::Pending,
        borrower: zero_actor(),
        lender: zero_actor(),
        duration: 0,
        end: 0,
        amount: 0,
        interest: 0,
    }
}

impl Default for Loan {
    fn default() -> (r: Loan)
        ensures
            r == default_loan(),
    {
        Loan {
            state: LoanState::Pending,
            borrower: ActorId::zero(),
            lender: ActorId::zero(),
            duration: 0,
            end: 0,
            amount: 0,
            interest: 0,
        }
    }
}

impl Loan {
    /// A pending loan with the given terms.
    pub open spec fn from_init(config: InitLoan) -> Loan {
        Loan {
            borrower: config.borrower,
            lender: config.lender,
            duration: config.duration,
            amount: config.amount,
            interest: config.interest,
            ..default_loan()
        }
    }

    /// Whether funding, with everything else in order, needs a block time sum that fits.
    pub open spec fn fund_passes_checks(self, source: ActorId, value: u128) -> bool {
        source@ == self.lender@ && self.state == LoanState::Pending && value == self.amount
    }

    /// What funding does: the new loan and the messages sent, or the refusal.
    pub open spec fn fund_result(self, source: ActorId, value: u128, now: u64) -> Result<
        (Loan, Seq<LoanEffect>),
        LoanError,
    > {
        if source@ != self.lender@ {
            Err(LoanError::WrongSource { expected: self.lender })
        } else if self.state != LoanState::Pending {
            Err(LoanError::WrongState { expected: LoanState::Pending })
        } else if value != self.amount {
            Err(LoanError::WrongValue { expected: self.amount })
        } else {
            Ok(
                (
                    Loan { end: (now + self.duration) as u64, state: LoanState::Active, ..self },
                    seq![
                        LoanEffect::Send { to: self.borrower, note: LoanNote::LendingIsActive, value: value },
                        LoanEffect::Reply { event: LoanEvent::Funded, value: 0 },
                    ],
                ),
            )
        }
    }

    /// Whether reimbursing reaches the sum of amount and interest.
    pub open spec fn reimburse_reaches_sum(self, source: ActorId) -> bool {
        source@ == self.borrower@ && self.state == LoanState::Active
    }

    /// What reimbursing does: the new loan and the messages sent, or the refusal.
    pub open spec fn reimburse_result(self, source: ActorId, value: u128, now: u64) -> Result<
        (Loan, Seq<LoanEffect>),
        LoanError,
    > {
        if source@ != self.borrower@ {
            Err(LoanError::WrongSource { expected: self.borrower })
        } else if self.state != LoanState::Active {
            Err(LoanError::WrongState { expected: LoanState::Active })
        } else if value != self.amount + self.interest {
            Err(LoanError::WrongValue { expected: (self.amount + self.interest) as u128 })
        } else if now < self.end {
            Err(LoanError::TooEarly)
        } else {
            Ok(
                (
                    Loan { state: LoanState::Closed, ..self },
                    seq![
                        LoanEffect::Send { to: self.borrower, note: LoanNote::Reimburse, value: value },
                        LoanEffect::Reply { event: LoanEvent::Reimbursed, value: 0 },
                    ],
                ),
            )
        }
    }

    /// What handling `action` does.
    pub open spec fn handle_result(self, action: LoanAction, source: ActorId, value: u128, now: u64) -> Result<
        (Loan, Seq<LoanEffect>),
        LoanError,
    > {
        match action {
            LoanAction::Fund => self.fund_result(source, value, now),
            LoanAction::Reimburse => self.reimburse_result(source, value, now),
        }
    }

    /// Whether handling `action` stays within the integer types.
    pub open spec fn handle_fits(self, action: LoanAction, source: ActorId, value: u128, now: u64) -> bool {
        match action {
            LoanAction::Fund => self.fund_passes_checks(source, value) ==> now + self.duration
                <= u64::MAX,
            LoanAction::Reimburse => self.reimburse_reaches_sum(source) ==> self.amount
                + self.interest <= u128::MAX,
        }
    }

    /// A pending loan with the terms of `config`.
    pub fn new(config: InitLoan) -> (r: Loan)
        ensures
            r == Loan::from_init(config),
    {
        Loan {
            borrower: config.borrower,
            lender: config.lender,
            duration: config.duration,
            amount: config.amount,
            interest: config.interest,
            ..Loan::default()
        }
    }

    fn check_msg_source(&self, source: ActorId, account: ActorId) -> (r: Result<(), LoanError>)
        ensures
            r == (if source@ == account@ {
                Ok(())
            } else {
                Err(LoanError::WrongSource { expected: account })
            }),
    {
        if !source.view_eq(&account) {
            Err(LoanError::WrongSource { expected: account })
        } else {
            Ok(())
        }
    }

    fn check_state(&self, state: LoanState) -> (r: Result<(), LoanError>)
        ensures
            r == (if self.state == state {
                Ok(())
            } else {
                Err(LoanError::WrongState { expected: state })
            }),
    {
        if self.state != state {
            Err(LoanError::WrongState { expected: state })
        } else {
            Ok(())
        }
    }

    fn check_attached_value(&self, attached: u128, value: u128) -> (r: Result<(), LoanError>)
        ensures
            r == (if attached == value {
                Ok(())
            } else {
                Err(LoanError::WrongValue { expected: value })
            }),
    {
        if attached != value {
            Err(LoanError::WrongValue { expected: value })
        } else {
            Ok(())
        }
    }

    /// The lender funds the loan with exactly the loan amount; the amount is passed on
    /// to the borrower and the loan period starts at `now`.
    pub fn fund(&mut self, source: ActorId, value: u128, now: u64) -> (r: Result<Vec<LoanEffect>, LoanError>)
        requires
            old(self).fund_passes_checks(source, value) ==> now + old(self).duration <= u64::MAX,
        ensures
            match old(self).fund_result(source, value, now) {
                Ok((loan, effects)) => r is Ok && r->Ok_0@ == effects && *final(self) == loan,
                Err(e) => r == Err::<Vec<LoanEffect>, LoanError>(e) && *final(self) == *old(self),
            },
    {
        self.check_msg_source(source, self.lender)?;
        self.check_state(LoanState::Pending)?;
        self.check_attached_value(value, self.amount)?;
        self.end = now + self.duration;
        self.state = LoanState::Active;
        let effects = vec![
            LoanEffect::Send { to: self.borrower, note: LoanNote::LendingIsActive, value: value },
            LoanEffect::Reply { event: LoanEvent::Funded, value: 0 },
        ];
        Ok(effects)
    }

    /// The borrower pays back amount and interest, no earlier than the end of the loan period.
    pub fn reimburse(&mut self, source: ActorId, value: u128, now: u64) -> (r: Result<Vec<LoanEffect>, LoanError>)
        requires
            old(self).reimburse_reaches_sum(source) ==> old(self).amount + old(self).interest
                <= u128::MAX,
        ensures
            match old(self).reimburse_result(source, value, now) {
                Ok((loan, effects)) => r is Ok && r->Ok_0@ == effects && *final(self) == loan,
                Err(e) => r == Err::<Vec<LoanEffect>, LoanError>(e) && *final(self) == *old(self),
            },
    {
        self.check_msg_source(source, self.borrower)?;
        self.check_state(LoanState::Active)?;
        self.check_attached_value(value, self.amount + self.interest)?;
        if now < self.end {
            return Err(LoanError::TooEarly);
        }
        self.state = LoanState::Closed;
        let effects = vec![
            LoanEffect::Send { to: self.borrower, note: LoanNote::Reimburse, value: value },
            LoanEffect::Reply { event: LoanEvent::Reimbursed, value: 0 },
        ];
        Ok(effects)
    }

    /// The answer to a state query.
    pub fn meta_state(&self, query: LoanMetaState) -> (r: LoanMetaStateReply)
        ensures
            r == (match query {
                LoanMetaState::CurrentState => LoanMetaStateReply::CurrentState(self.state),
                LoanMetaState::Details => LoanMetaStateReply::Details {
                    lender: self.lender,
                    borrower: self.borrower,
                    amount: self.amount,
                    interest: self.interest,
                    end: self.end,
                },
            }),
    {
        match query {
            LoanMetaState::CurrentState => LoanMetaStateReply::CurrentState(self.state),
            LoanMetaState::Details => LoanMetaStateReply::Details {
                lender: self.lender,
                borrower: self.borrower,
                amount: self.amount,
                interest: self.interest,
                end: self.end,
            },
        }
    }
}

/// Handles one message: the program's loan is created with default terms if it
/// has none yet, then the action is carried out on it.
pub fn handle(slot: &mut Option<Loan>, action: LoanAction, source: ActorId, value: u128, now: u64) -> (r: Result<
    Vec<LoanEffect>,
    LoanError,
>)
    requires
        (*old(slot)).unwrap_or(default_loan()).handle_fits(action, source, value, now),
    ensures
        (*final(slot)) is Some,
        ({
            let before = (*old(slot)).unwrap_or(default_loan());
            match before.handle_result(action, source, value, now) {
                Ok((loan, effects)) => r is Ok && r->Ok_0@ == effects && (*final(slot))->Some_0 == loan,
                Err(e) => r == Err::<Vec<LoanEffect>, LoanError>(e) && (*final(slot))->Some_0 == before,
            }
        }),
{
    let mut loan = match slot.take() {
        Some(l) => l,
        None => Loan::default(),
    };
    let r = match action {
        LoanAction::Fund => loan.fund(source, value, now),
        LoanAction::Reimburse => loan.reimburse(source, value, now),
    };
    *slot = Some(loan);
    r
}

/// Creates the program's loan from its terms.
pub fn init(config: InitLoan) -> (r: Option<Loan>)
    ensures
        r == Some(Loan::from_init(config)),
{
    Some(Loan::new(config))
}

/// Answers a state query, creating the default loan first if the program has none.
pub fn meta_state(slot: &mut Option<Loan>, query: LoanMetaState) -> (r: LoanMetaStateReply)
    ensures
        (*final(slot)) == Some((*old(slot)).unwrap_or(default_loan())),
        r == (match query {
            LoanMetaState::CurrentState => LoanMetaStateReply::CurrentState((*final(slot))->Some_0.state),
            LoanMetaState::Details => LoanMetaStateReply::Details {
                lender: (*final(slot))->Some_0.lender,
                borrower: (*final(slot))->Some_0.borrower,
                amount: (*final(slot))->Some_0.amount,
                interest: (*final(slot))->Some_0.interest,
                end: (*final(slot))->Some_0.end,
            },
        }),
{
    let loan = match slot.take() {
        Some(l) => l,
        None => Loan::default(),
    };
    let r = loan.meta_state(query);
    *slot = Some(loan);
    r
}

/// One message to the loan program: the action, its sender, attached value and block time.
pub struct LoanMessage {
    pub action: LoanAction,
    pub source: ActorId,
    pub value: u128,
    pub now: u64,
}

/// The loan after one message: the new loan if accepted, the same loan if refused.
pub open spec fn after_message(loan: Loan, m: LoanMessage) -> Loan {
    match loan.handle_result(m.action, m.source, m.value, m.now) {
        Ok((l, _)) => l,
        Err(_) => loan,
    }
}

/// The loan after a sequence of messages, handled in order.
pub open spec fn after_messages(loan: Loan, msgs: Seq<LoanMessage>) -> Loan
    decreases msgs.len(),
{
    if msgs.len() == 0 {
        loan
    } else {
        after_message(after_messages(loan, msgs.drop_last()), msgs.last())
    }
}

/// How many messages of a sequence with action `action` the loan accepts.
pub open spec fn accepted_count(loan: Loan, msgs: Seq<LoanMessage>, action: LoanAction) -> nat
    decreases msgs.len(),
{
    if msgs.len() == 0 {
        0
    } else {
        let before = after_messages(loan, msgs.drop_last());
        let m = msgs.last();
        accepted_count(loan, msgs.drop_last(), action) + if m.action == action && before.handle_result(
            m.action,
            m.source,
            m.value,
            m.now,
        ) is Ok {
            1nat
        } else {
            0nat
        }
    }
}

/// The life of a loan over any sequence of messages: its terms never change;
/// a fund is accepted exactly when the loan goes from pending to active and a
/// reimbursement exactly when it goes from active to closed, so each is accepted
/// at most once, the loan never goes back, and nothing is accepted once it is closed.
pub proof fn lemma_loan_lifecycle(loan: Loan, msgs: Seq<LoanMessage>)
    ensures
        ({
            let after = after_messages(loan, msgs);
            &&& after.lender == loan.lender
            &&& after.borrower == loan.borrower
            &&& after.amount == loan.amount
            &&& after.interest == loan.interest
            &&& after.duration == loan.duration
            &&& stage(after.state) >= stage(loan.state)
            &&& accepted_count(loan, msgs, LoanAction::Fund) + (if stage(loan.state) >= 1 { 1int } else { 0int })
                == (if stage(after.state) >= 1 { 1int } else { 0int })
            &&& accepted_count(loan, msgs, LoanAction::Reimburse) + (if stage(loan.state) >= 2 { 1int } else { 0int })
                == (if stage(after.state) >= 2 { 1int } else { 0int })
        }),
    decreases msgs.len(),
{
    if msgs.len() > 0 {
        lemma_loan_lifecycle(loan, msgs.drop_last());
    }
}

/// Every accepted action moves the loan exactly one stage on (pending, active,
/// closed): a loan never goes back, and nothing skips a stage.
pub proof fn lemma_accepted_action_advances_one_stage(
    loan: Loan,
    action: LoanAction,
    source: ActorId,
    value: u128,
    now: u64,
)
    requires
        loan.handle_result(action, source, value, now) is Ok,
    ensures
        stage(loan.handle_result(action, source, value, now)->Ok_0.0.state) == stage(loan.state) + 1,
{
}

/// The terms of a loan (its parties, amount, interest and duration) never change.
pub proof fn lemma_terms_never_change(loan: Loan, action: LoanAction, source: ActorId, value: u128, now: u64)
    ensures
        ({
            let after = match loan.handle_result(action, source, value, now) {
                Ok((l, _)) => l,
                Err(_) => loan,
            };
            &&& after.lender == loan.lender
            &&& after.borrower == loan.borrower
            &&& after.amount == loan.amount
            &&& after.interest == loan.interest
            &&& after.duration == loan.duration
        }),
{
}

/// A closed loan refuses every message.
pub proof fn lemma_closed_loan_refuses(loan: Loan, action: LoanAction, source: ActorId, value: u128, now: u64)
    requires
        loan.state == LoanState::Closed,
    ensures
        loan.handle_result(action, source, value, now) is Err,
{
}

/// Once funded at time `now`, the loan can be reimbursed at any time from
/// `now + duration` on, by the borrower with amount and interest attached, and
/// at no earlier time.
pub proof fn lemma_reimbursable_exactly_from_end(
    loan: Loan,
    lender: ActorId,
    funded_at: u64,
    borrower: ActorId,
    later: u64,
)
    requires
        loan.fund_result(lender, loan.amount, funded_at) is Ok,
        borrower@ == loan.borrower@,
        loan.amount + loan.interest <= u128::MAX,
        funded_at + loan.duration <= u64::MAX,
    ensures
        ({
            let active = loan.fund_result(lender, loan.amount, funded_at)->Ok_0.0;
            let paid = (loan.amount + loan.interest) as u128;
            active.reimburse_result(borrower, paid, later) is Ok <==> later >= funded_at
                + loan.duration
        }),
{
}

} // verus!
