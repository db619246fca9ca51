//! An initial coin offering: an admin puts a number of tokens of a fungible
//! token program on sale at a fixed price for a period; listed investors buy
//! them with attached value; after the period the admin withdraws what is left.
//!
//! Starting the sale, buying and withdrawing talk to the token program and wait
//! for its replies. Each is split where it waits: one function decides what to
//! ask the token program, the next continues with the answer.
use vstd::prelude::*;
use crate::ids::{ActorId, ViewEq, zero_actor};

verus! {

/// What a message asks of the ICO.
#[derive(Clone, Copy, Debug, PartialEq, Eq)]
pub enum ICOAction {
    AddInvestor { account: ActorId },
    Start {
        ft_contract_id: ActorId,
        duration: u64,
        price: u128,
        available_tokens: u128,
        min_purchase: u128,
        max_purchase: u128,
    },
    Buy,
    Withdraw { to: ActorId },
}

/// What the ICO replies.
#[derive(Clone, Copy, Debug, PartialEq, Eq, Structural)]
pub enum ICOEvent {
    ICOStarted { price: u128, available_tokens: u128 },
    TokensTransferred { amount: u128 },
    TokensWithdrawn { amount: u128 },
}

/// Why the ICO refuses a message.
#[derive(Clone, Copy, Debug, PartialEq, Eq, Structural)]
pub enum IcoError {
    /// Only the admin may do this.
    NotAdmin,
    /// The sale has already been started.
    AlreadyStarted,
    /// The tokens put on sale are none, or more than the token's total supply.
    BadAvailableTokens,
    /// Duration, price, minimum or maximum purchase is zero.
    ZeroParameter,
    /// The maximum purchase is not below the value of all tokens on sale.
    MaxPurchaseTooHigh,
    /// The buyer is not a listed investor.
    NotInvestor,
    /// Nothing is on sale, or the sale period is over.
    NotActive,
    /// The attached value is outside the minimum and maximum purchase.
    PurchaseOutOfRange,
    /// Fewer tokens are left than the value pays for.
    NotEnoughTokens,
    /// The sale period has not ended.
    NotEnded,
    /// No tokens are left to withdraw.
    NothingToWithdraw,
}

/// A message that the ICO sends.
#[derive(Clone, Copy, Debug, PartialEq, Eq)]
pub enum IcoEffect {
    /// Asks the token program `ft_contract_id` for its total supply, and waits
    /// for its answer.
    AskTotalSupply { ft_contract_id: ActorId },
    /// Asks the token program `ft_contract_id` to move `amount` tokens from
    /// `from` to `to`, and waits for its answer.
    TransferTokens { ft_contract_id: ActorId, from: ActorId, to: ActorId, amount: u128 },
    /// The reply to the message being handled.
    Reply { event: ICOEvent, value: u128 },
}

/// The program's state.
#[derive(Clone, Debug)]
pub struct Ico {
    pub admin: ActorId,
    pub investors: Vec<ActorId>,
    pub price: u128,
    pub min_purchase: u128,
    pub max_purchase: u128,
    pub ft_contract_id: ActorId,
    pub end: u64,
    pub available_tokens: u128,
}

/// The terms of a sale, as the `Start` message gives them.
#[derive(Clone, Copy, Debug, PartialEq, Eq)]
pub struct SaleTerms {
    pub ft_contract_id: ActorId,
    pub duration: u64,
    pub price: u128,
    pub available_tokens: u128,
    pub min_purchase: u128,
    pub max_purchase: u128,
}

/// The state of the ICO with its investors as a sequence.
pub struct IcoView {
    pub admin: ActorId,
    pub investors: Seq<ActorId>,
    pub price: u128,
    pub min_purchase: u128,
    pub max_purchase: u128,
    pub ft_contract_id: ActorId,
    pub end: u64,
    pub available_tokens: u128,
}

impl View for Ico {
    type V = IcoView;

    open spec fn view(&self) -> IcoView {
        IcoView {
            admin: self.admin,
            investors: self.investors@,
            price: self.price,
            min_purchase: self.min_purchase,
            max_purchase: self.max_purchase,
            ft_contract_id: self.ft_contract_id,
            end: self.end,
            available_tokens: self.available_tokens,
        }
    }
}

/// A new ICO administered by `admin`, with nothing on sale.
pub open spec fn new_ico(admin: ActorId) -> IcoView {
    IcoView {
        admin,
        investors: Seq::empty(),
        price: 0,
        min_purchase: 0,
        max_purchase: 0,
        ft_contract_id: zero_actor(),
        end: 0,
        available_tokens: 0,
    }
}

/// The first refusal of the terms of a sale, given the token's total supply.
pub open spec fn terms_refusal(terms: SaleTerms, total_supply: u128) -> Option<IcoError> {
    if terms.available_tokens == 0 || terms.available_tokens > total_supply {
        Some(IcoError::BadAvailableTokens)
    } else if terms.duration == 0 || terms.price == 0 || terms.min_purchase == 0 || terms.max_purchase == 0 {
        Some(IcoError::ZeroParameter)
    } else if terms.max_purchase >= terms.available_tokens * terms.price {
        Some(IcoError::MaxPurchaseTooHigh)
    } else {
        None
    }
}

/// Whether checking the terms stays within `u128`: the product of tokens and
/// price is only formed once the earlier checks pass.
pub open spec fn terms_fit(terms: SaleTerms, total_supply: u128) -> bool {
    (terms.available_tokens != 0 && terms.available_tokens <= total_supply && terms.duration != 0
        && terms.price != 0 && terms.min_purchase != 0 && terms.max_purchase != 0)
        ==> terms.available_tokens * terms.price <= u128::MAX
}

impl IcoView {
    /// Tokens are on sale only at a price above zero.
    pub open spec fn wf(self) -> bool {
        self.available_tokens > 0 ==> self.price > 0
    }

    /// Whether `a` is a listed investor.
    pub open spec fn is_investor(self, a: ActorId) -> bool {
        exists|i: int| 0 <= i < self.investors.len() && #[trigger] self.investors[i]@ == a@
    }

    /// What listing an investor does: only the admin may.
    pub open spec fn add_investor_result(self, source: ActorId, account: ActorId) -> Result<IcoView, IcoError> {
        if source@ != self.admin@ {
            Err(IcoError::NotAdmin)
        } else {
            Ok(IcoView { investors: self.investors.push(account), ..self })
        }
    }

    /// The first refusal of a request to start the sale, if any.
    pub open spec fn start_refusal(self, source: ActorId) -> Option<IcoError> {
        if source@ != self.admin@ {
            Some(IcoError::NotAdmin)
        } else if self.end > 0 {
            Some(IcoError::AlreadyStarted)
        } else {
            None
        }
    }

    /// The sale once accepted terms are in force from `now`.
    pub open spec fn after_start(self, terms: SaleTerms, now: u64) -> IcoView {
        IcoView {
            ft_contract_id: terms.ft_contract_id,
            price: terms.price,
            available_tokens: terms.available_tokens,
            min_purchase: terms.min_purchase,
            max_purchase: terms.max_purchase,
            end: (now + terms.duration) as u64,
            ..self
        }
    }

    /// The first refusal of a purchase, if any.
    pub open spec fn buy_refusal(self, source: ActorId, value: u128, now: u64) -> Option<IcoError> {
        if !self.is_investor(source) {
            Some(IcoError::NotInvestor)
        } else if self.available_tokens == 0 || now > self.end {
            Some(IcoError::NotActive)
        } else if value < self.min_purchase || value > self.max_purchase {
            Some(IcoError::PurchaseOutOfRange)
        } else if value / self.price > self.available_tokens {
            Some(IcoError::NotEnoughTokens)
        } else {
            None
        }
    }

    /// The sale after a purchase that is not refused: `value / price` tokens leave it.
    pub open spec fn after_buy(self, value: u128) -> IcoView {
        IcoView { available_tokens: (self.available_tokens - value / self.price) as u128, ..self }
    }

    /// The first refusal of a withdrawal, if any.
    pub open spec fn withdraw_refusal(self, source: ActorId, now: u64) -> Option<IcoError> {
        if source@ != self.admin@ {
            Some(IcoError::NotAdmin)
        } else if now <= self.end {
            Some(IcoError::NotEnded)
        } else if self.available_tokens == 0 {
            Some(IcoError::NothingToWithdraw)
        } else {
            None
        }
    }
}

impl Ico {
    /// A new ICO whose admin is the creator of the program.
    pub fn new(source: ActorId) -> (r: Ico)
        ensures
            r@ == new_ico(source),
    {
        let r = Ico {
            admin: source,
            investors: Vec::new(),
            price: 0,
            min_purchase: 0,
            max_purchase: 0,
            ft_contract_id: ActorId::zero(),
            end: 0,
            available_tokens: 0,
        };
        assert(r@ =~= new_ico(source));
        r
    }

    fn assert_admin(&self, source: ActorId) -> (r: Result<(), IcoError>)
        ensures
            r == (if source@ == self.admin@ {
                Ok(())
            } else {
                Err(IcoError::NotAdmin)
            }),
    {
        if !source.view_eq(&self.admin) {
            Err(IcoError::NotAdmin)
        } else {
            Ok(())
        }
    }

    fn has_investor(&self, a: &ActorId) -> (r: bool)
        ensures
            r == self@.is_investor(*a),
    {
        let mut i: usize = 0;
        while i < self.investors.len()
            invariant
                0 <= i <= self.investors@.len(),
                forall|j: int| 0 <= j < i ==> self.investors@[j]@ != a@,
            decreases self.investors.len() - i,
        {
            if self.investors[i].view_eq(a) {
                assert(self@.investors[i as int]@ == a@);
                return true;
            }
            i = i + 1;
        }
        false
    }

    /// The admin lists `account` as an investor.
    pub fn add_investor(&mut self, source: ActorId, account: ActorId) -> (r: Result<(), IcoError>)
        ensures
            match old(self)@.add_investor_result(source, account) {
                Ok(v) => r is Ok && final(self)@ == v,
                Err(e) => r == Err::<(), IcoError>(e) && final(self)@ == old(self)@,
            },
    {
        self.assert_admin(source)?;
        self.investors.push(account);
        Ok(())
    }

    /// The admin asks to start a sale of tokens of `ft_contract_id`. Before the
    /// sale can start, the total supply of that token program must be asked for;
    /// this decides whether to ask, and whom.
    pub fn start(&self, source: ActorId, ft_contract_id: ActorId) -> (r: Result<IcoEffect, IcoError>)
        ensures
            r == (match self@.start_refusal(source) {
                Some(e) => Err(e),
                None => Ok(IcoEffect::AskTotalSupply { ft_contract_id }),
            }),
    {
        self.assert_admin(source)?;
        if self.end > 0 {
            return Err(IcoError::AlreadyStarted);
        }
        Ok(IcoEffect::AskTotalSupply { ft_contract_id })
    }

    /// Continues starting a sale once the token program reported `total_supply`:
    /// the terms are checked, the sale runs from `now` for the duration, and the
    /// reply reports price and tokens on sale.
    pub fn start_with_supply(&mut self, terms: SaleTerms, total_supply: u128, now: u64) -> (r: Result<
        Vec<IcoEffect>,
        IcoError,
    >)
        requires
            old(self)@.wf(),
            terms_fit(terms, total_supply),
            terms_refusal(terms, total_supply) is None ==> now + terms.duration <= u64::MAX,
        ensures
            final(self)@.wf(),
            match terms_refusal(terms, total_supply) {
                Some(e) => r == Err::<Vec<IcoEffect>, IcoError>(e) && final(self)@ == old(self)@,
                None => r is Ok && r->Ok_0@ == seq![
                    IcoEffect::Reply {
                        event: ICOEvent::ICOStarted {
                            price: terms.price,
                            available_tokens: terms.available_tokens,
                        },
                        value: 0,
                    },
                ] && final(self)@ == old(self)@.after_start(terms, now),
            },
    {
        if terms.available_tokens == 0 || terms.available_tokens > total_supply {
            return Err(IcoError::BadAvailableTokens);
        }
        if terms.duration == 0 || terms.price == 0 || terms.min_purchase == 0 || terms.max_purchase == 0 {
            return Err(IcoError::ZeroParameter);
        }
        if terms.max_purchase >= terms.available_tokens * terms.price {
            return Err(IcoError::MaxPurchaseTooHigh);
        }
        self.ft_contract_id = terms.ft_contract_id;
        self.price = terms.price;
        self.available_tokens = terms.available_tokens;
        self.min_purchase = terms.min_purchase;
        self.max_purchase = terms.max_purchase;
        self.end = now + terms.duration;
        Ok(
            vec![
                IcoEffect::Reply {
                    event: ICOEvent::ICOStarted { price: self.price, available_tokens: self.available_tokens },
                    value: 0,
                },
            ],
        )
    }

    /// A listed investor buys with the attached value, during the sale and within
    /// the purchase limits: the value buys `value / price` tokens, which leave the
    /// sale; the program then transfers them from itself (`program`) to the buyer
    /// and replies with the amount.
    pub fn buy(&mut self, source: ActorId, value: u128, now: u64, program: ActorId) -> (r: Result<
        Vec<IcoEffect>,
        IcoError,
    >)
        requires
            old(self)@.wf(),
        ensures
            final(self)@.wf(),
            match old(self)@.buy_refusal(source, value, now) {
                Some(e) => r == Err::<Vec<IcoEffect>, IcoError>(e) && final(self)@ == old(self)@,
                None => {
                    let amount = (value / old(self).price) as u128;
                    &&& r is Ok
                    &&& r->Ok_0@ == seq![
                        IcoEffect::TransferTokens {
                            ft_contract_id: old(self).ft_contract_id,
                            from: program,
                            to: source,
                            amount,
                        },
                        IcoEffect::Reply { event: ICOEvent::TokensTransferred { amount }, value: 0 },
                    ]
                    &&& final(self)@ == old(self)@.after_buy(value)
                },
            },
    {
        if !self.has_investor(&source) {
            return Err(IcoError::NotInvestor);
        }
        if self.available_tokens == 0 || now > self.end {
            return Err(IcoError::NotActive);
        }
        if value < self.min_purchase || value > self.max_purchase {
            return Err(IcoError::PurchaseOutOfRange);
        }
        let amount = value / self.price;
        if amount > self.available_tokens {
            return Err(IcoError::NotEnoughTokens);
        }
        self.available_tokens = self.available_tokens - amount;
        Ok(
            vec![
                IcoEffect::TransferTokens { ft_contract_id: self.ft_contract_id, from: program, to: source, amount },
                IcoEffect::Reply { event: ICOEvent::TokensTransferred { amount }, value: 0 },
            ],
        )
    }

    /// The admin withdraws, after the sale, what is left of the tokens to `to`:
    /// this decides whether to ask the token program for the transfer, and of what.
    pub fn withdraw(&self, source: ActorId, to: ActorId, now: u64, program: ActorId) -> (r: Result<
        IcoEffect,
        IcoError,
    >)
        ensures
            r == (match self@.withdraw_refusal(source, now) {
                Some(e) => Err(e),
                None => Ok(
                    IcoEffect::TransferTokens {
                        ft_contract_id: self.ft_contract_id,
                        from: program,
                        to: to,
                        amount: self.available_tokens,
                    },
                ),
            }),
    {
        self.assert_admin(source)?;
        if now <= self.end {
            return Err(IcoError::NotEnded);
        }
        if self.available_tokens == 0 {
            return Err(IcoError::NothingToWithdraw);
        }
        Ok(
            IcoEffect::TransferTokens {
                ft_contract_id: self.ft_contract_id,
                from: program,
                to,
                amount: self.available_tokens,
            },
        )
    }

    /// Finishes a withdrawal once the token program answered: the reply reports
    /// the tokens left on sale, and none are left after it.
    pub fn withdraw_finish(&mut self) -> (r: ICOEvent)
        requires
            old(self)@.wf(),
        ensures
            final(self)@.wf(),
            r == (ICOEvent::TokensWithdrawn { amount: old(self).available_tokens }),
            final(self)@ == (IcoView { available_tokens: 0, ..old(self)@ }),
    {
        let amount = self.available_tokens;
        self.available_tokens = 0;
        ICOEvent::TokensWithdrawn { amount }
    }
}

/// One message to the ICO, with what the runtime and the token program report.
pub enum IcoCall {
    AddInvestor { source: ActorId, account: ActorId },
    /// A start request, continued with the total supply the token program reported.
    Start { source: ActorId, terms: SaleTerms, total_supply: u128, now: u64 },
    Buy { source: ActorId, value: u128, now: u64 },
    /// A withdrawal, finished once the token program answered.
    Withdraw { source: ActorId, to: ActorId, now: u64 },
}

/// The ICO after one message, with the tokens that message sold and withdrew.
pub open spec fn after_call(ico: IcoView, call: IcoCall) -> (IcoView, nat, nat) {
    match call {
        IcoCall::AddInvestor { source, account } => match ico.add_investor_result(source, account) {
            Ok(v) => (v, 0, 0),
            Err(_) => (ico, 0, 0),
        },
        IcoCall::Start { source, terms, total_supply, now } => if ico.start_refusal(source) is None
            && terms_refusal(terms, total_supply) is None {
            (ico.after_start(terms, now), 0, 0)
        } else {
            (ico, 0, 0)
        },
        IcoCall::Buy { source, value, now } => if ico.buy_refusal(source, value, now) is None {
            (ico.after_buy(value), (value / ico.price) as nat, 0)
        } else {
            (ico, 0, 0)
        },
        IcoCall::Withdraw { source, to, now } => if ico.withdraw_refusal(source, now) is None {
            (IcoView { available_tokens: 0, ..ico }, 0, ico.available_tokens as nat)
        } else {
            (ico, 0, 0)
        },
    }
}

/// The ICO after a run of messages, with the tokens the run sold and withdrew.
pub open spec fn run_calls(ico: IcoView, calls: Seq<IcoCall>) -> (IcoView, nat, nat)
    decreases calls.len(),
{
    if calls.len() == 0 {
        (ico, 0, 0)
    } else {
        let (before, sold, withdrawn) = run_calls(ico, calls.drop_last());
        let (after, s, w) = after_call(before, calls.last());
        (after, sold + s, withdrawn + w)
    }
}

/// Tokens are neither made nor lost once a sale has started: over any run of
/// messages (investors listed, further start requests, purchases, withdrawals),
/// the tokens still on sale, the tokens sold and the tokens withdrawn add up to
/// the tokens on sale at the start of the run; the tokens on sale never grow, and
/// remain on sale only at a price above zero.
pub proof fn lemma_sale_conserves_tokens(ico: IcoView, calls: Seq<IcoCall>)
    requires
        ico.wf(),
        ico.end > 0,
    ensures
        ({
            let (after, sold, withdrawn) = run_calls(ico, calls);
            &&& after.available_tokens + sold + withdrawn == ico.available_tokens
            &&& after.available_tokens <= ico.available_tokens
            &&& after.wf()
            &&& after.end == ico.end
            &&& after.price == ico.price
        }),
    decreases calls.len(),
{
    if calls.len() > 0 {
        lemma_sale_conserves_tokens(ico, calls.drop_last());
    }
}

/// A purchase gets the largest whole number of tokens that the attached value
/// pays for at the sale price.
pub proof fn lemma_purchase_amount(ico: IcoView, source: ActorId, value: u128, now: u64)
    requires
        ico.wf(),
        ico.buy_refusal(source, value, now) is None,
    ensures
        (value / ico.price) * ico.price <= value,
        value < (value / ico.price + 1) * ico.price,
{
    let p = ico.price as int;
    let v = value as int;
    assert(p > 0);
    vstd::arithmetic::div_mod::lemma_fundamental_div_mod(v, p);
    assert(0 <= v % p < p) by {
        vstd::arithmetic::div_mod::lemma_mod_pos_bound(v, p);
    }
    assert((v / p) * p == p * (v / p)) by (nonlinear_arith);
    assert((v / p + 1) * p == p * (v / p) + p) by (nonlinear_arith);
}

/// Once nothing is left on sale (sold out or withdrawn), every purchase is refused.
pub proof fn lemma_empty_sale_refuses_purchases(ico: IcoView, source: ActorId, value: u128, now: u64)
    requires
        ico.available_tokens == 0,
    ensures
        ico.buy_refusal(source, value, now) is Some,
{
}

/// A sale is started at most once: once terms are accepted at time `now`, the
/// sale ends at `now + duration`, and any further request to start is refused.
pub proof fn lemma_sale_starts_once(ico: IcoView, terms: SaleTerms, total_supply: u128, now: u64, source: ActorId)
    requires
        terms_refusal(terms, total_supply) is None,
        now + terms.duration <= u64::MAX,
    ensures
        ico.after_start(terms, now).start_refusal(source) is Some,
{
}

/// Creates the program's ICO: its creator is the admin.
pub fn init(source: ActorId) -> (r: Ico)
    ensures
        r@ == new_ico(source),
        r@.wf(),
{
    Ico::new(source)
}

} // verus!
