use gear_dapps::ft_io::{total_supply_of, FTEvent};
use gear_dapps::ico::{init, Ico, IcoEffect, IcoError, ICOEvent, SaleTerms};
use gear_dapps::ids::ActorId;

const DURATION: u64 = 1_000_000;
const PRICE: u128 = 100;
const AVAILABLE_TOKENS: u128 = 1_000_000;
const MIN_PURCHASE: u128 = 1_000;
const MAX_PURCHASE: u128 = 50_000_000;
const INVESTORS: &[u64] = &[3, 4, 5, 6, 7];
const ADMIN: u64 = 10;
const FT: u64 = 1;
const ICO_PROGRAM: u64 = 2;
const NOW: u64 = 100;

fn actor(n: u64) -> ActorId {
    let mut bytes = [0u8; 32];
    bytes[..8].copy_from_slice(&n.to_le_bytes());
    ActorId { bytes }
}

/// The token program minted 1_000_000 to the admin, who moved them to the ICO.
fn token_reply() -> FTEvent {
    FTEvent::TotalSupply(1_000_000)
}

fn init_ico() -> Ico {
    init(actor(ADMIN))
}

fn start(
    ico: &mut Ico,
    from: u64,
    duration: u64,
    price: u128,
    available_tokens: u128,
    min_purchase: u128,
    max_purchase: u128,
) -> Result<Vec<IcoEffect>, IcoError> {
    let ask = ico.start(actor(from), actor(FT))?;
    assert_eq!(ask, IcoEffect::AskTotalSupply { ft_contract_id: actor(FT) });
    let supply = total_supply_of(&token_reply());
    let terms = SaleTerms { ft_contract_id: actor(FT), duration, price, available_tokens, min_purchase, max_purchase };
    ico.start_with_supply(terms, supply, NOW)
}

fn add_investor(ico: &mut Ico, from: u64, investor: u64) -> Result<(), IcoError> {
    ico.add_investor(actor(from), actor(investor))
}

fn buy(ico: &mut Ico, from: u64, amount: u128) -> Result<Vec<IcoEffect>, IcoError> {
    ico.buy(actor(from), amount, NOW, actor(ICO_PROGRAM))
}

#[test]
fn start_success() {
    let mut ico = init_ico();
    let res = start(&mut ico, ADMIN, DURATION, PRICE, AVAILABLE_TOKENS, MIN_PURCHASE, MAX_PURCHASE).unwrap();
    assert!(res.contains(&IcoEffect::Reply {
        event: ICOEvent::ICOStarted { price: PRICE, available_tokens: AVAILABLE_TOKENS },
        value: 0,
    }));
}

#[test]
fn buy_success() {
    let mut ico = init_ico();
    assert!(start(&mut ico, ADMIN, DURATION, PRICE, AVAILABLE_TOKENS, MIN_PURCHASE, MAX_PURCHASE).is_ok());
    assert!(add_investor(&mut ico, ADMIN, INVESTORS[0]).is_ok());
    let res = buy(&mut ico, INVESTORS[0], 10_002).unwrap();
    assert!(res.contains(&IcoEffect::Reply { event: ICOEvent::TokensTransferred { amount: 100 }, value: 0 }));
}

#[test]
fn sold_out() {
    let mut ico = init_ico();
    assert!(start(&mut ico, ADMIN, DURATION, PRICE, AVAILABLE_TOKENS, MIN_PURCHASE, MAX_PURCHASE).is_ok());
    INVESTORS.iter().for_each(|investor| {
        assert!(add_investor(&mut ico, ADMIN, *investor).is_ok());
    });
    assert!(buy(&mut ico, INVESTORS[0], 10_000_000).is_ok());
    assert!(buy(&mut ico, INVESTORS[1], 20_000_000).is_ok());
    assert!(buy(&mut ico, INVESTORS[2], 30_000_000).is_ok());
    assert!(buy(&mut ico, INVESTORS[3], 40_000_000).is_ok());
}

#[test]
fn purchases_move_tokens_from_the_program_to_the_buyer() {
    let mut ico = init_ico();
    start(&mut ico, ADMIN, DURATION, PRICE, AVAILABLE_TOKENS, MIN_PURCHASE, MAX_PURCHASE).unwrap();
    add_investor(&mut ico, ADMIN, 3).unwrap();
    let res = buy(&mut ico, 3, 10_099).unwrap();
    assert_eq!(
        res,
        vec![
            IcoEffect::TransferTokens { ft_contract_id: actor(FT), from: actor(ICO_PROGRAM), to: actor(3), amount: 100 },
            IcoEffect::Reply { event: ICOEvent::TokensTransferred { amount: 100 }, value: 0 },
        ]
    );
    assert_eq!(ico.available_tokens, AVAILABLE_TOKENS - 100);
}

#[test]
fn sold_and_left_add_up() {
    let mut ico = init_ico();
    start(&mut ico, ADMIN, DURATION, PRICE, AVAILABLE_TOKENS, MIN_PURCHASE, MAX_PURCHASE).unwrap();
    for i in INVESTORS {
        add_investor(&mut ico, ADMIN, *i).unwrap();
    }
    let mut sold = 0u128;
    for (i, value) in [10_000_000u128, 20_000_000, 30_000_000, 40_000_000].iter().enumerate() {
        let res = buy(&mut ico, INVESTORS[i], *value).unwrap();
        if let IcoEffect::TransferTokens { amount, .. } = res[0] {
            sold += amount;
        }
    }
    assert_eq!(sold + ico.available_tokens, AVAILABLE_TOKENS);
    assert_eq!(ico.available_tokens, 0);
    // sold out: any further purchase is refused
    assert_eq!(buy(&mut ico, INVESTORS[4], 1_000), Err(IcoError::NotActive));
}

#[test]
fn sale_start_refusals() {
    let mut ico = init_ico();
    assert_eq!(ico.start(actor(3), actor(FT)), Err(IcoError::NotAdmin));
    let t = |available_tokens, duration, price, min_purchase, max_purchase| SaleTerms {
        ft_contract_id: actor(FT),
        duration,
        price,
        available_tokens,
        min_purchase,
        max_purchase,
    };
    assert_eq!(ico.start_with_supply(t(0, 1, 1, 1, 1), 10, NOW), Err(IcoError::BadAvailableTokens));
    assert_eq!(ico.start_with_supply(t(11, 1, 1, 1, 1), 10, NOW), Err(IcoError::BadAvailableTokens));
    assert_eq!(ico.start_with_supply(t(10, 0, 1, 1, 1), 10, NOW), Err(IcoError::ZeroParameter));
    assert_eq!(ico.start_with_supply(t(10, 1, 0, 1, 1), 10, NOW), Err(IcoError::ZeroParameter));
    assert_eq!(ico.start_with_supply(t(10, 1, 1, 0, 1), 10, NOW), Err(IcoError::ZeroParameter));
    assert_eq!(ico.start_with_supply(t(10, 1, 1, 1, 0), 10, NOW), Err(IcoError::ZeroParameter));
    assert_eq!(ico.start_with_supply(t(10, 1, 2, 1, 20), 10, NOW), Err(IcoError::MaxPurchaseTooHigh));
    assert_eq!(ico.end, 0);
    assert!(ico.start_with_supply(t(10, 5, 2, 1, 19), 10, NOW).is_ok());
    assert_eq!(ico.end, NOW + 5);
    assert_eq!(ico.start(actor(ADMIN), actor(FT)), Err(IcoError::AlreadyStarted));
}

#[test]
fn buy_refusals() {
    let mut ico = init_ico();
    add_investor(&mut ico, ADMIN, 3).unwrap();
    assert_eq!(add_investor(&mut ico, 3, 4), Err(IcoError::NotAdmin));
    // not started
    assert_eq!(buy(&mut ico, 3, 5_000), Err(IcoError::NotActive));
    start(&mut ico, ADMIN, DURATION, PRICE, 1_000, MIN_PURCHASE, 99_999).unwrap();
    assert_eq!(buy(&mut ico, 4, 5_000), Err(IcoError::NotInvestor));
    assert_eq!(buy(&mut ico, 3, 999), Err(IcoError::PurchaseOutOfRange));
    assert_eq!(buy(&mut ico, 3, 100_000), Err(IcoError::PurchaseOutOfRange));
    assert_eq!(ico.buy(actor(3), 5_000, NOW + DURATION + 1, actor(ICO_PROGRAM)), Err(IcoError::NotActive));
    buy(&mut ico, 3, 99_999).unwrap();
    assert_eq!(ico.available_tokens, 1);
    assert_eq!(buy(&mut ico, 3, 20_000), Err(IcoError::NotEnoughTokens));
}

#[test]
fn withdraw_after_the_sale() {
    let mut ico = init_ico();
    start(&mut ico, ADMIN, DURATION, PRICE, AVAILABLE_TOKENS, MIN_PURCHASE, MAX_PURCHASE).unwrap();
    let end = NOW + DURATION;
    assert_eq!(ico.withdraw(actor(3), actor(ADMIN), end + 1, actor(ICO_PROGRAM)), Err(IcoError::NotAdmin));
    assert_eq!(ico.withdraw(actor(ADMIN), actor(ADMIN), end, actor(ICO_PROGRAM)), Err(IcoError::NotEnded));
    let transfer = ico.withdraw(actor(ADMIN), actor(9), end + 1, actor(ICO_PROGRAM)).unwrap();
    assert_eq!(
        transfer,
        IcoEffect::TransferTokens {
            ft_contract_id: actor(FT),
            from: actor(ICO_PROGRAM),
            to: actor(9),
            amount: AVAILABLE_TOKENS,
        }
    );
    assert_eq!(ico.withdraw_finish(), ICOEvent::TokensWithdrawn { amount: AVAILABLE_TOKENS });
    assert_eq!(ico.available_tokens, 0);
    assert_eq!(
        ico.withdraw(actor(ADMIN), actor(9), end + 1, actor(ICO_PROGRAM)),
        Err(IcoError::NothingToWithdraw)
    );
}

#[test]
fn total_supply_of_other_replies_is_zero() {
    assert_eq!(total_supply_of(&FTEvent::TotalSupply(42)), 42);
    assert_eq!(
        total_supply_of(&FTEvent::Transfer { from: actor(1), to: actor(2), amount: 5 }),
        0
    );
}

#[test]
fn sold_withdrawn_and_left_add_up() {
    let mut ico = init_ico();
    start(&mut ico, ADMIN, DURATION, PRICE, AVAILABLE_TOKENS, MIN_PURCHASE, MAX_PURCHASE).unwrap();
    add_investor(&mut ico, ADMIN, 3).unwrap();
    add_investor(&mut ico, ADMIN, 4).unwrap();
    let mut sold = 0u128;
    for (who, value) in [(3u64, 10_000_000u128), (4, 25_050), (3, 999)] {
        if let Ok(res) = buy(&mut ico, who, value) {
            if let IcoEffect::TransferTokens { amount, .. } = res[0] {
                sold += amount;
            }
        }
    }
    // a second start is refused and changes nothing
    assert_eq!(start(&mut ico, ADMIN, 1, 1, 1, 1, 0), Err(IcoError::AlreadyStarted));
    let after_end = NOW + DURATION + 1;
    let mut withdrawn = 0u128;
    if let Ok(IcoEffect::TransferTokens { .. }) = ico.withdraw(actor(ADMIN), actor(ADMIN), after_end, actor(ICO_PROGRAM)) {
        if let ICOEvent::TokensWithdrawn { amount } = ico.withdraw_finish() {
            withdrawn = amount;
        }
    }
    assert_eq!(sold, 100_000 + 250);
    assert_eq!(ico.available_tokens + sold + withdrawn, AVAILABLE_TOKENS);
    assert_eq!(ico.available_tokens, 0);
}
