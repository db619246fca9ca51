//! A sealed-bid auction of non-fungible tokens. A seller puts a token on sale;
//! bidders send the hash of their bid and a secret nonce; bids are then revealed,
//! and the highest revealed bidder collects the token, paying in a fungible token.
use vstd::prelude::*;
use crate::assoc_map::AssocMap;
use crate::ids::{ActorId, H256, U256, ViewEq, u256_value, zero_actor};

verus! {

/// The lowercase hexadecimal digit of `d` (below 16).
pub open spec fn hex_digit(d: int) -> char {
    if d < 10 {
        (48 + d) as char
    } else {
        (87 + d) as char
    }
}

/// A byte as two lowercase hexadecimal digits.
pub open spec fn hex_byte(b: u8) -> Seq<char> {
    seq![hex_digit(b as int / 16), hex_digit(b as int % 16)]
}

/// The short display of a 32-byte hash: `0x`, its first two bytes in hex, an
/// ellipsis, and its last two bytes in hex.
pub open spec fn short_hex(b: Seq<u8>) -> Seq<char> {
    seq!['0', 'x'] + hex_byte(b[0]) + hex_byte(b[1]) + seq!['\u{2026}'] + hex_byte(b[30]) + hex_byte(b[31])
}

/// The decimal digits of `n`, without leading zeros.
pub open spec fn decimal(n: nat) -> Seq<char>
    decreases n,
{
    if n < 10 {
        seq![(48 + n) as char]
    } else {
        decimal(n / 10).push((48 + n % 10) as char)
    }
}

/// The key under which the auction of `token_id` of the program `nft` is kept:
/// the short display of the program's address followed by the token id in decimal.
pub open spec fn auction_key(nft: ActorId, token_id: U256) -> Seq<char> {
    short_hex(nft@) + decimal(u256_value(token_id@))
}

/// The text that `primitive_types::H256` displays for `bytes`: by the
/// `Display` impl of fixed-hash, `0x`, bytes 0 and 1 as two lowercase hex digits
/// each, `…`, then bytes 30 and 31 likewise.
#[verifier::external_body]
fn display_h256(bytes: &[u8; 32]) -> (r: String)
    ensures
        r@ == short_hex(bytes@),
{
    format!("{}", primitive_types::H256(*bytes))
}

/// The text that `primitive_types::U256` displays for the number with these
/// words: by the `Display` impl of uint, its decimal digits without leading
/// zeros, and `0` for zero.
#[verifier::external_body]
fn display_u256(words: &[u64; 4]) -> (r: String)
    ensures
        r@ == decimal(u256_value(words@)),
{
    format!("{}", primitive_types::U256(*words))
}

/// The key under which the auction of `token_id` of the program `nft` is kept.
pub fn contract_and_token_id(nft: &ActorId, token_id: &U256) -> (r: String)
    ensures
        r@ == auction_key(*nft, *token_id),
{
    let head = display_h256(&nft.bytes);
    let tail = display_u256(&token_id.words);
    head.concat(tail.as_str())
}

/// The BLAKE2b-256 digest of `data`.
pub uninterp spec fn spec_blake2_256(data: Seq<u8>) -> Seq<u8>;

/// `sp_core_hashing::blake2_256`: the 32-byte BLAKE2b digest of `data`. Only
/// that the result is a function of `data` is stated.
#[verifier::external_body]
fn blake2_256(data: &[u8]) -> (r: [u8; 32])
    ensures
        r@ == spec_blake2_256(data@),
{
    sp_core_hashing::blake2_256(data)
}

/// The last `n` bytes of the big-endian encoding of `x`.
pub open spec fn be_bytes(x: nat, n: nat) -> Seq<u8>
    decreases n,
{
    if n == 0 {
        Seq::empty()
    } else {
        be_bytes(x / 256, (n - 1) as nat).push((x % 256) as u8)
    }
}

/// The big-endian encoding of `x` in `n` bytes (`to_be_bytes` for `n == 16`).
fn to_be_bytes(x: u128, n: usize) -> (r: Vec<u8>)
    ensures
        r@ == be_bytes(x as nat, n as nat),
    decreases n,
{
    if n == 0 {
        Vec::new()
    } else {
        let mut r = to_be_bytes(x / 256, n - 1);
        r.push((x % 256) as u8);
        r
    }
}

/// The number that a big-endian byte sequence stands for.
pub open spec fn be_value(s: Seq<u8>) -> nat
    decreases s.len(),
{
    if s.len() == 0 {
        0
    } else {
        be_value(s.drop_last()) * 256 + s.last() as nat
    }
}

/// `256` to the power `n`.
pub open spec fn pow256(n: nat) -> nat
    decreases n,
{
    if n == 0 {
        1
    } else {
        256 * pow256((n - 1) as nat)
    }
}

proof fn lemma_pow256_positive(n: nat)
    ensures
        pow256(n) > 0,
    decreases n,
{
    if n > 0 {
        lemma_pow256_positive((n - 1) as nat);
    }
}

/// The encoding in `n` big-endian bytes keeps exactly the number modulo `256^n`.
pub proof fn lemma_be_bytes_value(x: nat, n: nat)
    ensures
        be_bytes(x, n).len() == n,
        be_value(be_bytes(x, n)) == x % pow256(n),
    decreases n,
{
    if n == 0 {
        assert(x % 1 == 0) by (nonlinear_arith);
    } else {
        let m = (n - 1) as nat;
        lemma_be_bytes_value(x / 256, m);
        lemma_pow256_positive(m);
        let s = be_bytes(x, n);
        assert(s.drop_last() =~= be_bytes(x / 256, m));
        assert(s.last() as nat == x % 256);
        vstd::arithmetic::div_mod::lemma_mod_breakdown(x as int, 256, pow256(m) as int);
    }
}

/// Two byte sequences of one length that stand for the same number are equal.
pub proof fn lemma_be_value_injective(s: Seq<u8>, t: Seq<u8>)
    requires
        s.len() == t.len(),
        be_value(s) == be_value(t),
    ensures
        s == t,
    decreases s.len(),
{
    if s.len() > 0 {
        let x = be_value(s.drop_last()) as int;
        let y = be_value(t.drop_last()) as int;
        let a = s.last() as int;
        let b = t.last() as int;
        assert(x == y && a == b) by (nonlinear_arith)
            requires
                x * 256 + a == y * 256 + b,
                0 <= a < 256,
                0 <= b < 256,
        ;
        lemma_be_value_injective(s.drop_last(), t.drop_last());
        assert(s =~= s.drop_last().push(s.last()));
        assert(t =~= t.drop_last().push(t.last()));
    }
}

/// A `u128` encodes as 16 big-endian bytes that stand for exactly that number,
/// so distinct numbers never share an encoding.
pub proof fn lemma_u128_be_bytes(x: u128)
    ensures
        be_bytes(x as nat, 16).len() == 16,
        be_value(be_bytes(x as nat, 16)) == x,
{
    lemma_be_bytes_value(x as nat, 16);
    reveal_with_fuel(pow256, 17);
    assert(pow256(16) == 0x1_0000_0000_0000_0000_0000_0000_0000_0000);
    assert((x as nat) % pow256(16) == x as nat) by (nonlinear_arith)
        requires
            pow256(16) == 0x1_0000_0000_0000_0000_0000_0000_0000_0000,
            x < 0x1_0000_0000_0000_0000_0000_0000_0000_0000,
    ;
}

/// The committed hash of a price and a nonce is the digest of the 32 bytes whose
/// first 16 stand, big-endian, for the price and whose last 16 stand for the
/// nonce: every such byte string gives the same digest as the bid.
pub proof fn lemma_bid_hash_of_encoding(price: u128, nonce: u128, data: Seq<u8>)
    requires
        data.len() == 32,
        be_value(data.subrange(0, 16)) == price,
        be_value(data.subrange(16, 32)) == nonce,
    ensures
        bid_hash(price, nonce) == spec_blake2_256(data),
{
    lemma_u128_be_bytes(price);
    lemma_u128_be_bytes(nonce);
    lemma_be_value_injective(data.subrange(0, 16), be_bytes(price as nat, 16));
    lemma_be_value_injective(data.subrange(16, 32), be_bytes(nonce as nat, 16));
    assert(data =~= be_bytes(price as nat, 16) + be_bytes(nonce as nat, 16));
}

/// The hash a bidder commits to: the BLAKE2b-256 digest of the price and the
/// nonce, each as 16 big-endian bytes.
pub open spec fn bid_hash(price: u128, nonce: u128) -> Seq<u8> {
    spec_blake2_256(be_bytes(price as nat, 16) + be_bytes(nonce as nat, 16))
}

/// The hash a bidder commits to for `price` and `nonce`.
pub fn get_hash(price: u128, nonce: u128) -> (r: H256)
    ensures
        r@ == bid_hash(price, nonce),
{
    let mut data = to_be_bytes(price, 16);
    let mut tail = to_be_bytes(nonce, 16);
    data.append(&mut tail);
    H256 { bytes: blake2_256(data.as_slice()) }
}

/// The key type of the auctions: see `contract_and_token_id`.
pub type ContractAndTokenId = String;

/// One auction.
pub struct SBAuction {
    pub seller: ActorId,
    /// The fungible token that the winner pays in, if any.
    pub ft_contract_id: Option<ActorId>,
    pub duration: u64,
    pub min_price: u128,
    pub ended_at: u64,
    /// The hash each bidder committed to.
    pub bids: AssocMap<ActorId, H256>,
    pub highest_bid: u128,
    pub highest_bidder: ActorId,
}

/// One auction, with its bids as a map.
pub struct AuctionView {
    pub seller: ActorId,
    pub ft_contract_id: Option<ActorId>,
    pub duration: u64,
    pub min_price: u128,
    pub ended_at: u64,
    pub bids: Map<Seq<u8>, H256>,
    pub highest_bid: u128,
    pub highest_bidder: ActorId,
}

impl View for SBAuction {
    type V = AuctionView;

    open spec fn view(&self) -> AuctionView {
        AuctionView {
            seller: self.seller,
            ft_contract_id: self.ft_contract_id,
            duration: self.duration,
            min_price: self.min_price,
            ended_at: self.ended_at,
            bids: self.bids@,
            highest_bid: self.highest_bid,
            highest_bidder: self.highest_bidder,
        }
    }
}

/// What a message asks of the auction program.
#[derive(Clone, Copy, Debug, PartialEq, Eq)]
pub enum SBAuctionAction {
    StartAuction {
        nft_contract_id: ActorId,
        ft_contract_id: Option<ActorId>,
        token_id: U256,
        duration: u64,
        min_price: u128,
    },
    Bid { nft_contract_id: ActorId, token_id: U256, hash: H256 },
    Reveal { nft_contract_id: ActorId, token_id: U256, amount: u128, nonce: u128 },
    GetNFT { nft_contract_id: ActorId, token_id: U256 },
}

/// What the auction program replies.
#[derive(Clone, Copy, Debug, PartialEq, Eq)]
pub enum SBAuctionEvent {
    AuctionCreated { nft_contract_id: ActorId, token_id: U256, ended_at: u64, min_price: u128 },
    BidMade { nft_contract_id: ActorId, token_id: U256, hash: H256 },
    BidRevealed { nft_contract_id: ActorId, token_id: U256, amount: u128 },
    AuctionClosed { nft_contract_id: ActorId, token_id: U256 },
}

/// What the auction program is created with.
#[derive(Clone, Copy, Debug, PartialEq, Eq)]
pub struct InitSBAuctionsContract {
    pub minimum_duration: u64,
    pub revealing_period: u64,
}

/// Why the auction program refuses a message.
#[derive(Clone, Copy, Debug, PartialEq, Eq, Structural)]
pub enum AuctionError {
    /// An auction is already kept under the key of this token.
    AuctionExists,
    /// The duration is below the minimum duration.
    DurationTooShort,
    /// The minimum price is zero.
    ZeroMinPrice,
    /// No auction is kept under the key of this token.
    NoAuction,
    /// The auction has ended.
    AuctionEnded,
    /// The message came after the end of the auction and before the end of its
    /// revealing period.
    NotRevealTime,
    /// The sender has made no bid.
    NoBid,
    /// Amount and nonce do not hash to the sender's bid.
    WrongHash,
    /// The revealing period is over.
    RevealPeriodOver,
    /// The sender is not the highest bidder.
    NotWinner,
    /// The auction takes no fungible token and the attached value is not the highest bid.
    WrongValue,
    /// The auction takes no fungible token.
    NoTokenContract,
}

/// A message that the auction program sends and waits for, or its reply.
#[derive(Clone, Copy, Debug, PartialEq, Eq)]
pub enum SBAuctionEffect {
    /// Asks the token program to approve `to` for `token_id`.
    NftApprove { nft_program_id: ActorId, to: ActorId, token_id: U256 },
    /// Asks the fungible token program to move `amount` from `from` to `to`.
    TransferTokens { ft_contract_id: ActorId, from: ActorId, to: ActorId, amount: u128 },
    /// Asks the token program to transfer `token_id` to `to`.
    NftTransfer { nft_program_id: ActorId, to: ActorId, token_id: U256 },
    /// The reply to the message being handled.
    Reply { event: SBAuctionEvent, value: u128 },
}

/// An auction whose token approval is being asked for.
pub struct PendingAuction {
    pub key: String,
    pub seller: ActorId,
    pub nft_contract_id: ActorId,
    pub ft_contract_id: Option<ActorId>,
    pub token_id: U256,
    pub duration: u64,
    pub min_price: u128,
}

/// An auction whose winner is paying.
pub struct ClosingAuction {
    pub key: String,
    pub nft_contract_id: ActorId,
    pub token_id: U256,
}

/// The program's state.
pub struct SBAuctionsContract {
    pub auctions: AssocMap<String, SBAuction>,
    pub minimum_duration: u64,
    pub revealing_period: u64,
}

/// The program's state with its auctions as a map from keys.
pub struct ContractView {
    pub auctions: Map<Seq<char>, AuctionView>,
    pub minimum_duration: u64,
    pub revealing_period: u64,
}

impl View for SBAuctionsContract {
    type V = ContractView;

    open spec fn view(&self) -> ContractView {
        ContractView {
            auctions: self.auctions@.map_values(|a: SBAuction| a@),
            minimum_duration: self.minimum_duration,
            revealing_period: self.revealing_period,
        }
    }
}

impl ContractView {
    /// The first refusal of a request to start an auction.
    pub open spec fn start_refusal(self, nft: ActorId, token_id: U256, duration: u64, min_price: u128) -> Option<
        AuctionError,
    > {
        if self.auctions.contains_key(auction_key(nft, token_id)) {
            Some(AuctionError::AuctionExists)
        } else if duration < self.minimum_duration {
            Some(AuctionError::DurationTooShort)
        } else if min_price == 0 {
            Some(AuctionError::ZeroMinPrice)
        } else {
            None
        }
    }

    /// What a bid does.
    pub open spec fn bid_result(self, source: ActorId, nft: ActorId, token_id: U256, hash: H256, now: u64) -> Result<
        (ContractView, SBAuctionEvent),
        AuctionError,
    > {
        let key = auction_key(nft, token_id);
        if !self.auctions.contains_key(key) {
            Err(AuctionError::NoAuction)
        } else if self.auctions[key].ended_at < now {
            Err(AuctionError::AuctionEnded)
        } else {
            let a = self.auctions[key];
            Ok(
                (
                    ContractView {
                        auctions: self.auctions.insert(key, AuctionView { bids: a.bids.insert(source@, hash), ..a }),
                        ..self
                    },
                    SBAuctionEvent::BidMade { nft_contract_id: nft, token_id, hash },
                ),
            )
        }
    }

    /// Whether revealing stays within `u64`: the end of the revealing period is
    /// only computed after the auction ended.
    pub open spec fn reveal_fits(self, nft: ActorId, token_id: U256, now: u64) -> bool {
        let key = auction_key(nft, token_id);
        self.auctions.contains_key(key) && self.auctions[key].ended_at < now ==> self.auctions[key].ended_at
            + self.revealing_period <= u64::MAX
    }

    /// What revealing a bid does, given the hash that the revealed amount and
    /// nonce give.
    pub open spec fn reveal_result_with(
        self,
        source: ActorId,
        nft: ActorId,
        token_id: U256,
        amount: u128,
        revealed_hash: Seq<u8>,
        now: u64,
    ) -> Result<(ContractView, SBAuctionEvent), AuctionError> {
        let key = auction_key(nft, token_id);
        if !self.auctions.contains_key(key) {
            Err(AuctionError::NoAuction)
        } else {
            let a = self.auctions[key];
            if a.ended_at < now && now < a.ended_at + self.revealing_period {
                Err(AuctionError::NotRevealTime)
            } else if !a.bids.contains_key(source@) {
                Err(AuctionError::NoBid)
            } else if a.bids[source@]@ != revealed_hash {
                Err(AuctionError::WrongHash)
            } else {
                let revealed = if a.highest_bid < amount {
                    AuctionView { highest_bid: amount, highest_bidder: source, ..a }
                } else {
                    a
                };
                Ok(
                    (
                        ContractView { auctions: self.auctions.insert(key, revealed), ..self },
                        SBAuctionEvent::BidRevealed { nft_contract_id: nft, token_id, amount },
                    ),
                )
            }
        }
    }

    /// What revealing a bid does.
    pub open spec fn reveal_result(
        self,
        source: ActorId,
        nft: ActorId,
        token_id: U256,
        amount: u128,
        nonce: u128,
        now: u64,
    ) -> Result<(ContractView, SBAuctionEvent), AuctionError> {
        self.reveal_result_with(source, nft, token_id, amount, bid_hash(amount, nonce), now)
    }

    /// Whether collecting stays within `u64`.
    pub open spec fn get_nft_fits(self, nft: ActorId, token_id: U256) -> bool {
        let key = auction_key(nft, token_id);
        self.auctions.contains_key(key) ==> self.auctions[key].ended_at + self.revealing_period <= u64::MAX
    }

    /// The first refusal of a request to collect the token.
    pub open spec fn get_nft_refusal(self, source: ActorId, value: u128, nft: ActorId, token_id: U256, now: u64) -> Option<
        AuctionError,
    > {
        let key = auction_key(nft, token_id);
        if !self.auctions.contains_key(key) {
            Some(AuctionError::NoAuction)
        } else {
            let a = self.auctions[key];
            if now > a.ended_at + self.revealing_period {
                Some(AuctionError::RevealPeriodOver)
            } else if source@ != a.highest_bidder@ {
                Some(AuctionError::NotWinner)
            } else if a.ft_contract_id is None && value != a.highest_bid {
                Some(AuctionError::WrongValue)
            } else if a.ft_contract_id is None {
                Some(AuctionError::NoTokenContract)
            } else {
                None
            }
        }
    }
}

impl SBAuctionsContract {
    /// The auctions and the bids of each are well-formed maps.
    pub open spec fn wf(&self) -> bool {
        &&& self.auctions.wf()
        &&& forall|k: Seq<char>| #[trigger] self.auctions@.contains_key(k) ==> self.auctions@[k].bids.wf()
    }

    /// A program with no auctions.
    pub fn new(config: InitSBAuctionsContract) -> (r: SBAuctionsContract)
        ensures
            r.wf(),
            r@.auctions == Map::<Seq<char>, AuctionView>::empty(),
            r@.minimum_duration == config.minimum_duration,
            r@.revealing_period == config.revealing_period,
    {
        let r = SBAuctionsContract {
            auctions: AssocMap::new(),
            minimum_duration: config.minimum_duration,
            revealing_period: config.revealing_period,
        };
        assert(r@.auctions =~= Map::<Seq<char>, AuctionView>::empty());
        r
    }

    fn assert_auction_exists(&self, key: &String) -> (r: Result<(), AuctionError>)
        requires
            self.wf(),
        ensures
            r == (if self@.auctions.contains_key(key@) {
                Err(AuctionError::AuctionExists)
            } else {
                Ok(())
            }),
    {
        if self.auctions.contains_key(key) {
            Err(AuctionError::AuctionExists)
        } else {
            Ok(())
        }
    }

    fn take(&mut self, key: &String) -> (a: SBAuction)
        requires
            old(self).wf(),
            old(self)@.auctions.contains_key(key@),
        ensures
            final(self).wf(),
            a.bids.wf(),
            a@ == old(self)@.auctions[key@],
            final(self)@ == (ContractView { auctions: old(self)@.auctions.remove(key@), ..old(self)@ }),
    {
        let ghost before = self.auctions@;
        let a = self.auctions.remove(key).unwrap();
        assert forall|k: Seq<char>| #[trigger] self.auctions@.contains_key(k) implies self.auctions@[k].bids.wf() by {
            assert(before.contains_key(k));
        }
        assert(self@.auctions =~= before.map_values(|x: SBAuction| x@).remove(key@));
        a
    }

    fn put_back(&mut self, key: String, a: SBAuction)
        requires
            old(self).wf(),
            a.bids.wf(),
        ensures
            final(self).wf(),
            final(self)@ == (ContractView { auctions: old(self)@.auctions.insert(key@, a@), ..old(self)@ }),
    {
        let ghost before = self.auctions@;
        let ghost av = a@;
        let ghost kv = key@;
        proof {
            assert(a.bids.wf());
        }
        self.auctions.insert(key, a);
        assert forall|k: Seq<char>| #[trigger] self.auctions@.contains_key(k) implies self.auctions@[k].bids.wf() by {
            if k != kv {
                assert(before.contains_key(k));
            }
        }
        assert(self@.auctions =~= before.map_values(|x: SBAuction| x@).insert(kv, av));
    }

    /// Someone asks to auction `token_id` of the program `nft`. The program must
    /// first be approved by the token program for the token: this decides whether
    /// to ask for that approval, to the auction program itself (`program`).
    pub fn start_auction(
        &self,
        source: ActorId,
        nft: ActorId,
        ft_contract_id: Option<ActorId>,
        token_id: U256,
        duration: u64,
        min_price: u128,
        program: ActorId,
    ) -> (r: Result<(PendingAuction, SBAuctionEffect), AuctionError>)
        requires
            self.wf(),
        ensures
            match self@.start_refusal(nft, token_id, duration, min_price) {
                Some(e) => r matches Err(e2) && e2 == e,
                None => r matches Ok((p, eff)) && p.key@ == auction_key(nft, token_id) && p.seller == source
                    && p.nft_contract_id == nft && p.ft_contract_id == ft_contract_id && p.token_id
                    == token_id && p.duration == duration && p.min_price == min_price && eff
                    == (SBAuctionEffect::NftApprove { nft_program_id: nft, to: program, token_id }),
            },
    {
        let key = contract_and_token_id(&nft, &token_id);
        self.assert_auction_exists(&key)?;
        if duration < self.minimum_duration {
            return Err(AuctionError::DurationTooShort);
        }
        if min_price == 0 {
            return Err(AuctionError::ZeroMinPrice);
        }
        Ok(
            (
                PendingAuction {
                    key,
                    seller: source,
                    nft_contract_id: nft,
                    ft_contract_id,
                    token_id,
                    duration,
                    min_price,
                },
                SBAuctionEffect::NftApprove { nft_program_id: nft, to: program, token_id },
            ),
        )
    }

    /// Continues starting an auction once the token program approved: the auction
    /// runs from `now` for its duration, with no bids, and is kept under its key
    /// (in place of any auction kept there meanwhile).
    pub fn start_auction_finish(&mut self, pending: PendingAuction, now: u64) -> (r: Vec<SBAuctionEffect>)
        requires
            old(self).wf(),
            now + pending.duration <= u64::MAX,
        ensures
            final(self).wf(),
            final(self)@ == (ContractView {
                auctions: old(self)@.auctions.insert(
                    pending.key@,
                    AuctionView {
                        seller: pending.seller,
                        ft_contract_id: pending.ft_contract_id,
                        duration: pending.duration,
                        min_price: pending.min_price,
                        ended_at: (now + pending.duration) as u64,
                        bids: Map::empty(),
                        highest_bid: 0,
                        highest_bidder: zero_actor(),
                    },
                ),
                ..old(self)@
            }),
            r@ == seq![
                SBAuctionEffect::Reply {
                    event: SBAuctionEvent::AuctionCreated {
                        nft_contract_id: pending.nft_contract_id,
                        token_id: pending.token_id,
                        ended_at: (now + pending.duration) as u64,
                        min_price: pending.min_price,
                    },
                    value: 0,
                },
            ],
    {
        let ended_at = now + pending.duration;
        let a = SBAuction {
            seller: pending.seller,
            ft_contract_id: pending.ft_contract_id,
            duration: pending.duration,
            min_price: pending.min_price,
            ended_at,
            bids: AssocMap::new(),
            highest_bid: 0,
            highest_bidder: ActorId::zero(),
        };
        self.put_back(pending.key, a);
        vec![
            SBAuctionEffect::Reply {
                event: SBAuctionEvent::AuctionCreated {
                    nft_contract_id: pending.nft_contract_id,
                    token_id: pending.token_id,
                    ended_at,
                    min_price: pending.min_price,
                },
                value: 0,
            },
        ]
    }

    /// A bidder commits to a bid by its hash, until the auction ends; a later bid
    /// of the same bidder replaces the earlier one.
    pub fn bid(&mut self, source: ActorId, nft: ActorId, token_id: U256, hash: H256, now: u64) -> (r: Result<
        SBAuctionEvent,
        AuctionError,
    >)
        requires
            old(self).wf(),
        ensures
            final(self).wf(),
            match old(self)@.bid_result(source, nft, token_id, hash, now) {
                Ok((v, ev)) => r == Ok::<SBAuctionEvent, AuctionError>(ev) && final(self)@ == v,
                Err(e) => r == Err::<SBAuctionEvent, AuctionError>(e) && final(self)@ == old(self)@,
            },
    {
        let key = contract_and_token_id(&nft, &token_id);
        match self.auctions.get(&key) {
            None => {
                return Err(AuctionError::NoAuction);
            },
            Some(a) => {
                if a.ended_at < now {
                    return Err(AuctionError::AuctionEnded);
                }
            },
        }
        let ghost before = self@;
        let mut a = self.take(&key);
        a.bids.insert(source, hash);
        let ghost av = a@;
        self.put_back(key, a);
        assert(self@.auctions =~= before.auctions.insert(key@, av));
        Ok(SBAuctionEvent::BidMade { nft_contract_id: nft, token_id, hash })
    }

    /// A bidder reveals amount and nonce of its bid, outside the window between the
    /// end of the auction and the end of its revealing period; a matching bid
    /// above the highest one becomes the highest.
    pub fn reveal_bid(
        &mut self,
        source: ActorId,
        nft: ActorId,
        token_id: U256,
        amount: u128,
        nonce: u128,
        now: u64,
    ) -> (r: Result<SBAuctionEvent, AuctionError>)
        requires
            old(self).wf(),
            old(self)@.reveal_fits(nft, token_id, now),
        ensures
            final(self).wf(),
            match old(self)@.reveal_result(source, nft, token_id, amount, nonce, now) {
                Ok((v, ev)) => r == Ok::<SBAuctionEvent, AuctionError>(ev) && final(self)@ == v,
                Err(e) => r == Err::<SBAuctionEvent, AuctionError>(e) && final(self)@ == old(self)@,
            },
    {
        let revealed_hash = get_hash(amount, nonce);
        self.reveal_with_hash(source, nft, token_id, amount, revealed_hash, now)
    }

    /// Revealing a bid, given the hash of the revealed amount and nonce.
    pub fn reveal_with_hash(
        &mut self,
        source: ActorId,
        nft: ActorId,
        token_id: U256,
        amount: u128,
        revealed_hash: H256,
        now: u64,
    ) -> (r: Result<SBAuctionEvent, AuctionError>)
        requires
            old(self).wf(),
            old(self)@.reveal_fits(nft, token_id, now),
        ensures
            final(self).wf(),
            match old(self)@.reveal_result_with(source, nft, token_id, amount, revealed_hash@, now) {
                Ok((v, ev)) => r == Ok::<SBAuctionEvent, AuctionError>(ev) && final(self)@ == v,
                Err(e) => r == Err::<SBAuctionEvent, AuctionError>(e) && final(self)@ == old(self)@,
            },
    {
        let key = contract_and_token_id(&nft, &token_id);
        let update = match self.auctions.get(&key) {
            None => {
                return Err(AuctionError::NoAuction);
            },
            Some(a) => {
                proof {
                    assert(self@.auctions[key@] == a@);
                }
                if a.ended_at < now && now < a.ended_at + self.revealing_period {
                    return Err(AuctionError::NotRevealTime);
                }
                let hash = match a.bids.get(&source) {
                    None => {
                        return Err(AuctionError::NoBid);
                    },
                    Some(h) => *h,
                };
                if !hash.view_eq(&revealed_hash) {
                    return Err(AuctionError::WrongHash);
                }
                a.highest_bid < amount
            },
        };
        if update {
            let ghost before = self@;
            let mut a = self.take(&key);
            a.highest_bid = amount;
            a.highest_bidder = source;
            let ghost av = a@;
            self.put_back(key, a);
            assert(self@.auctions =~= before.auctions.insert(key@, av));
        } else {
            assert(self@.auctions =~= self@.auctions.insert(key@, self@.auctions[key@]));
        }
        Ok(SBAuctionEvent::BidRevealed { nft_contract_id: nft, token_id, amount })
    }

    /// The highest bidder collects the token while the revealing period lasts: it
    /// pays the highest bid in the auction's fungible token, from itself to the
    /// seller. This decides whether to ask for that payment; the token itself is
    /// asked for once the payment is done (see `get_nft_deliver`).
    pub fn get_nft(&self, source: ActorId, value: u128, nft: ActorId, token_id: U256, now: u64) -> (r: Result<
        (ClosingAuction, SBAuctionEffect),
        AuctionError,
    >)
        requires
            self.wf(),
            self@.get_nft_fits(nft, token_id),
        ensures
            match self@.get_nft_refusal(source, value, nft, token_id, now) {
                Some(e) => r matches Err(e2) && e2 == e,
                None => {
                    let a = self@.auctions[auction_key(nft, token_id)];
                    r matches Ok((c, eff)) && c.key@ == auction_key(nft, token_id) && c.nft_contract_id
                        == nft && c.token_id == token_id && eff == (SBAuctionEffect::TransferTokens {
                        ft_contract_id: a.ft_contract_id->Some_0,
                        from: source,
                        to: a.seller,
                        amount: a.highest_bid,
                    })
                },
            },
    {
        let key = contract_and_token_id(&nft, &token_id);
        let a = match self.auctions.get(&key) {
            None => {
                return Err(AuctionError::NoAuction);
            },
            Some(a) => a,
        };
        proof {
            assert(self@.auctions[key@] == a@);
        }
        if now > a.ended_at + self.revealing_period {
            return Err(AuctionError::RevealPeriodOver);
        }
        if !source.view_eq(&a.highest_bidder) {
            return Err(AuctionError::NotWinner);
        }
        if a.ft_contract_id.is_none() && value != a.highest_bid {
            return Err(AuctionError::WrongValue);
        }
        let ft = match a.ft_contract_id {
            Some(ft) => ft,
            None => {
                return Err(AuctionError::NoTokenContract);
            },
        };
        let effect = SBAuctionEffect::TransferTokens {
            ft_contract_id: ft,
            from: source,
            to: a.seller,
            amount: a.highest_bid,
        };
        Ok((ClosingAuction { key, nft_contract_id: nft, token_id }, effect))
    }

    /// Once the winner paid: asks the token program to transfer the token to the
    /// auction's highest bidder as it stands now, then replies that the auction closed.
    pub fn get_nft_deliver(&self, closing: &ClosingAuction) -> (r: Vec<SBAuctionEffect>)
        requires
            self.wf(),
            self@.auctions.contains_key(closing.key@),
        ensures
            r@ == seq![
                SBAuctionEffect::NftTransfer {
                    nft_program_id: closing.nft_contract_id,
                    to: self@.auctions[closing.key@].highest_bidder,
                    token_id: closing.token_id,
                },
                SBAuctionEffect::Reply {
                    event: SBAuctionEvent::AuctionClosed {
                        nft_contract_id: closing.nft_contract_id,
                        token_id: closing.token_id,
                    },
                    value: 0,
                },
            ],
    {
        let a = self.auctions.get(&closing.key).unwrap();
        vec![
            SBAuctionEffect::NftTransfer {
                nft_program_id: closing.nft_contract_id,
                to: a.highest_bidder,
                token_id: closing.token_id,
            },
            SBAuctionEffect::Reply {
                event: SBAuctionEvent::AuctionClosed {
                    nft_contract_id: closing.nft_contract_id,
                    token_id: closing.token_id,
                },
                value: 0,
            },
        ]
    }
}

/// The highest bid of an auction never goes down: a bid leaves it as it is, and
/// an accepted reveal leaves it at least at the revealed amount; whoever holds it
/// after a reveal that raised it is the revealing bidder.
pub proof fn lemma_highest_bid_never_decreases(
    v: ContractView,
    source: ActorId,
    nft: ActorId,
    token_id: U256,
    hash: H256,
    amount: u128,
    nonce: u128,
    now: u64,
)
    requires
        v.auctions.contains_key(auction_key(nft, token_id)),
    ensures
        v.bid_result(source, nft, token_id, hash, now) is Ok ==> v.bid_result(
            source,
            nft,
            token_id,
            hash,
            now,
        )->Ok_0.0.auctions[auction_key(nft, token_id)].highest_bid == v.auctions[auction_key(
            nft,
            token_id,
        )].highest_bid,
        v.reveal_result(source, nft, token_id, amount, nonce, now) is Ok ==> ({
            let before = v.auctions[auction_key(nft, token_id)];
            let after = v.reveal_result(source, nft, token_id, amount, nonce, now)->Ok_0.0.auctions[auction_key(
                nft,
                token_id,
            )];
            &&& after.highest_bid >= before.highest_bid
            &&& after.highest_bid >= amount
            &&& after.highest_bid > before.highest_bid ==> after.highest_bidder == source
        }),
{
}

/// A reveal is accepted only for the amount and nonce that hash to the bid the
/// sender committed to.
pub proof fn lemma_reveal_matches_commitment(
    v: ContractView,
    source: ActorId,
    nft: ActorId,
    token_id: U256,
    amount: u128,
    nonce: u128,
    now: u64,
)
    requires
        v.reveal_result(source, nft, token_id, amount, nonce, now) is Ok,
    ensures
        v.auctions[auction_key(nft, token_id)].bids.contains_key(source@),
        v.auctions[auction_key(nft, token_id)].bids[source@]@ == bid_hash(amount, nonce),
{
}

/// Bids are taken only until the auction ends, and an accepted bid is kept as
/// the sender's commitment.
pub proof fn lemma_bids_close_at_end(
    v: ContractView,
    source: ActorId,
    nft: ActorId,
    token_id: U256,
    hash: H256,
    now: u64,
)
    requires
        v.bid_result(source, nft, token_id, hash, now) is Ok,
    ensures
        now <= v.auctions[auction_key(nft, token_id)].ended_at,
        v.bid_result(source, nft, token_id, hash, now)->Ok_0.0.auctions[auction_key(nft, token_id)].bids[source@]
            == hash,
{
}

/// Auctions are never removed: every auction kept before a bid or a reveal is
/// still kept after it.
pub proof fn lemma_auctions_never_removed(
    v: ContractView,
    source: ActorId,
    nft: ActorId,
    token_id: U256,
    hash: H256,
    amount: u128,
    nonce: u128,
    now: u64,
    k: Seq<char>,
)
    requires
        v.auctions.contains_key(k),
    ensures
        v.bid_result(source, nft, token_id, hash, now) is Ok ==> v.bid_result(
            source,
            nft,
            token_id,
            hash,
            now,
        )->Ok_0.0.auctions.contains_key(k),
        v.reveal_result(source, nft, token_id, amount, nonce, now) is Ok ==> v.reveal_result(
            source,
            nft,
            token_id,
            amount,
            nonce,
            now,
        )->Ok_0.0.auctions.contains_key(k),
{
}

/// Only the highest bidder collects, only while the revealing period lasts, and
/// only for an auction paid in a fungible token.
pub proof fn lemma_only_winner_collects(
    v: ContractView,
    source: ActorId,
    value: u128,
    nft: ActorId,
    token_id: U256,
    now: u64,
)
    requires
        v.get_nft_refusal(source, value, nft, token_id, now) is None,
    ensures
        v.auctions.contains_key(auction_key(nft, token_id)),
        source@ == v.auctions[auction_key(nft, token_id)].highest_bidder@,
        v.auctions[auction_key(nft, token_id)].ft_contract_id is Some,
        now <= v.auctions[auction_key(nft, token_id)].ended_at + v.revealing_period,
{
}

/// The key of an auction shows only the first two and the last two bytes of the
/// token program's address: token programs that agree on those bytes share the
/// keys of their tokens, so while one of them has an auction of a token, an
/// auction of the same token id of the other is refused.
pub proof fn lemma_key_sees_outer_bytes(
    v: ContractView,
    nft1: ActorId,
    nft2: ActorId,
    token_id: U256,
    duration: u64,
    min_price: u128,
)
    requires
        nft1@[0] == nft2@[0],
        nft1@[1] == nft2@[1],
        nft1@[30] == nft2@[30],
        nft1@[31] == nft2@[31],
        v.auctions.contains_key(auction_key(nft1, token_id)),
    ensures
        auction_key(nft1, token_id) == auction_key(nft2, token_id),
        v.start_refusal(nft2, token_id, duration, min_price) == Some(AuctionError::AuctionExists),
{
    assert(short_hex(nft1@) =~= short_hex(nft2@));
}

/// Creates the auction program with no auctions.
pub fn init(config: InitSBAuctionsContract) -> (r: SBAuctionsContract)
    ensures
        r.wf(),
        r@.auctions == Map::<Seq<char>, AuctionView>::empty(),
        r@.minimum_duration == config.minimum_duration,
        r@.revealing_period == config.revealing_period,
{
    SBAuctionsContract::new(config)
}

} // verus!
