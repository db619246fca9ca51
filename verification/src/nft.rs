//! A non-fungible token: tokens are minted to an owner, and an owner (or the
//! origin of the message) may burn a token, transfer it, or approve other
//! accounts to transfer it.
use vstd::prelude::*;
use crate::assoc_map::AssocMap;
use crate::ids::{ActorId, TokenId, ViewEq, zero_actor};

verus! {

/// Descriptive data of a token.
#[derive(Clone, Debug, Default, PartialEq, Eq)]
pub struct TokenMetadata {
    pub title: Option<String>,
    pub description: Option<String>,
    pub media: Option<String>,
    pub reference: Option<String>,
}

/// A token with its owner, data and approved accounts.
#[derive(Clone, Debug, PartialEq, Eq)]
pub struct Token {
    pub token_id: TokenId,
    pub owner_id: ActorId,
    pub metadata: Option<TokenMetadata>,
    pub approved_account_ids: Vec<ActorId>,
}

/// What the token program is created with.
#[derive(Clone, Debug, Default, PartialEq, Eq)]
pub struct InitNFT {
    pub name: String,
    pub symbol: String,
    pub base_uri: String,
}

/// What a message asks of the token program.
#[derive(Clone, Debug, PartialEq, Eq)]
pub enum NFTAction {
    Mint { to: ActorId, token_id: TokenId, token_metadata: Option<TokenMetadata> },
    Burn { token_id: TokenId },
    Transfer { to: ActorId, token_id: TokenId },
    Approve { to: ActorId, token_id: TokenId },
}

/// What the token program replies.
#[derive(Clone, Copy, Debug, PartialEq, Eq)]
pub enum NFTEvent {
    Transfer { from: ActorId, to: ActorId, token_id: TokenId },
    Approval { owner: ActorId, approved_account: ActorId, token_id: TokenId },
}

/// Why the token program refuses a message.
#[derive(Clone, Copy, Debug, PartialEq, Eq, Structural)]
pub enum NftError {
    /// A token with this id already exists.
    TokenAlreadyExists,
    /// No token with this id exists.
    TokenDoesNotExist,
    /// Neither the sender nor the origin of the message owns the token.
    NotAllowed,
    /// The all-zero address may not receive a token or an approval.
    ZeroAddress,
}

/// The program's state.
pub struct NonFungibleToken {
    pub name: String,
    pub symbol: String,
    pub base_uri: String,
    pub owner_by_id: AssocMap<TokenId, ActorId>,
    pub token_approvals: AssocMap<TokenId, Vec<ActorId>>,
    pub token_metadata_by_id: AssocMap<TokenId, Option<TokenMetadata>>,
    pub tokens_for_owner: AssocMap<ActorId, Vec<TokenId>>,
}

/// The state of the token program as maps.
pub struct NftView {
    pub name: Seq<char>,
    pub symbol: Seq<char>,
    pub base_uri: Seq<char>,
    /// The owner of each token.
    pub owners: Map<Seq<u64>, ActorId>,
    /// The accounts approved for each token, in the order of approval.
    pub approvals: Map<Seq<u64>, Seq<ActorId>>,
    /// The data of each token.
    pub metadata: Map<Seq<u64>, Option<TokenMetadata>>,
    /// A list of tokens per owner; the program only changes lists that exist.
    pub tokens_for_owner: Map<Seq<u8>, Seq<TokenId>>,
}

impl View for NonFungibleToken {
    type V = NftView;

    open spec fn view(&self) -> NftView {
        NftView {
            name: self.name@,
            symbol: self.symbol@,
            base_uri: self.base_uri@,
            owners: self.owner_by_id@,
            approvals: self.token_approvals@.map_values(|v: Vec<ActorId>| v@),
            metadata: self.token_metadata_by_id@,
            tokens_for_owner: self.tokens_for_owner@.map_values(|v: Vec<TokenId>| v@),
        }
    }
}

/// Whether `a` occurs in `s`.
pub open spec fn lists(s: Seq<ActorId>, a: ActorId) -> bool {
    exists|i: int| 0 <= i < s.len() && #[trigger] s[i]@ == a@
}

/// `s` without any occurrence of `t`.
pub open spec fn without(s: Seq<TokenId>, t: TokenId) -> Seq<TokenId>
    decreases s.len(),
{
    if s.len() == 0 {
        s
    } else if s.last()@ == t@ {
        without(s.drop_last(), t)
    } else {
        without(s.drop_last(), t).push(s.last())
    }
}

/// `t` appended to the list of `owner`, if `owner` has a list.
pub open spec fn push_to_list(m: Map<Seq<u8>, Seq<TokenId>>, owner: ActorId, t: TokenId) -> Map<
    Seq<u8>,
    Seq<TokenId>,
> {
    if m.contains_key(owner@) {
        m.insert(owner@, m[owner@].push(t))
    } else {
        m
    }
}

/// `t` removed from the list of `owner`, if `owner` has a list.
pub open spec fn drop_from_list(m: Map<Seq<u8>, Seq<TokenId>>, owner: ActorId, t: TokenId) -> Map<
    Seq<u8>,
    Seq<TokenId>,
> {
    if m.contains_key(owner@) {
        m.insert(owner@, without(m[owner@], t))
    } else {
        m
    }
}

impl NftView {
    /// The first refusal of an action that only the owner may take.
    pub open spec fn owner_refusal(self, token_id: TokenId, source: ActorId, origin: ActorId) -> Option<
        NftError,
    > {
        if !self.owners.contains_key(token_id@) {
            Some(NftError::TokenDoesNotExist)
        } else if self.owners[token_id@]@ != source@ && self.owners[token_id@]@ != origin@ {
            Some(NftError::NotAllowed)
        } else {
            None
        }
    }

    /// Whether `source` is approved for the token.
    pub open spec fn approved(self, token_id: TokenId, source: ActorId) -> bool {
        self.approvals.contains_key(token_id@) && lists(self.approvals[token_id@], source)
    }

    /// The first refusal of a transfer: approved accounts may transfer, and so
    /// may the owner and the origin of the message.
    pub open spec fn transfer_refusal(self, token_id: TokenId, source: ActorId, origin: ActorId) -> Option<
        NftError,
    > {
        if self.approved(token_id, source) {
            None
        } else {
            self.owner_refusal(token_id, source, origin)
        }
    }

    /// What minting does.
    pub open spec fn mint_result(self, to: ActorId, token_id: TokenId, metadata: Option<TokenMetadata>) -> Result<
        (NftView, NFTEvent),
        NftError,
    > {
        if self.owners.contains_key(token_id@) {
            Err(NftError::TokenAlreadyExists)
        } else {
            Ok(
                (
                    NftView {
                        owners: self.owners.insert(token_id@, to),
                        tokens_for_owner: push_to_list(self.tokens_for_owner, to, token_id),
                        metadata: self.metadata.insert(token_id@, metadata),
                        ..self
                    },
                    NFTEvent::Transfer { from: zero_actor(), to, token_id },
                ),
            )
        }
    }

    /// What burning does.
    pub open spec fn burn_result(self, token_id: TokenId, source: ActorId, origin: ActorId) -> Result<
        (NftView, NFTEvent),
        NftError,
    > {
        match self.owner_refusal(token_id, source, origin) {
            Some(e) => Err(e),
            None => {
                let owner = self.owners[token_id@];
                Ok(
                    (
                        NftView {
                            owners: self.owners.remove(token_id@),
                            tokens_for_owner: drop_from_list(self.tokens_for_owner, owner, token_id),
                            ..self
                        },
                        NFTEvent::Transfer { from: owner, to: zero_actor(), token_id },
                    ),
                )
            },
        }
    }

    /// What transferring does.
    pub open spec fn transfer_result(
        self,
        to: ActorId,
        token_id: TokenId,
        source: ActorId,
        origin: ActorId,
    ) -> Result<(NftView, NFTEvent), NftError> {
        match self.transfer_refusal(token_id, source, origin) {
            Some(e) => Err(e),
            None => if to@ == zero_actor()@ {
                Err(NftError::ZeroAddress)
            } else if !self.owners.contains_key(token_id@) {
                Err(NftError::TokenDoesNotExist)
            } else {
                let owner = self.owners[token_id@];
                Ok(
                    (
                        NftView {
                            owners: self.owners.insert(token_id@, to),
                            tokens_for_owner: drop_from_list(
                                push_to_list(self.tokens_for_owner, to, token_id),
                                owner,
                                token_id,
                            ),
                            approvals: self.approvals.remove(token_id@),
                            ..self
                        },
                        NFTEvent::Transfer { from: owner, to, token_id },
                    ),
                )
            },
        }
    }

    /// What approving does.
    pub open spec fn approve_result(self, to: ActorId, token_id: TokenId, source: ActorId, origin: ActorId) -> Result<
        (NftView, NFTEvent),
        NftError,
    > {
        match self.owner_refusal(token_id, source, origin) {
            Some(e) => Err(e),
            None => if to@ == zero_actor()@ {
                Err(NftError::ZeroAddress)
            } else {
                let owner = self.owners[token_id@];
                let listed = if self.approvals.contains_key(token_id@) {
                    self.approvals[token_id@].push(to)
                } else {
                    seq![to]
                };
                Ok(
                    (
                        NftView { approvals: self.approvals.insert(token_id@, listed), ..self },
                        NFTEvent::Approval { owner, approved_account: to, token_id },
                    ),
                )
            },
        }
    }

    /// What handling `action` does.
    pub open spec fn handle_result(self, action: NFTAction, source: ActorId, origin: ActorId) -> Result<
        (NftView, NFTEvent),
        NftError,
    > {
        match action {
            NFTAction::Mint { to, token_id, token_metadata } => self.mint_result(to, token_id, token_metadata),
            NFTAction::Burn { token_id } => self.burn_result(token_id, source, origin),
            NFTAction::Transfer { to, token_id } => self.transfer_result(to, token_id, source, origin),
            NFTAction::Approve { to, token_id } => self.approve_result(to, token_id, source, origin),
        }
    }
}

fn list_has(s: &Vec<ActorId>, a: &ActorId) -> (r: bool)
    ensures
        r == lists(s@, *a),
{
    let mut i: usize = 0;
    while i < s.len()
        invariant
            0 <= i <= s@.len(),
            forall|j: int| 0 <= j < i ==> s@[j]@ != a@,
        decreases s.len() - i,
    {
        if s[i].view_eq(a) {
            return true;
        }
        i = i + 1;
    }
    false
}

fn remove_all(s: &Vec<TokenId>, t: &TokenId) -> (r: Vec<TokenId>)
    ensures
        r@ == without(s@, *t),
{
    let mut r: Vec<TokenId> = Vec::new();
    let mut i: usize = 0;
    while i < s.len()
        invariant
            0 <= i <= s@.len(),
            r@ == without(s@.take(i as int), *t),
        decreases s.len() - i,
    {
        assert(s@.take(i + 1).drop_last() =~= s@.take(i as int));
        if !s[i].view_eq(t) {
            r.push(s[i]);
        }
        i = i + 1;
    }
    assert(s@.take(s@.len() as int) =~= s@);
    r
}

impl NonFungibleToken {
    /// All maps are well formed.
    pub open spec fn wf(&self) -> bool {
        &&& self.owner_by_id.wf()
        &&& self.token_approvals.wf()
        &&& self.token_metadata_by_id.wf()
        &&& self.tokens_for_owner.wf()
    }

    /// A token program with no tokens.
    pub fn new(config: InitNFT) -> (r: NonFungibleToken)
        ensures
            r.wf(),
            r@.name == config.name@,
            r@.symbol == config.symbol@,
            r@.base_uri == config.base_uri@,
            r@.owners == Map::<Seq<u64>, ActorId>::empty(),
            r@.approvals == Map::<Seq<u64>, Seq<ActorId>>::empty(),
            r@.metadata == Map::<Seq<u64>, Option<TokenMetadata>>::empty(),
            r@.tokens_for_owner == Map::<Seq<u8>, Seq<TokenId>>::empty(),
    {
        let r = NonFungibleToken {
            name: config.name,
            symbol: config.symbol,
            base_uri: config.base_uri,
            owner_by_id: AssocMap::new(),
            token_approvals: AssocMap::new(),
            token_metadata_by_id: AssocMap::new(),
            tokens_for_owner: AssocMap::new(),
        };
        assert(r@.approvals =~= Map::<Seq<u64>, Seq<ActorId>>::empty());
        assert(r@.tokens_for_owner =~= Map::<Seq<u8>, Seq<TokenId>>::empty());
        r
    }

    fn push_token_to(&mut self, owner: &ActorId, token_id: TokenId)
        requires
            old(self).wf(),
        ensures
            final(self).wf(),
            final(self)@ == (NftView {
                tokens_for_owner: push_to_list(old(self)@.tokens_for_owner, *owner, token_id),
                ..old(self)@
            }),
    {
        let ghost before = self.tokens_for_owner@;
        match self.tokens_for_owner.remove(owner) {
            Some(mut list) => {
                list.push(token_id);
                self.tokens_for_owner.insert(*owner, list);
                assert(self.tokens_for_owner@ =~= before.insert(owner@, self.tokens_for_owner@[owner@]));
                assert(self@.tokens_for_owner =~= push_to_list(
                    before.map_values(|v: Vec<TokenId>| v@),
                    *owner,
                    token_id,
                ));
            },
            None => {
                assert(self.tokens_for_owner@ =~= before);
            },
        }
    }

    fn drop_token_from(&mut self, owner: &ActorId, token_id: &TokenId)
        requires
            old(self).wf(),
        ensures
            final(self).wf(),
            final(self)@ == (NftView {
                tokens_for_owner: drop_from_list(old(self)@.tokens_for_owner, *owner, *token_id),
                ..old(self)@
            }),
    {
        let ghost before = self.tokens_for_owner@;
        match self.tokens_for_owner.remove(owner) {
            Some(list) => {
                let kept = remove_all(&list, token_id);
                self.tokens_for_owner.insert(*owner, kept);
                assert(self.tokens_for_owner@ =~= before.insert(owner@, self.tokens_for_owner@[owner@]));
                assert(self@.tokens_for_owner =~= drop_from_list(
                    before.map_values(|v: Vec<TokenId>| v@),
                    *owner,
                    *token_id,
                ));
            },
            None => {
                assert(self.tokens_for_owner@ =~= before);
            },
        }
    }

    fn assert_owner(&self, token_id: &TokenId, source: &ActorId, origin: &ActorId) -> (r: Result<ActorId, NftError>)
        requires
            self.wf(),
        ensures
            match self@.owner_refusal(*token_id, *source, *origin) {
                Some(e) => r == Err::<ActorId, NftError>(e),
                None => r == Ok::<ActorId, NftError>(self@.owners[token_id@]),
            },
    {
        match self.owner_by_id.get(token_id) {
            None => Err(NftError::TokenDoesNotExist),
            Some(owner) => {
                if !(owner.view_eq(source) || owner.view_eq(origin)) {
                    Err(NftError::NotAllowed)
                } else {
                    Ok(*owner)
                }
            },
        }
    }

    fn assert_can_transfer(&self, token_id: &TokenId, source: &ActorId, origin: &ActorId) -> (r: Result<(), NftError>)
        requires
            self.wf(),
        ensures
            match self@.transfer_refusal(*token_id, *source, *origin) {
                Some(e) => r == Err::<(), NftError>(e),
                None => r is Ok,
            },
    {
        if let Some(approved_accounts) = self.token_approvals.get(token_id) {
            if list_has(approved_accounts, source) {
                return Ok(());
            }
        }
        self.assert_owner(token_id, source, origin)?;
        Ok(())
    }

    fn assert_token_exists(&self, token_id: &TokenId) -> (r: Result<(), NftError>)
        requires
            self.wf(),
        ensures
            r == (if self@.owners.contains_key(token_id@) {
                Err(NftError::TokenAlreadyExists)
            } else {
                Ok(())
            }),
    {
        if self.owner_by_id.contains_key(token_id) {
            Err(NftError::TokenAlreadyExists)
        } else {
            Ok(())
        }
    }

    fn assert_zero_address(&self, account: &ActorId) -> (r: Result<(), NftError>)
        ensures
            r == (if account@ == zero_actor()@ {
                Err(NftError::ZeroAddress)
            } else {
                Ok(())
            }),
    {
        if account.is_zero() {
            Err(NftError::ZeroAddress)
        } else {
            Ok(())
        }
    }

    /// Mints a new token to `to` (the message may come from anyone).
    pub fn mint(&mut self, to: ActorId, token_id: TokenId, token_metadata: Option<TokenMetadata>) -> (r: Result<
        NFTEvent,
        NftError,
    >)
        requires
            old(self).wf(),
        ensures
            final(self).wf(),
            match old(self)@.mint_result(to, token_id, token_metadata) {
                Ok((v, ev)) => r == Ok::<NFTEvent, NftError>(ev) && final(self)@ == v,
                Err(e) => r == Err::<NFTEvent, NftError>(e) && final(self)@ == old(self)@,
            },
    {
        self.assert_token_exists(&token_id)?;
        self.owner_by_id.insert(token_id, to);
        self.push_token_to(&to, token_id);
        self.token_metadata_by_id.insert(token_id, token_metadata);
        Ok(NFTEvent::Transfer { from: ActorId::zero(), to, token_id })
    }

    /// The owner, or the origin of the message if it owns the token, burns it.
    pub fn burn(&mut self, token_id: TokenId, source: ActorId, origin: ActorId) -> (r: Result<NFTEvent, NftError>)
        requires
            old(self).wf(),
        ensures
            final(self).wf(),
            match old(self)@.burn_result(token_id, source, origin) {
                Ok((v, ev)) => r == Ok::<NFTEvent, NftError>(ev) && final(self)@ == v,
                Err(e) => r == Err::<NFTEvent, NftError>(e) && final(self)@ == old(self)@,
            },
    {
        let owner = self.assert_owner(&token_id, &source, &origin)?;
        self.owner_by_id.remove(&token_id);
        self.drop_token_from(&owner, &token_id);
        Ok(NFTEvent::Transfer { from: owner, to: ActorId::zero(), token_id })
    }

    /// An approved account, the owner, or the origin of the message if it owns the
    /// token, transfers it to `to`; the token's approvals are cleared.
    pub fn transfer(&mut self, to: ActorId, token_id: TokenId, source: ActorId, origin: ActorId) -> (r: Result<
        NFTEvent,
        NftError,
    >)
        requires
            old(self).wf(),
        ensures
            final(self).wf(),
            match old(self)@.transfer_result(to, token_id, source, origin) {
                Ok((v, ev)) => r == Ok::<NFTEvent, NftError>(ev) && final(self)@ == v,
                Err(e) => r == Err::<NFTEvent, NftError>(e) && final(self)@ == old(self)@,
            },
    {
        self.assert_can_transfer(&token_id, &source, &origin)?;
        self.assert_zero_address(&to)?;
        let owner = match self.owner_by_id.get(&token_id) {
            Some(o) => *o,
            None => {
                return Err(NftError::TokenDoesNotExist);
            },
        };
        self.owner_by_id.insert(token_id, to);
        self.push_token_to(&to, token_id);
        self.drop_token_from(&owner, &token_id);
        let ghost before = self.token_approvals@;
        self.token_approvals.remove(&token_id);
        assert(self@.approvals =~= before.map_values(|v: Vec<ActorId>| v@).remove(token_id@));
        Ok(NFTEvent::Transfer { from: owner, to, token_id })
    }

    /// The owner, or the origin of the message if it owns the token, approves
    /// `to` to transfer it.
    pub fn approve(&mut self, to: ActorId, token_id: TokenId, source: ActorId, origin: ActorId) -> (r: Result<
        NFTEvent,
        NftError,
    >)
        requires
            old(self).wf(),
        ensures
            final(self).wf(),
            match old(self)@.approve_result(to, token_id, source, origin) {
                Ok((v, ev)) => r == Ok::<NFTEvent, NftError>(ev) && final(self)@ == v,
                Err(e) => r == Err::<NFTEvent, NftError>(e) && final(self)@ == old(self)@,
            },
    {
        let owner = self.assert_owner(&token_id, &source, &origin)?;
        self.assert_zero_address(&to)?;
        let ghost before = self.token_approvals@;
        let listed = match self.token_approvals.remove(&token_id) {
            Some(mut list) => {
                list.push(to);
                list
            },
            None => {
                let list = vec![to];
                assert(list@ =~= seq![to]);
                list
            },
        };
        let ghost listed_view = listed@;
        self.token_approvals.insert(token_id, listed);
        assert(self.token_approvals@ =~= before.insert(token_id@, self.token_approvals@[token_id@]));
        assert(self@.approvals =~= before.map_values(|v: Vec<ActorId>| v@).insert(token_id@, listed_view));
        Ok(NFTEvent::Approval { owner, approved_account: to, token_id })
    }
}

/// Handles one message; `origin` is the account that started the chain of messages.
pub fn handle(nft: &mut NonFungibleToken, action: NFTAction, source: ActorId, origin: ActorId) -> (r: Result<
    NFTEvent,
    NftError,
>)
    requires
        old(nft).wf(),
    ensures
        final(nft).wf(),
        match old(nft)@.handle_result(action, source, origin) {
            Ok((v, ev)) => r == Ok::<NFTEvent, NftError>(ev) && final(nft)@ == v,
            Err(e) => r == Err::<NFTEvent, NftError>(e) && final(nft)@ == old(nft)@,
        },
{
    match action {
        NFTAction::Mint { to, token_id, token_metadata } => nft.mint(to, token_id, token_metadata),
        NFTAction::Burn { token_id } => nft.burn(token_id, source, origin),
        NFTAction::Transfer { to, token_id } => nft.transfer(to, token_id, source, origin),
        NFTAction::Approve { to, token_id } => nft.approve(to, token_id, source, origin),
    }
}

/// Burning undoes minting: a token minted to `to` can be burnt by `to`, and the
/// owners are then as before the mint.
pub proof fn lemma_burn_undoes_mint(
    v: NftView,
    to: ActorId,
    token_id: TokenId,
    metadata: Option<TokenMetadata>,
    origin: ActorId,
)
    requires
        !v.owners.contains_key(token_id@),
    ensures
        v.mint_result(to, token_id, metadata) is Ok,
        v.mint_result(to, token_id, metadata)->Ok_0.0.burn_result(token_id, to, origin) is Ok,
        v.mint_result(to, token_id, metadata)->Ok_0.0.burn_result(token_id, to, origin)->Ok_0.0.owners
            == v.owners,
{
    let minted = v.mint_result(to, token_id, metadata)->Ok_0.0;
    assert(minted.owners.remove(token_id@) =~= v.owners);
}

/// A transfer happens only on behalf of someone entitled to it (an approved
/// account, or the owner as sender or origin); afterwards `to` owns the token, the
/// reply names the previous owner, and no account is approved for the token.
pub proof fn lemma_transfer_moves_ownership(
    v: NftView,
    to: ActorId,
    token_id: TokenId,
    source: ActorId,
    origin: ActorId,
)
    requires
        v.transfer_result(to, token_id, source, origin) is Ok,
    ensures
        v.owners.contains_key(token_id@),
        v.approved(token_id, source) || v.owners[token_id@]@ == source@ || v.owners[token_id@]@
            == origin@,
        to@ != zero_actor()@,
        v.transfer_result(to, token_id, source, origin)->Ok_0.0.owners[token_id@] == to,
        v.transfer_result(to, token_id, source, origin)->Ok_0.1 == (NFTEvent::Transfer {
            from: v.owners[token_id@],
            to,
            token_id,
        }),
        !v.transfer_result(to, token_id, source, origin)->Ok_0.0.approvals.contains_key(token_id@),
{
}

/// No message creates or deletes a per-owner token list: a program created
/// without lists (as `init` creates it) never has one.
pub proof fn lemma_owner_lists_never_created(v: NftView, action: NFTAction, source: ActorId, origin: ActorId)
    requires
        v.handle_result(action, source, origin) is Ok,
    ensures
        v.handle_result(action, source, origin)->Ok_0.0.tokens_for_owner.dom() =~= v.tokens_for_owner.dom(),
{
}

/// Only the owner's side may burn or approve: a burn or approval succeeds only if
/// the sender or the origin owns the token.
pub proof fn lemma_only_owner_burns_or_approves(
    v: NftView,
    to: ActorId,
    token_id: TokenId,
    source: ActorId,
    origin: ActorId,
)
    ensures
        v.burn_result(token_id, source, origin) is Ok ==> v.owners.contains_key(token_id@) && (
        v.owners[token_id@]@ == source@ || v.owners[token_id@]@ == origin@),
        v.approve_result(to, token_id, source, origin) is Ok ==> v.owners.contains_key(token_id@) && (
        v.owners[token_id@]@ == source@ || v.owners[token_id@]@ == origin@),
{
}

/// An approved account may always transfer: if the token exists, `to` is not the
/// all-zero address and `source` is among the token's approved accounts, the
/// transfer is accepted whatever the origin of the message, and afterwards `to`
/// owns the token, the previous owner is named in the reply, and the token has
/// no approvals.
pub proof fn lemma_approved_sender_transfers(
    v: NftView,
    to: ActorId,
    token_id: TokenId,
    source: ActorId,
    origin: ActorId,
)
    requires
        v.owners.contains_key(token_id@),
        to@ != zero_actor()@,
        v.approvals.contains_key(token_id@),
        exists|i: int| 0 <= i < v.approvals[token_id@].len() && #[trigger] v.approvals[token_id@][i]@ == source@,
    ensures
        v.transfer_result(to, token_id, source, origin) is Ok,
        v.transfer_result(to, token_id, source, origin)->Ok_0.0.owners.contains_key(token_id@),
        v.transfer_result(to, token_id, source, origin)->Ok_0.0.owners[token_id@] == to,
        v.transfer_result(to, token_id, source, origin)->Ok_0.1 == (NFTEvent::Transfer {
            from: v.owners[token_id@],
            to,
            token_id,
        }),
        !v.transfer_result(to, token_id, source, origin)->Ok_0.0.approvals.contains_key(token_id@),
{
}

/// The owner's side may always transfer: if the token exists, `to` is not the
/// all-zero address and the sender or the origin owns the token, the transfer is
/// accepted and `to` owns the token afterwards.
pub proof fn lemma_owner_side_transfers(v: NftView, to: ActorId, token_id: TokenId, source: ActorId, origin: ActorId)
    requires
        v.owners.contains_key(token_id@),
        to@ != zero_actor()@,
        v.owners[token_id@]@ == source@ || v.owners[token_id@]@ == origin@,
    ensures
        v.transfer_result(to, token_id, source, origin) is Ok,
        v.transfer_result(to, token_id, source, origin)->Ok_0.0.owners[token_id@] == to,
{
}

/// Exactly who may approve: an approval is accepted if and only if the token
/// exists, its owner is the sender or the origin of the message, and `to` is not
/// the all-zero address; an accepted approval appends `to` to the token's
/// approved accounts, keeps those approved before, and changes no owner.
pub proof fn lemma_approval_accepted_exactly(
    v: NftView,
    to: ActorId,
    token_id: TokenId,
    source: ActorId,
    origin: ActorId,
)
    ensures
        v.approve_result(to, token_id, source, origin) is Ok <==> (v.owners.contains_key(token_id@) && (
        v.owners[token_id@]@ == source@ || v.owners[token_id@]@ == origin@) && to@ != zero_actor()@),
        v.approve_result(to, token_id, source, origin) is Ok ==> ({
            let w = v.approve_result(to, token_id, source, origin)->Ok_0.0;
            &&& w.approvals.contains_key(token_id@)
            &&& w.approvals[token_id@].last() == to
            &&& w.approvals[token_id@].drop_last() == (if v.approvals.contains_key(token_id@) {
                v.approvals[token_id@]
            } else {
                Seq::<ActorId>::empty()
            })
            &&& w.owners == v.owners
            &&& v.approve_result(to, token_id, source, origin)->Ok_0.1 == (NFTEvent::Approval {
                owner: v.owners[token_id@],
                approved_account: to,
                token_id,
            })
        }),
{
    if v.approve_result(to, token_id, source, origin) is Ok {
        let w = v.approve_result(to, token_id, source, origin)->Ok_0.0;
        if v.approvals.contains_key(token_id@) {
            assert(w.approvals[token_id@].drop_last() =~= v.approvals[token_id@]);
        } else {
            assert(w.approvals[token_id@].drop_last() =~= Seq::<ActorId>::empty());
        }
    }
}

/// Exactly who may burn: a burn is accepted if and only if the token exists and
/// its owner is the sender or the origin of the message; afterwards the token has
/// no owner, every other token keeps its owner, and the reply is a transfer from
/// the owner to the all-zero address.
pub proof fn lemma_burn_accepted_exactly(v: NftView, token_id: TokenId, source: ActorId, origin: ActorId)
    ensures
        v.burn_result(token_id, source, origin) is Ok <==> (v.owners.contains_key(token_id@) && (
        v.owners[token_id@]@ == source@ || v.owners[token_id@]@ == origin@)),
        v.burn_result(token_id, source, origin) is Ok ==> ({
            let w = v.burn_result(token_id, source, origin)->Ok_0.0;
            &&& !w.owners.contains_key(token_id@)
            &&& forall|k: Seq<u64>| k != token_id@ ==> #[trigger] w.owners.contains_key(k)
                == v.owners.contains_key(k) && (v.owners.contains_key(k) ==> w.owners[k] == v.owners[k])
            &&& v.burn_result(token_id, source, origin)->Ok_0.1 == (NFTEvent::Transfer {
                from: v.owners[token_id@],
                to: zero_actor(),
                token_id,
            })
        }),
{
}

/// One message to the token program, with its sender and the origin of its chain.
pub struct NftCall {
    pub action: NFTAction,
    pub source: ActorId,
    pub origin: ActorId,
}

/// The state after one message: the new state if accepted, the same if refused.
pub open spec fn after_nft_call(v: NftView, c: NftCall) -> NftView {
    match v.handle_result(c.action, c.source, c.origin) {
        Ok((w, _)) => w,
        Err(_) => v,
    }
}

/// The state after a run of messages, handled in order.
pub open spec fn run_nft(v: NftView, calls: Seq<NftCall>) -> NftView
    decreases calls.len(),
{
    if calls.len() == 0 {
        v
    } else {
        after_nft_call(run_nft(v, calls.drop_last()), calls.last())
    }
}

/// The accounts that accepted approvals of token `t` in a run name.
pub open spec fn approvals_granted(v: NftView, calls: Seq<NftCall>, t: TokenId) -> Set<Seq<u8>>
    decreases calls.len(),
{
    if calls.len() == 0 {
        Set::empty()
    } else {
        let before = run_nft(v, calls.drop_last());
        let c = calls.last();
        let earlier = approvals_granted(v, calls.drop_last(), t);
        match c.action {
            NFTAction::Approve { to, token_id } => if token_id@ == t@ && before.handle_result(
                c.action,
                c.source,
                c.origin,
            ) is Ok {
                earlier.insert(to@)
            } else {
                earlier
            },
            _ => earlier,
        }
    }
}

/// A state without approvals of `t` (as any transfer of `t` leaves it) stays so,
/// run after run, except for the accounts that later accepted approvals of `t`
/// name: whoever is approved for `t` after the run was approved for it in the run.
pub proof fn lemma_approvals_only_from_later_approvals(v: NftView, calls: Seq<NftCall>, t: TokenId, a: ActorId)
    requires
        !v.approvals.contains_key(t@),
    ensures
        run_nft(v, calls).approved(t, a) ==> approvals_granted(v, calls, t).contains(a@),
    decreases calls.len(),
{
    lemma_approval_lists_granted(v, calls, t);
    let w = run_nft(v, calls);
    if w.approved(t, a) {
        let i = choose|i: int| 0 <= i < w.approvals[t@].len() && #[trigger] w.approvals[t@][i]@ == a@;
        assert(approvals_granted(v, calls, t).contains(w.approvals[t@][i]@));
    }
}

proof fn lemma_approval_lists_granted(v: NftView, calls: Seq<NftCall>, t: TokenId)
    requires
        !v.approvals.contains_key(t@),
    ensures
        run_nft(v, calls).approvals.contains_key(t@) ==> forall|i: int|
            0 <= i < run_nft(v, calls).approvals[t@].len() ==> approvals_granted(v, calls, t).contains(
                #[trigger] run_nft(v, calls).approvals[t@][i]@,
            ),
    decreases calls.len(),
{
    if calls.len() > 0 {
        let prev = calls.drop_last();
        lemma_approval_lists_granted(v, prev, t);
        let before = run_nft(v, prev);
        let c = calls.last();
        let after = run_nft(v, calls);
        let granted = approvals_granted(v, calls, t);
        assert(approvals_granted(v, prev, t).subset_of(granted));
        if after.approvals.contains_key(t@) {
            assert forall|i: int| 0 <= i < after.approvals[t@].len() implies granted.contains(
                #[trigger] after.approvals[t@][i]@,
            ) by {
                match c.action {
                    NFTAction::Approve { to, token_id } => {
                        if token_id@ == t@ && before.handle_result(c.action, c.source, c.origin) is Ok {
                            if before.approvals.contains_key(t@) && i < before.approvals[t@].len() {
                                assert(after.approvals[t@][i] == before.approvals[t@][i]);
                            } else {
                                assert(after.approvals[t@][i] == to);
                            }
                        } else {
                            assert(after.approvals[t@] == before.approvals[t@]);
                        }
                    },
                    _ => {
                        assert(after.approvals[t@] == before.approvals[t@]);
                    },
                }
            }
        }
    }
}

/// An approval is used up by the transfer it allows: once `t` has no approvals
/// (as after any transfer of `t`), an account that no later accepted approval
/// of `t` names cannot transfer `t` unless it, or the origin of its message,
/// owns the token.
pub proof fn lemma_used_approval_is_gone(
    v: NftView,
    calls: Seq<NftCall>,
    t: TokenId,
    a: ActorId,
    origin: ActorId,
    to: ActorId,
)
    requires
        !v.approvals.contains_key(t@),
        !approvals_granted(v, calls, t).contains(a@),
        run_nft(v, calls).owners.contains_key(t@) ==> run_nft(v, calls).owners[t@]@ != a@
            && run_nft(v, calls).owners[t@]@ != origin@,
    ensures
        run_nft(v, calls).transfer_result(to, t, a, origin) is Err,
{
    lemma_approvals_only_from_later_approvals(v, calls, t, a);
}

/// Creates the token program with its name, symbol and base URI, and no tokens.
pub fn init(config: InitNFT) -> (r: NonFungibleToken)
    ensures
        r.wf(),
        r@.name == config.name@,
        r@.symbol == config.symbol@,
        r@.base_uri == config.base_uri@,
        r@.owners == Map::<Seq<u64>, ActorId>::empty(),
        r@.approvals == Map::<Seq<u64>, Seq<ActorId>>::empty(),
        r@.metadata == Map::<Seq<u64>, Option<TokenMetadata>>::empty(),
        r@.tokens_for_owner == Map::<Seq<u8>, Seq<TokenId>>::empty(),
{
    NonFungibleToken::new(config)
}

} // verus!
