use gear_dapps::ids::{ActorId, U256};
use gear_dapps::nft::{handle, init, InitNFT, NFTAction, NFTEvent, NftError, NonFungibleToken, TokenMetadata};

fn actor(n: u64) -> ActorId {
    let mut bytes = [0u8; 32];
    bytes[..8].copy_from_slice(&n.to_le_bytes());
    ActorId { bytes }
}

fn zero() -> ActorId {
    ActorId { bytes: [0; 32] }
}

fn token(n: u64) -> U256 {
    U256 { words: [n, 0, 0, 0] }
}

fn new_nft() -> NonFungibleToken {
    init(InitNFT { name: "NFT".to_string(), symbol: "NFT".to_string(), base_uri: "uri".to_string() })
}

fn mint(nft: &mut NonFungibleToken, to: u64, id: u64) -> Result<NFTEvent, NftError> {
    let md = TokenMetadata { title: Some("t".to_string()), ..TokenMetadata::default() };
    handle(nft, NFTAction::Mint { to: actor(to), token_id: token(id), token_metadata: Some(md) }, actor(99), actor(99))
}

fn owner(nft: &NonFungibleToken, id: u64) -> Option<ActorId> {
    nft.owner_by_id.get(&token(id)).copied()
}

#[test]
fn mint_gives_the_token_to_its_receiver() {
    let mut nft = new_nft();
    assert_eq!(mint(&mut nft, 1, 7), Ok(NFTEvent::Transfer { from: zero(), to: actor(1), token_id: token(7) }));
    assert_eq!(owner(&nft, 7), Some(actor(1)));
    assert_eq!(nft.token_metadata_by_id.get(&token(7)).cloned().flatten().unwrap().title, Some("t".to_string()));
    assert_eq!(mint(&mut nft, 2, 7), Err(NftError::TokenAlreadyExists));
    assert_eq!(owner(&nft, 7), Some(actor(1)));
    assert_eq!(nft.owner_by_id.len(), 1);
}

#[test]
fn burn_undoes_mint() {
    let mut nft = new_nft();
    mint(&mut nft, 1, 5).unwrap();
    mint(&mut nft, 1, 7).unwrap();
    assert_eq!(handle(&mut nft, NFTAction::Burn { token_id: token(7) }, actor(2), actor(2)), Err(NftError::NotAllowed));
    assert_eq!(
        handle(&mut nft, NFTAction::Burn { token_id: token(7) }, actor(1), actor(1)),
        Ok(NFTEvent::Transfer { from: actor(1), to: zero(), token_id: token(7) })
    );
    assert_eq!(owner(&nft, 7), None);
    assert_eq!(owner(&nft, 5), Some(actor(1)));
    assert_eq!(nft.owner_by_id.len(), 1);
    assert_eq!(
        handle(&mut nft, NFTAction::Burn { token_id: token(7) }, actor(1), actor(1)),
        Err(NftError::TokenDoesNotExist)
    );
}

#[test]
fn transfer_moves_ownership_and_clears_approvals() {
    let mut nft = new_nft();
    mint(&mut nft, 1, 7).unwrap();
    assert_eq!(
        handle(&mut nft, NFTAction::Approve { to: actor(3), token_id: token(7) }, actor(1), actor(1)),
        Ok(NFTEvent::Approval { owner: actor(1), approved_account: actor(3), token_id: token(7) })
    );
    assert_eq!(nft.token_approvals.get(&token(7)), Some(&vec![actor(3)]));
    // an approved account may transfer
    assert_eq!(
        handle(&mut nft, NFTAction::Transfer { to: actor(4), token_id: token(7) }, actor(3), actor(3)),
        Ok(NFTEvent::Transfer { from: actor(1), to: actor(4), token_id: token(7) })
    );
    assert_eq!(owner(&nft, 7), Some(actor(4)));
    assert!(!nft.token_approvals.contains_key(&token(7)));
    // and not any more
    assert_eq!(
        handle(&mut nft, NFTAction::Transfer { to: actor(3), token_id: token(7) }, actor(3), actor(3)),
        Err(NftError::NotAllowed)
    );
}

#[test]
fn the_origin_acts_for_its_tokens() {
    let mut nft = new_nft();
    mint(&mut nft, 1, 7).unwrap();
    // sent through a program (actor 50) on behalf of the owner
    assert!(handle(&mut nft, NFTAction::Transfer { to: actor(2), token_id: token(7) }, actor(50), actor(1)).is_ok());
    assert_eq!(owner(&nft, 7), Some(actor(2)));
}

#[test]
fn approvals_accumulate() {
    let mut nft = new_nft();
    mint(&mut nft, 1, 7).unwrap();
    handle(&mut nft, NFTAction::Approve { to: actor(3), token_id: token(7) }, actor(1), actor(1)).unwrap();
    handle(&mut nft, NFTAction::Approve { to: actor(4), token_id: token(7) }, actor(1), actor(1)).unwrap();
    assert_eq!(nft.token_approvals.get(&token(7)), Some(&vec![actor(3), actor(4)]));
}

#[test]
fn zero_address_and_missing_tokens_are_refused() {
    let mut nft = new_nft();
    mint(&mut nft, 1, 7).unwrap();
    assert_eq!(
        handle(&mut nft, NFTAction::Transfer { to: zero(), token_id: token(7) }, actor(1), actor(1)),
        Err(NftError::ZeroAddress)
    );
    assert_eq!(
        handle(&mut nft, NFTAction::Approve { to: zero(), token_id: token(7) }, actor(1), actor(1)),
        Err(NftError::ZeroAddress)
    );
    assert_eq!(
        handle(&mut nft, NFTAction::Transfer { to: actor(2), token_id: token(8) }, actor(1), actor(1)),
        Err(NftError::TokenDoesNotExist)
    );
    assert_eq!(
        handle(&mut nft, NFTAction::Approve { to: actor(2), token_id: token(8) }, actor(1), actor(1)),
        Err(NftError::TokenDoesNotExist)
    );
    assert_eq!(owner(&nft, 7), Some(actor(1)));
}

#[test]
fn approvals_outlive_a_burn() {
    let mut nft = new_nft();
    mint(&mut nft, 1, 7).unwrap();
    handle(&mut nft, NFTAction::Approve { to: actor(3), token_id: token(7) }, actor(1), actor(1)).unwrap();
    handle(&mut nft, NFTAction::Burn { token_id: token(7) }, actor(1), actor(1)).unwrap();
    // the approved account passes the check, but the token is gone
    assert_eq!(
        handle(&mut nft, NFTAction::Transfer { to: actor(4), token_id: token(7) }, actor(3), actor(3)),
        Err(NftError::TokenDoesNotExist)
    );
}

#[test]
fn owner_lists_are_never_created() {
    let mut nft = new_nft();
    mint(&mut nft, 1, 7).unwrap();
    handle(&mut nft, NFTAction::Transfer { to: actor(2), token_id: token(7) }, actor(1), actor(1)).unwrap();
    handle(&mut nft, NFTAction::Burn { token_id: token(7) }, actor(2), actor(2)).unwrap();
    assert_eq!(nft.tokens_for_owner.len(), 0);
}

#[test]
fn token_ids_compare_all_words() {
    let mut nft = new_nft();
    mint(&mut nft, 1, 7).unwrap();
    let big = U256 { words: [7, 0, 0, 1] };
    assert!(handle(&mut nft, NFTAction::Mint { to: actor(2), token_id: big, token_metadata: None }, actor(2), actor(2)).is_ok());
    assert_eq!(nft.owner_by_id.get(&big), Some(&actor(2)));
    assert_eq!(owner(&nft, 7), Some(actor(1)));
}

#[test]
fn a_used_approval_is_gone_until_granted_again() {
    let mut nft = new_nft();
    mint(&mut nft, 1, 7).unwrap();
    handle(&mut nft, NFTAction::Approve { to: actor(3), token_id: token(7) }, actor(1), actor(1)).unwrap();
    handle(&mut nft, NFTAction::Transfer { to: actor(4), token_id: token(7) }, actor(3), actor(3)).unwrap();
    // unrelated messages in between
    mint(&mut nft, 1, 8).unwrap();
    handle(&mut nft, NFTAction::Approve { to: actor(3), token_id: token(8) }, actor(1), actor(1)).unwrap();
    assert_eq!(
        handle(&mut nft, NFTAction::Transfer { to: actor(5), token_id: token(7) }, actor(3), actor(3)),
        Err(NftError::NotAllowed)
    );
    // the new owner approves it again
    handle(&mut nft, NFTAction::Approve { to: actor(3), token_id: token(7) }, actor(4), actor(4)).unwrap();
    assert!(handle(&mut nft, NFTAction::Transfer { to: actor(5), token_id: token(7) }, actor(3), actor(3)).is_ok());
}
