use anchor_lang::prelude::Pubkey;
use neftit_nft::{
    authority_address, check_mint_accounts, initialize, mint_nft, nft_metadata_data,
    nft_minted_event, Address, Authority, AuthorityAccount, Initialize, Ledger, MintNft, NftError,
};

fn program_id() -> Pubkey {
    Pubkey::new_from_array([7u8; 32])
}

fn addr(k: &Pubkey) -> Address {
    Address::new(k.to_bytes())
}

fn fresh_ledger() -> Ledger {
    Ledger::new(
        addr(&program_id()),
        addr(&anchor_spl::token::ID),
        addr(&anchor_spl::associated_token::ID),
    )
}

fn canonical_authority() -> (Pubkey, u8) {
    Pubkey::find_program_address(&[b"authority"], &program_id())
}

fn init_ctx(authority: Pubkey) -> Initialize {
    Initialize {
        authority: addr(&authority),
        payer: Address::new([9u8; 32]),
        payer_is_signer: true,
        payer_lamports: 1_000_000,
        rent_minimum: 953_520,
    }
}

fn initialized_ledger() -> Ledger {
    let mut l = fresh_ledger();
    let (pda, _) = canonical_authority();
    assert_eq!(initialize(&mut l, &init_ctx(pda)), Ok(()));
    l
}

fn payer() -> Pubkey {
    Pubkey::new_from_array([9u8; 32])
}

fn mint_key(seed: u8) -> Pubkey {
    Pubkey::new_from_array([seed; 32])
}

fn mint_ctx(mint: Pubkey) -> MintNft {
    let (pda, _) = canonical_authority();
    let ata = anchor_spl::associated_token::get_associated_token_address(&payer(), &mint);
    MintNft {
        authority: addr(&pda),
        mint: addr(&mint),
        token_account: addr(&ata),
        metadata: Address::new([3u8; 32]),
        payer: addr(&payer()),
        payer_is_signer: true,
        payer_lamports: 10_000_000,
        rent_minimum: 3_500_000,
        token_program: addr(&anchor_spl::token::ID),
        associated_token_program: addr(&anchor_spl::associated_token::ID),
        token_metadata_program: Address::new([4u8; 32]),
    }
}

fn mint_test(l: &mut Ledger, ctx: &MintNft, mint_to: Result<(), u32>, md: Result<(), u32>) -> Result<neftit_nft::NftMinted, NftError> {
    mint_nft(
        l,
        ctx,
        "Test".to_string(),
        "T".to_string(),
        "ipfs://x".to_string(),
        "Legendary".to_string(),
        mint_to,
        md,
    )
}

#[test]
fn authority_address_is_the_canonical_pda() {
    let (pda, bump) = canonical_authority();
    let found = authority_address(&addr(&program_id())).unwrap();
    assert_eq!(found.0, addr(&pda));
    assert_eq!(found.1, bump);
    assert_ne!(found.0, addr(&program_id()));
}

#[test]
fn initialize_stores_derivation_bump() {
    let (pda, bump) = canonical_authority();
    let mut l = fresh_ledger();
    assert_eq!(initialize(&mut l, &init_ctx(pda)), Ok(()));
    let acc = l.authority.unwrap();
    assert_eq!(acc.address, addr(&pda));
    assert_eq!(acc.state.bump, bump);
    let again = Pubkey::create_program_address(&[b"authority", &[acc.state.bump]], &program_id()).unwrap();
    assert_eq!(addr(&again), acc.address);
}

#[test]
fn second_initialize_fails_and_keeps_bump() {
    let (pda, bump) = canonical_authority();
    let mut l = initialized_ledger();
    assert_eq!(initialize(&mut l, &init_ctx(pda)), Err(NftError::AccountAlreadyInUse));
    let acc = l.authority.unwrap();
    assert_eq!(acc.state.bump, bump);
    assert_eq!(acc.address, addr(&pda));
}

#[test]
fn initialize_rejects_other_address() {
    let mut l = fresh_ledger();
    let ctx = init_ctx(Pubkey::new_from_array([1u8; 32]));
    assert_eq!(initialize(&mut l, &ctx), Err(NftError::ConstraintSeeds));
    assert!(l.authority.is_none());
}

#[test]
fn initialize_requires_signer_and_funds() {
    let (pda, _) = canonical_authority();
    let mut l = fresh_ledger();
    let mut ctx = init_ctx(pda);
    ctx.payer_is_signer = false;
    assert_eq!(initialize(&mut l, &ctx), Err(NftError::MissingSigner));
    let mut ctx = init_ctx(pda);
    ctx.payer_lamports = 953_519;
    assert_eq!(initialize(&mut l, &ctx), Err(NftError::InsufficientFunds));
    assert!(l.authority.is_none());
    ctx.payer_lamports = 953_520;
    assert_eq!(initialize(&mut l, &ctx), Ok(()));
}

#[test]
fn mint_nft_commits_one_unit_and_metadata() {
    let mut l = initialized_ledger();
    let mint = mint_key(5);
    let ctx = mint_ctx(mint);
    let ev = mint_test(&mut l, &ctx, Ok(()), Ok(())).unwrap();
    assert_eq!(l.mints.len(), 1);
    assert_eq!(l.mints[0].address, addr(&mint));
    assert_eq!(l.mints[0].decimals, 0);
    assert_eq!(l.mints[0].supply, 1);
    assert_eq!(l.mints[0].mint_authority, ctx.authority);
    assert_eq!(l.token_accounts.len(), 1);
    assert_eq!(l.token_accounts[0].amount, 1);
    assert_eq!(l.token_accounts[0].owner, addr(&payer()));
    assert_eq!(l.token_accounts[0].mint, addr(&mint));
    let md = &l.metadata[0];
    assert_eq!(md.address, Address::new([3u8; 32]));
    assert_eq!(md.mint, addr(&mint));
    assert_eq!(md.update_authority, ctx.authority);
    assert!(md.is_mutable);
    assert_eq!(md.data.name, "Test");
    assert_eq!(md.data.symbol, "T");
    assert_eq!(md.data.uri, "ipfs://x");
    assert_eq!(md.data.seller_fee_basis_points, 500);
    let creators = md.data.creators.as_ref().unwrap();
    assert_eq!(creators.len(), 1);
    assert_eq!(creators[0].address, ctx.authority);
    assert!(creators[0].verified);
    assert_eq!(creators[0].share, 100);
    assert!(md.data.collection.is_none());
    assert!(md.data.uses.is_none());
    assert_eq!(ev.name, "Test");
    assert_eq!(l.events.len(), 1);
}

#[test]
fn mint_nft_event_names_mint_and_payer() {
    let mut l = initialized_ledger();
    let mint = mint_key(6);
    let ctx = mint_ctx(mint);
    let ev = mint_test(&mut l, &ctx, Ok(()), Ok(())).unwrap();
    assert_eq!(ev.mint, addr(&mint));
    assert_eq!(ev.owner, addr(&payer()));
    assert_eq!(ev.name, "Test");
    assert_eq!(ev.rarity, "Legendary");
    assert_eq!(l.events[0].mint, addr(&mint));
    assert_eq!(l.events[0].rarity, "Legendary");
}

#[test]
fn token_failure_rolls_back_everything() {
    let mut l = initialized_ledger();
    let ctx = mint_ctx(mint_key(5));
    assert_eq!(
        mint_test(&mut l, &ctx, Err(3), Ok(())).unwrap_err(),
        NftError::TokenProgramFailed { code: 3 }
    );
    assert_eq!(l.mints.len(), 0);
    assert_eq!(l.token_accounts.len(), 0);
    assert_eq!(l.metadata.len(), 0);
    assert_eq!(l.events.len(), 0);
}

#[test]
fn metadata_failure_rolls_back_the_mint() {
    let mut l = initialized_ledger();
    let ctx = mint_ctx(mint_key(5));
    assert_eq!(
        mint_test(&mut l, &ctx, Ok(()), Err(11)).unwrap_err(),
        NftError::MetadataProgramFailed { code: 11 }
    );
    assert_eq!(l.mints.len(), 0);
    assert_eq!(l.token_accounts.len(), 0);
    assert_eq!(l.metadata.len(), 0);
    assert_eq!(l.events.len(), 0);
}

#[test]
fn bump_mismatch_fails_before_calls() {
    let (pda, bump) = canonical_authority();
    let mut l = initialized_ledger();
    l.authority = Some(AuthorityAccount {
        address: addr(&pda),
        state: Authority { bump: bump.wrapping_sub(1) },
    });
    let ctx = mint_ctx(mint_key(5));
    assert_eq!(check_mint_accounts(&l, &ctx), Err(NftError::ConstraintSeeds));
    assert_eq!(mint_test(&mut l, &ctx, Ok(()), Ok(())).unwrap_err(), NftError::ConstraintSeeds);
    assert_eq!(mint_test(&mut l, &ctx, Err(1), Err(2)).unwrap_err(), NftError::ConstraintSeeds);
    assert_eq!(l.mints.len(), 0);
    assert_eq!(l.events.len(), 0);
}

#[test]
fn mint_before_initialize_fails() {
    let mut l = fresh_ledger();
    let ctx = mint_ctx(mint_key(5));
    assert_eq!(mint_test(&mut l, &ctx, Ok(()), Ok(())).unwrap_err(), NftError::AccountNotInitialized);
}

#[test]
fn mint_rejects_reused_mint() {
    let mut l = initialized_ledger();
    let ctx = mint_ctx(mint_key(5));
    assert!(mint_test(&mut l, &ctx, Ok(()), Ok(())).is_ok());
    assert_eq!(mint_test(&mut l, &ctx, Ok(()), Ok(())).unwrap_err(), NftError::AccountAlreadyInUse);
    assert_eq!(l.mints.len(), 1);
    let second = mint_ctx(mint_key(8));
    assert!(mint_test(&mut l, &second, Ok(()), Ok(())).is_ok());
    assert_eq!(l.mints.len(), 2);
    assert_eq!(l.events.len(), 2);
}

#[test]
fn mint_rejects_foreign_token_account() {
    let mut l = initialized_ledger();
    let mut ctx = mint_ctx(mint_key(5));
    ctx.token_account = Address::new([2u8; 32]);
    assert_eq!(check_mint_accounts(&l, &ctx), Err(NftError::ConstraintAssociated));
    assert_eq!(mint_test(&mut l, &ctx, Ok(()), Ok(())).unwrap_err(), NftError::ConstraintAssociated);
}

#[test]
fn mint_rejects_wrong_programs_signer_and_funds() {
    let mut l = initialized_ledger();
    let mut ctx = mint_ctx(mint_key(5));
    ctx.token_program = Address::new([2u8; 32]);
    assert_eq!(mint_test(&mut l, &ctx, Ok(()), Ok(())).unwrap_err(), NftError::InvalidProgramId);
    let mut ctx = mint_ctx(mint_key(5));
    ctx.payer_is_signer = false;
    assert_eq!(mint_test(&mut l, &ctx, Ok(()), Ok(())).unwrap_err(), NftError::MissingSigner);
    let mut ctx = mint_ctx(mint_key(5));
    ctx.payer_lamports = 3_499_999;
    assert_eq!(mint_test(&mut l, &ctx, Ok(()), Ok(())).unwrap_err(), NftError::InsufficientFunds);
    assert_eq!(l.mints.len(), 0);
}

#[test]
fn metadata_data_is_fixed() {
    let auth = Address::new([12u8; 32]);
    let d = nft_metadata_data(auth, "A".to_string(), "B".to_string(), "C".to_string());
    assert_eq!(d.name, "A");
    assert_eq!(d.symbol, "B");
    assert_eq!(d.uri, "C");
    assert_eq!(d.seller_fee_basis_points, 500);
    assert_eq!(d.creators.unwrap()[0].address, auth);
}

#[test]
fn minted_event_carries_fields() {
    let ctx = mint_ctx(mint_key(5));
    let e = nft_minted_event(ctx.mint, ctx.payer, "Test".to_string(), "Legendary".to_string());
    assert_eq!(e.mint, ctx.mint);
    assert_eq!(e.owner, ctx.payer);
    assert_eq!(e.rarity, "Legendary");
}

#[test]
fn address_equality_is_bytewise() {
    let mut b = [1u8; 32];
    assert_eq!(Address::new(b), Address::new([1u8; 32]));
    b[31] = 2;
    assert_ne!(Address::new(b), Address::new([1u8; 32]));
}
