use vstd::prelude::*;
use crate::address::{
    Address, found_opt, find_address, program_address, same_address, seeds_view, create_program_address,
    try_find_program_address,
};
use crate::state::{
    Authority, AuthorityAccount, Creator, DataV2, Initialize, Ledger, MetadataAccount, MintAccount,
    MintNft, NftError, NftMinted, TokenAccount,
};

verus! {

/// The static seed of the authority's address: the bytes of "authority".
pub open spec fn authority_seed() -> Seq<u8> {
    seq![97u8, 117u8, 116u8, 104u8, 111u8, 114u8, 105u8, 116u8, 121u8]
}

/// The seeds of the authority's address, without the bump.
pub open spec fn authority_seeds() -> Seq<Seq<u8>> {
    seq![authority_seed()]
}

/// The seeds of the authority's address under a given bump.
pub open spec fn authority_seeds_with_bump(bump: u8) -> Seq<Seq<u8>> {
    authority_seeds().push(seq![bump])
}

/// The royalty that every minted item declares, in basis points.
pub const SELLER_FEE_BASIS_POINTS: u16 = 500;

/// The number of units minted for each item.
pub const NFT_AMOUNT: u64 = 1;

/// Whether the metadata record stays updatable by the authority.
pub const IS_MUTABLE: bool = true;

/// The share of the single creator, in percent.
pub const CREATOR_SHARE: u8 = 100;

fn authority_seed_list() -> (r: Vec<Vec<u8>>)
    ensures
        seeds_view(r@) == authority_seeds(),
{
    let seed: Vec<u8> = vec![97u8, 117u8, 116u8, 104u8, 111u8, 114u8, 105u8, 116u8, 121u8];
    let r: Vec<Vec<u8>> = vec![seed];
    proof {
        assert(seed@ =~= authority_seed());
        assert(seeds_view(r@) =~= authority_seeds());
    }
    r
}

/// The canonical address of the program's authority and its bump, derived
/// from the authority seed under the program id.
pub fn authority_address(program_id: &Address) -> (r: Option<(Address, u8)>)
    ensures
        found_opt(r) == find_address(authority_seeds(), program_id@),
{
    let seeds = authority_seed_list();
    try_find_program_address(&seeds, program_id)
}

/// Why `initialize` fails on a ledger, or `None` where it succeeds.
pub open spec fn initialize_error(l: Ledger, ctx: Initialize) -> Option<NftError> {
    if !ctx.payer_is_signer {
        Some(NftError::MissingSigner)
    } else {
        match find_address(authority_seeds(), l.program_id@) {
            None => Some(NftError::ConstraintSeeds),
            Some(found) => if found.0 != ctx.authority@ {
                Some(NftError::ConstraintSeeds)
            } else if l.authority is Some {
                Some(NftError::AccountAlreadyInUse)
            } else if ctx.payer_lamports < ctx.rent_minimum {
                Some(NftError::InsufficientFunds)
            } else {
                None
            },
        }
    }
}

/// The ledger after a successful `initialize`: the authority stands at the
/// supplied address, which is the canonical derived one, with its bump.
pub open spec fn initialized(l: Ledger, ctx: Initialize) -> Ledger {
    Ledger {
        authority: Some(
            AuthorityAccount {
                address: ctx.authority,
                state: Authority { bump: find_address(authority_seeds(), l.program_id@)->Some_0.1 },
            },
        ),
        ..l
    }
}

/// Creates the program's authority at its canonical derived address and
/// records the bump; fails, changing nothing, where the address is not the
/// derived one, the authority exists already or the payer cannot fund it.
pub fn initialize(ledger: &mut Ledger, ctx: &Initialize) -> (r: Result<(), NftError>)
    ensures
        match initialize_error(*old(ledger), *ctx) {
            Some(e) => r == Err::<(), NftError>(e) && *final(ledger) == *old(ledger),
            None => r is Ok && *final(ledger) == initialized(*old(ledger), *ctx),
        },
{
    if !ctx.payer_is_signer {
        return Err(NftError::MissingSigner);
    }
    let found = authority_address(&ledger.program_id);
    match found {
        None => Err(NftError::ConstraintSeeds),
        Some((address, bump)) => {
            if !same_address(&address, &ctx.authority) {
                Err(NftError::ConstraintSeeds)
            } else if ledger.authority.is_some() {
                Err(NftError::AccountAlreadyInUse)
            } else if ctx.payer_lamports < ctx.rent_minimum {
                Err(NftError::InsufficientFunds)
            } else {
                ledger.authority = Some(
                    AuthorityAccount { address: ctx.authority, state: Authority { bump } },
                );
                Ok(())
            }
        },
    }
}

/// Whether the ledger holds a mint at the address.
pub open spec fn has_mint(l: Ledger, a: Address) -> bool {
    exists|i: int| 0 <= i < l.mints@.len() && l.mints@[i].address@ == a@
}

/// Whether the ledger holds a token account at the address.
pub open spec fn has_token_account(l: Ledger, a: Address) -> bool {
    exists|i: int| 0 <= i < l.token_accounts@.len() && l.token_accounts@[i].address@ == a@
}

/// The seeds of the payer's associated token account for the mint.
pub open spec fn associated_seeds(ctx: MintNft) -> Seq<Seq<u8>> {
    seq![ctx.payer@, ctx.token_program@, ctx.mint@]
}

/// Why the accounts of `mint_nft` are refused before any call to another
/// program, or `None` where they are accepted.
pub open spec fn mint_accounts_error(l: Ledger, ctx: MintNft) -> Option<NftError> {
    if !ctx.payer_is_signer {
        Some(NftError::MissingSigner)
    } else if ctx.token_program@ != l.token_program_id@
        || ctx.associated_token_program@ != l.associated_token_program_id@ {
        Some(NftError::InvalidProgramId)
    } else {
        match l.authority {
            None => Some(NftError::AccountNotInitialized),
            Some(acc) => if acc.address@ != ctx.authority@ {
                Some(NftError::AccountNotInitialized)
            } else if program_address(authority_seeds_with_bump(acc.state.bump), l.program_id@)
                != Some(ctx.authority@) {
                Some(NftError::ConstraintSeeds)
            } else if has_mint(l, ctx.mint) {
                Some(NftError::AccountAlreadyInUse)
            } else if !(find_address(associated_seeds(ctx), ctx.associated_token_program@) is Some
                && find_address(associated_seeds(ctx), ctx.associated_token_program@)->Some_0.0
                == ctx.token_account@) {
                Some(NftError::ConstraintAssociated)
            } else if has_token_account(l, ctx.token_account) {
                Some(NftError::AccountAlreadyInUse)
            } else if ctx.payer_lamports < ctx.rent_minimum {
                Some(NftError::InsufficientFunds)
            } else {
                None
            },
        }
    }
}

/// Why a `mint_nft` transaction fails, given what the token program and the
/// metadata program answer, or `None` where it commits. The metadata program
/// is only called once the token program has minted.
pub open spec fn mint_nft_error(
    l: Ledger,
    ctx: MintNft,
    mint_to: Result<(), u32>,
    create_metadata: Result<(), u32>,
) -> Option<NftError> {
    match mint_accounts_error(l, ctx) {
        Some(e) => Some(e),
        None => match mint_to {
            Err(code) => Some(NftError::TokenProgramFailed { code }),
            Ok(_) => match create_metadata {
                Err(code) => Some(NftError::MetadataProgramFailed { code }),
                Ok(_) => None,
            },
        },
    }
}

/// The data of an item: name, symbol and uri as given, the fixed royalty,
/// the authority as single verified creator, no collection and no uses.
pub open spec fn nft_data(d: DataV2, authority: Address, name: Seq<char>, symbol: Seq<char>, uri: Seq<char>) -> bool {
    &&& d.name@ == name
    &&& d.symbol@ == symbol
    &&& d.uri@ == uri
    &&& d.seller_fee_basis_points == 500
    &&& d.creators is Some
    &&& d.creators->Some_0@ == seq![Creator { address: authority, verified: true, share: 100 }]
    &&& d.collection is None
    &&& d.uses is None
}

/// The metadata record that `mint_nft` creates.
pub open spec fn nft_metadata(m: MetadataAccount, ctx: MintNft, name: Seq<char>, symbol: Seq<char>, uri: Seq<char>) -> bool {
    &&& m.address == ctx.metadata
    &&& m.mint == ctx.mint
    &&& m.update_authority == ctx.authority
    &&& m.is_mutable
    &&& nft_data(m.data, ctx.authority, name, symbol, uri)
}

/// The event of a mint: the mint, the payer as owner, the name and rarity.
pub open spec fn nft_event(e: NftMinted, ctx: MintNft, name: Seq<char>, rarity: Seq<char>) -> bool {
    &&& e.mint == ctx.mint
    &&& e.owner == ctx.payer
    &&& e.name@ == name
    &&& e.rarity@ == rarity
}

/// The mint that `mint_nft` leaves: no decimals, one unit minted, the
/// authority as minter.
pub open spec fn nft_mint(ctx: MintNft) -> MintAccount {
    MintAccount { address: ctx.mint, decimals: 0, supply: 1, mint_authority: ctx.authority }
}

/// The payer's token account that `mint_nft` leaves, holding the one unit.
pub open spec fn nft_token_account(ctx: MintNft) -> TokenAccount {
    TokenAccount { address: ctx.token_account, mint: ctx.mint, owner: ctx.payer, amount: 1 }
}

/// The ledger `n` after a committed `mint_nft` on `l` that broadcast `e`.
pub open spec fn minted(
    l: Ledger,
    n: Ledger,
    ctx: MintNft,
    name: Seq<char>,
    symbol: Seq<char>,
    uri: Seq<char>,
    rarity: Seq<char>,
    e: NftMinted,
) -> bool {
    &&& n.program_id == l.program_id
    &&& n.token_program_id == l.token_program_id
    &&& n.associated_token_program_id == l.associated_token_program_id
    &&& n.authority == l.authority
    &&& n.mints@ == l.mints@.push(nft_mint(ctx))
    &&& n.token_accounts@ == l.token_accounts@.push(nft_token_account(ctx))
    &&& n.metadata@.len() == l.metadata@.len() + 1
    &&& n.metadata@.drop_last() == l.metadata@
    &&& nft_metadata(n.metadata@.last(), ctx, name, symbol, uri)
    &&& n.events@ == l.events@.push(e)
    &&& nft_event(e, ctx, name, rarity)
}

fn address_bytes(a: &Address) -> (r: Vec<u8>)
    ensures
        r@ == a@,
{
    let mut r: Vec<u8> = Vec::new();
    let mut i: usize = 0;
    while i < 32
        invariant
            0 <= i <= 32,
            a.bytes@.len() == 32,
            r@ == a@.take(i as int),
        decreases 32 - i,
    {
        r.push(a.bytes[i]);
        i = i + 1;
        proof {
            assert(r@ =~= a@.take(i as int));
        }
    }
    proof {
        assert(a@.take(32) =~= a@);
    }
    r
}

fn contains_mint(mints: &Vec<MintAccount>, a: &Address) -> (r: bool)
    ensures
        r == exists|i: int| 0 <= i < mints@.len() && mints@[i].address@ == a@,
{
    let mut i: usize = 0;
    while i < mints.len()
        invariant
            0 <= i <= mints@.len(),
            forall|j: int| 0 <= j < i ==> mints@[j].address@ != a@,
        decreases mints@.len() - i,
    {
        if same_address(&mints[i].address, a) {
            return true;
        }
        i = i + 1;
    }
    false
}

fn contains_token_account(accounts: &Vec<TokenAccount>, a: &Address) -> (r: bool)
    ensures
        r == exists|i: int| 0 <= i < accounts@.len() && accounts@[i].address@ == a@,
{
    let mut i: usize = 0;
    while i < accounts.len()
        invariant
            0 <= i <= accounts@.len(),
            forall|j: int| 0 <= j < i ==> accounts@[j].address@ != a@,
        decreases accounts@.len() - i,
    {
        if same_address(&accounts[i].address, a) {
            return true;
        }
        i = i + 1;
    }
    false
}

/// Checks the accounts of `mint_nft` as the runtime does before the program
/// runs: the signer, the program ids, the authority re-derived under its
/// stored bump, fresh mint and token account, the associated address and
/// the payer's funds.
pub fn check_mint_accounts(ledger: &Ledger, ctx: &MintNft) -> (r: Result<(), NftError>)
    ensures
        match mint_accounts_error(*ledger, *ctx) {
            Some(e) => r == Err::<(), NftError>(e),
            None => r is Ok,
        },
{
    if !ctx.payer_is_signer {
        return Err(NftError::MissingSigner);
    }
    if !same_address(&ctx.token_program, &ledger.token_program_id)
        || !same_address(&ctx.associated_token_program, &ledger.associated_token_program_id) {
        return Err(NftError::InvalidProgramId);
    }
    let acc = match ledger.authority {
        None => {
            return Err(NftError::AccountNotInitialized);
        },
        Some(acc) => acc,
    };
    if !same_address(&acc.address, &ctx.authority) {
        return Err(NftError::AccountNotInitialized);
    }
    let mut seeds = authority_seed_list();
    let bump_seed: Vec<u8> = vec![acc.state.bump];
    proof {
        assert(bump_seed@ =~= seq![acc.state.bump]);
        assert(seeds_view(seeds@).len() == 1);
        assert(seeds_view(seeds@)[0] == authority_seed());
        assert(seeds@[0]@ == authority_seed());
    }
    let ghost s0 = seeds@;
    seeds.push(bump_seed);
    proof {
        assert(seeds@ == s0.push(bump_seed));
        assert(seeds_view(seeds@)[1] == seq![acc.state.bump]);
        assert(seeds_view(seeds@)[0] == authority_seed());
        assert(seeds_view(seeds@) =~= authority_seeds_with_bump(acc.state.bump));
    }
    match create_program_address(&seeds, &ledger.program_id) {
        None => {
            return Err(NftError::ConstraintSeeds);
        },
        Some(derived) => {
            if !same_address(&derived, &ctx.authority) {
                return Err(NftError::ConstraintSeeds);
            }
        },
    }
    if contains_mint(&ledger.mints, &ctx.mint) {
        return Err(NftError::AccountAlreadyInUse);
    }
    let associated: Vec<Vec<u8>> = vec![
        address_bytes(&ctx.payer),
        address_bytes(&ctx.token_program),
        address_bytes(&ctx.mint),
    ];
    proof {
        assert(seeds_view(associated@) =~= associated_seeds(*ctx));
    }
    match try_find_program_address(&associated, &ctx.associated_token_program) {
        None => {
            return Err(NftError::ConstraintAssociated);
        },
        Some((address, _)) => {
            if !same_address(&address, &ctx.token_account) {
                return Err(NftError::ConstraintAssociated);
            }
        },
    }
    if contains_token_account(&ledger.token_accounts, &ctx.token_account) {
        return Err(NftError::AccountAlreadyInUse);
    }
    if ctx.payer_lamports < ctx.rent_minimum {
        return Err(NftError::InsufficientFunds);
    }
    Ok(())
}

/// The data that `mint_nft` hands to the metadata program.
pub fn nft_metadata_data(authority: Address, name: String, symbol: String, uri: String) -> (r: DataV2)
    ensures
        nft_data(r, authority, name@, symbol@, uri@),
{
    let creator = Creator { address: authority, verified: true, share: CREATOR_SHARE };
    let creators: Vec<Creator> = vec![creator];
    proof {
        assert(creators@ =~= seq![Creator { address: authority, verified: true, share: 100 }]);
    }
    DataV2 {
        name,
        symbol,
        uri,
        seller_fee_basis_points: SELLER_FEE_BASIS_POINTS,
        creators: Some(creators),
        collection: None,
        uses: None,
    }
}

/// The event that `mint_nft` broadcasts once both calls succeeded, for a
/// mint and the payer who owns its unit.
pub fn nft_minted_event(mint: Address, owner: Address, name: String, rarity: String) -> (r: NftMinted)
    ensures
        r.mint == mint,
        r.owner == owner,
        r.name == name,
        r.rarity == rarity,
{
    NftMinted { mint, owner, name, rarity }
}

/// Runs a `mint_nft` transaction on the ledger: checks the accounts, creates
/// the mint and the payer's token account, mints one unit signed by the
/// authority, creates the metadata record and broadcasts the event. The
/// answers of the token program and the metadata program are given; where
/// anything fails the whole transaction is rolled back.
pub fn mint_nft(
    ledger: &mut Ledger,
    ctx: &MintNft,
    name: String,
    symbol: String,
    uri: String,
    rarity: String,
    mint_to: Result<(), u32>,
    create_metadata: Result<(), u32>,
) -> (r: Result<NftMinted, NftError>)
    ensures
        match mint_nft_error(*old(ledger), *ctx, mint_to, create_metadata) {
            Some(e) => r == Err::<NftMinted, NftError>(e) && *final(ledger) == *old(ledger),
            None => r is Ok && minted(*old(ledger), *final(ledger), *ctx, name@, symbol@, uri@, rarity@, r->Ok_0),
        },
{
    match check_mint_accounts(ledger, ctx) {
        Err(e) => {
            return Err(e);
        },
        Ok(()) => {},
    }
    match mint_to {
        Err(code) => {
            return Err(NftError::TokenProgramFailed { code });
        },
        Ok(()) => {},
    }
    match create_metadata {
        Err(code) => {
            return Err(NftError::MetadataProgramFailed { code });
        },
        Ok(()) => {},
    }
    let data = nft_metadata_data(ctx.authority, name.clone(), symbol, uri);
    let event = nft_minted_event(ctx.mint, ctx.payer, name.clone(), rarity.clone());
    let logged = nft_minted_event(ctx.mint, ctx.payer, name, rarity);
    ledger.mints.push(
        MintAccount { address: ctx.mint, decimals: 0, supply: NFT_AMOUNT, mint_authority: ctx.authority },
    );
    ledger.token_accounts.push(
        TokenAccount { address: ctx.token_account, mint: ctx.mint, owner: ctx.payer, amount: NFT_AMOUNT },
    );
    let record = MetadataAccount {
        address: ctx.metadata,
        mint: ctx.mint,
        update_authority: ctx.authority,
        data,
        is_mutable: IS_MUTABLE,
    };
    ledger.metadata.push(record);
    ledger.events.push(logged);
    proof {
        assert(ledger.metadata@.drop_last() =~= old(ledger).metadata@);
    }
    Ok(event)
}

} // verus!
