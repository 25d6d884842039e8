use vstd::prelude::*;
use crate::address::{bump_search, find_address, program_address};
use crate::instructions::{
    authority_seeds, authority_seeds_with_bump, initialize_error, initialized,
    mint_accounts_error, mint_nft_error, minted, has_mint,
};
use crate::state::{Creator, Initialize, Ledger, MintNft, NftError, NftMinted};

verus! {

/// A bump found by the canonical search derives the address found with it,
/// and lies between 1 and the bump the search started from.
pub proof fn lemma_bump_search_derives(seeds: Seq<Seq<u8>>, program: Seq<u8>, bump: nat)
    requires
        bump_search(seeds, program, bump) is Some,
    ensures
        ({
            let (a, b) = bump_search(seeds, program, bump)->Some_0;
            &&& program_address(seeds.push(seq![b]), program) == Some(a)
            &&& 1 <= b <= bump
        }),
    decreases bump,
{
    if bump == 0 || bump > 255 {
    } else {
        match program_address(seeds.push(seq![bump as u8]), program) {
            Some(a) => {},
            None => {
                lemma_bump_search_derives(seeds, program, (bump - 1) as nat);
            },
        }
    }
}

/// After a successful `initialize` exactly one authority exists: at the
/// supplied address, which its stored bump derives from the authority seed.
pub proof fn initialize_records_derivation_bump(l: Ledger, ctx: Initialize)
    requires
        initialize_error(l, ctx) is None,
    ensures
        initialized(l, ctx).authority is Some,
        ({
            let acc = initialized(l, ctx).authority->Some_0;
            &&& acc.address@ == ctx.authority@
            &&& find_address(authority_seeds(), l.program_id@) == Some((ctx.authority@, acc.state.bump))
            &&& program_address(authority_seeds_with_bump(acc.state.bump), l.program_id@) == Some(ctx.authority@)
        }),
{
    lemma_bump_search_derives(authority_seeds(), l.program_id@, 255);
}

/// Once `initialize` has succeeded, every later `initialize` fails (and so
/// leaves the stored bump as it is).
pub proof fn initialize_only_once(l: Ledger, first: Initialize, second: Initialize)
    requires
        initialize_error(l, first) is None,
    ensures
        initialize_error(initialized(l, first), second) is Some,
{
}

/// After a committed `mint_nft` the new mint has no decimals and a supply of
/// one, it is the only mint at its address, and the payer's new token
/// account holds that one unit.
pub proof fn mint_nft_mints_one_unit(
    l: Ledger,
    n: Ledger,
    ctx: MintNft,
    name: Seq<char>,
    symbol: Seq<char>,
    uri: Seq<char>,
    rarity: Seq<char>,
    e: NftMinted,
)
    requires
        mint_accounts_error(l, ctx) is None,
        minted(l, n, ctx, name, symbol, uri, rarity, e),
    ensures
        n.mints@.last().address == ctx.mint,
        n.mints@.last().decimals == 0,
        n.mints@.last().supply == 1,
        forall|i: int| 0 <= i < n.mints@.len() - 1 ==> n.mints@[i].address@ != ctx.mint@,
        n.token_accounts@.last().mint == ctx.mint,
        n.token_accounts@.last().owner == ctx.payer,
        n.token_accounts@.last().amount == 1,
{
    assert(!has_mint(l, ctx.mint));
    assert forall|i: int| 0 <= i < n.mints@.len() - 1 implies n.mints@[i].address@ != ctx.mint@ by {
        assert(n.mints@[i] == l.mints@[i]);
    }
}

/// After a committed `mint_nft` the new metadata record declares a royalty of
/// 500 basis points, the authority as its one verified creator with a share
/// of 100, and neither collection nor uses.
pub proof fn mint_nft_metadata_is_fixed(
    l: Ledger,
    n: Ledger,
    ctx: MintNft,
    name: Seq<char>,
    symbol: Seq<char>,
    uri: Seq<char>,
    rarity: Seq<char>,
    e: NftMinted,
)
    requires
        minted(l, n, ctx, name, symbol, uri, rarity, e),
    ensures
        ({
            let d = n.metadata@.last().data;
            &&& d.seller_fee_basis_points == 500
            &&& d.creators is Some
            &&& d.creators->Some_0@.len() == 1
            &&& d.creators->Some_0@[0] == Creator { address: ctx.authority, verified: true, share: 100 }
            &&& d.collection is None
            &&& d.uses is None
            &&& d.name@ == name
            &&& d.symbol@ == symbol
            &&& d.uri@ == uri
        }),
        n.metadata@.last().mint == ctx.mint,
{
}

/// Where the token program refuses to mint, the transaction fails with its
/// code whatever the metadata program would answer: no metadata record and no
/// event come of it.
pub proof fn mint_failure_rolls_back(l: Ledger, ctx: MintNft, code: u32, create_metadata: Result<(), u32>)
    requires
        mint_accounts_error(l, ctx) is None,
    ensures
        mint_nft_error(l, ctx, Err(code), create_metadata) == Some(NftError::TokenProgramFailed { code }),
{
}

/// Where the metadata program refuses after the token program has minted,
/// the transaction fails with its code, and the minted unit goes with it.
pub proof fn metadata_failure_rolls_back(l: Ledger, ctx: MintNft, code: u32)
    requires
        mint_accounts_error(l, ctx) is None,
    ensures
        mint_nft_error(l, ctx, Ok(()), Err(code)) == Some(NftError::MetadataProgramFailed { code }),
{
}

/// The event of a committed `mint_nft` names the mint passed in and the payer
/// as owner, with the given name and rarity, and is the last one broadcast.
pub proof fn mint_nft_event_fields(
    l: Ledger,
    n: Ledger,
    ctx: MintNft,
    name: Seq<char>,
    symbol: Seq<char>,
    uri: Seq<char>,
    rarity: Seq<char>,
    e: NftMinted,
)
    requires
        minted(l, n, ctx, name, symbol, uri, rarity, e),
    ensures
        e.mint == ctx.mint,
        e.owner == ctx.payer,
        e.name@ == name,
        e.rarity@ == rarity,
        n.events@.last() == e,
{
}

/// An authority whose stored bump does not derive the supplied address is
/// refused before either program is called: the error does not depend on
/// their answers.
pub proof fn bump_mismatch_fails_before_calls(
    l: Ledger,
    ctx: MintNft,
    mint_to: Result<(), u32>,
    create_metadata: Result<(), u32>,
)
    requires
        l.authority is Some,
        l.authority->Some_0.address@ == ctx.authority@,
        program_address(authority_seeds_with_bump(l.authority->Some_0.state.bump), l.program_id@)
            != Some(ctx.authority@),
    ensures
        mint_accounts_error(l, ctx) is Some,
        mint_nft_error(l, ctx, mint_to, create_metadata) == mint_accounts_error(l, ctx),
{
}

} // verus!
