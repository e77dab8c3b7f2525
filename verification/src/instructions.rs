use crate::addr::Address;
use crate::market::{market_initialized, Market};
use crate::vault::{vault_initialized, Vault};
use vstd::prelude::*;

verus! {

/// The accounts one Market Initializer invocation works on: the Market
/// record located (and, if absent, freshly allocated) at its derived
/// address, and the bump byte found during that derivation.
pub struct InitializeMarket {
    pub market_state: Market,
    pub bump: u8,
}

/// The accounts one Vault Initializer invocation works on: the Vault record
/// located (and, if absent, freshly allocated) at its derived address, the
/// derived address of the share mint allocated alongside it, and the bump
/// byte of the custody signer.
pub struct InitializeVault {
    pub vault_state: Vault,
    pub share_mint: Address,
    pub pda_bump: u8,
}

/// Seed the Market record with the caller-supplied references and the
/// protocol defaults. Overwrites every field of the record, whatever it
/// held before.
pub fn initialize_market(
    ctx: &mut InitializeMarket,
    vault: Address,
    oracle: Address,
    collateral_token: Address,
)
    ensures
        final(ctx).market_state@ == market_initialized(
            vault@,
            oracle@,
            collateral_token@,
            old(ctx).bump,
        ),
        final(ctx).bump == old(ctx).bump,
{
    let bump = ctx.bump;
    ctx.market_state.initialize(vault, oracle, collateral_token, bump);
}

/// Seed the Vault record with the caller-supplied market reference and
/// utilization cap, the derived share-mint address and the custody signer's
/// bump. Overwrites every field of the record, whatever it held before.
pub fn initialize_vault(ctx: &mut InitializeVault, market: Address, util_pct: u64)
    ensures
        final(ctx).vault_state@ == vault_initialized(
            market@,
            util_pct,
            old(ctx).share_mint@,
            old(ctx).pda_bump,
        ),
        final(ctx).share_mint == old(ctx).share_mint,
        final(ctx).pda_bump == old(ctx).pda_bump,
{
    let share_mint = ctx.share_mint;
    let pda_bump = ctx.pda_bump;
    ctx.vault_state.initialize(market, util_pct, share_mint, pda_bump);
}

} // verus!
