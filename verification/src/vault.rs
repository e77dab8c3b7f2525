use crate::addr::{zero_address, Address};
use crate::params::WAD;
use vstd::prelude::*;

verus! {

/// Mathematical model of a Vault record: addresses as byte sequences.
#[verifier::ext_equal]
pub struct VaultModel {
    pub share_mint: Seq<u8>,
    pub pda_bump: u8,
    pub market: Seq<u8>,
    pub scale_factor: u64,
    pub max_util_percentage: u64,
    pub total_underlying_deposited: u64,
    pub total_shares: u64,
}

/// The Vault record: the liquidity pool backing the market, represented by
/// a mintable share token; one instance per deployment.
#[derive(Clone, Copy, Debug, PartialEq, Eq)]
pub struct Vault {
    pub share_mint: Address,
    pub pda_bump: u8,
    pub market: Address,
    pub scale_factor: u64,
    pub max_util_percentage: u64,
    pub total_underlying_deposited: u64,
    pub total_shares: u64,
}

impl View for Vault {
    type V = VaultModel;

    open spec fn view(&self) -> VaultModel {
        VaultModel {
            share_mint: self.share_mint@,
            pda_bump: self.pda_bump,
            market: self.market@,
            scale_factor: self.scale_factor,
            max_util_percentage: self.max_util_percentage,
            total_underlying_deposited: self.total_underlying_deposited,
            total_shares: self.total_shares,
        }
    }
}

/// A Vault record as seeded at creation: the caller-supplied market
/// reference and utilization cap, the derived share-mint address, the
/// custody signer's bump byte, the WAD scale, and zeroed totals.
pub open spec fn vault_initialized(
    market: Seq<u8>,
    util_pct: u64,
    share_mint: Seq<u8>,
    pda_bump: u8,
) -> VaultModel {
    VaultModel {
        share_mint,
        pda_bump,
        market,
        scale_factor: WAD,
        max_util_percentage: util_pct,
        total_underlying_deposited: 0,
        total_shares: 0,
    }
}

/// An all-zero Vault record: the content of freshly allocated storage,
/// before the seeding step overwrites every field.
pub open spec fn vault_blank() -> VaultModel {
    VaultModel {
        share_mint: zero_address(),
        pda_bump: 0,
        market: zero_address(),
        scale_factor: 0,
        max_util_percentage: 0,
        total_underlying_deposited: 0,
        total_shares: 0,
    }
}

impl Default for Vault {
    /// Freshly allocated storage: every field zero.
    fn default() -> (v: Vault)
        ensures
            v@ == vault_blank(),
    {
        Vault {
            share_mint: Address::zero(),
            pda_bump: 0,
            market: Address::zero(),
            scale_factor: 0,
            max_util_percentage: 0,
            total_underlying_deposited: 0,
            total_shares: 0,
        }
    }
}

impl Vault {
    /// Seed the record: store the market reference, the utilization cap, the
    /// derived share-mint address and the custody signer's bump byte, set the
    /// scale factor to WAD, and zero both running totals.
    pub fn initialize(&mut self, market: Address, util_pct: u64, share_mint: Address, pda_bump: u8)
        ensures
            final(self)@ == vault_initialized(market@, util_pct, share_mint@, pda_bump),
    {
        self.share_mint = share_mint;
        self.pda_bump = pda_bump;
        self.market = market;
        self.scale_factor = WAD;
        self.max_util_percentage = util_pct;
        self.total_underlying_deposited = 0;
        self.total_shares = 0;
    }
}

} // verus!
