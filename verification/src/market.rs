use crate::addr::{zero_address, Address};
use crate::params::{LIQUIDATION_FEE_PCT, MAX_BPS, MAX_LEVERAGE, MIN_POSITION_SIZE, SECONDS_IN_YEAR, WAD};
use vstd::prelude::*;

verus! {

/// Mathematical model of a Market record: addresses as byte sequences.
#[verifier::ext_equal]
pub struct MarketModel {
    pub vault: Seq<u8>,
    pub oracle: Seq<u8>,
    pub collateral_token: Seq<u8>,
    pub base_decimals: u64,
    pub max_bps: u64,
    pub seconds_in_year: u64,
    pub liquidation_fee_pct: u64,
    pub max_leverage: u64,
    pub min_position_size: u128,
    pub open_interest_usd_long: u64,
    pub open_interest_usd_short: u64,
    pub open_interest_underlying_long: u64,
    pub open_interest_underlying_short: u64,
    pub bump: u8,
}

/// The Market record: risk/config parameters and aggregate open-interest
/// counters, one instance per deployment.
#[derive(Clone, Copy, Debug, PartialEq, Eq)]
pub struct Market {
    pub vault: Address,
    pub oracle: Address,
    pub collateral_token: Address,
    pub base_decimals: u64,
    pub max_bps: u64,
    pub seconds_in_year: u64,
    pub liquidation_fee_pct: u64,
    pub max_leverage: u64,
    pub min_position_size: u128,
    pub open_interest_usd_long: u64,
    pub open_interest_usd_short: u64,
    pub open_interest_underlying_long: u64,
    pub open_interest_underlying_short: u64,
    pub bump: u8,
}

impl View for Market {
    type V = MarketModel;

    open spec fn view(&self) -> MarketModel {
        MarketModel {
            vault: self.vault@,
            oracle: self.oracle@,
            collateral_token: self.collateral_token@,
            base_decimals: self.base_decimals,
            max_bps: self.max_bps,
            seconds_in_year: self.seconds_in_year,
            liquidation_fee_pct: self.liquidation_fee_pct,
            max_leverage: self.max_leverage,
            min_position_size: self.min_position_size,
            open_interest_usd_long: self.open_interest_usd_long,
            open_interest_usd_short: self.open_interest_usd_short,
            open_interest_underlying_long: self.open_interest_underlying_long,
            open_interest_underlying_short: self.open_interest_underlying_short,
            bump: self.bump,
        }
    }
}

/// A Market record as seeded at creation: the three caller-supplied
/// references, the protocol-default parameters, zeroed open-interest
/// counters, and the derivation bump.
pub open spec fn market_initialized(
    vault: Seq<u8>,
    oracle: Seq<u8>,
    collateral_token: Seq<u8>,
    bump: u8,
) -> MarketModel {
    MarketModel {
        vault,
        oracle,
        collateral_token,
        base_decimals: WAD,
        max_bps: MAX_BPS,
        seconds_in_year: SECONDS_IN_YEAR,
        liquidation_fee_pct: LIQUIDATION_FEE_PCT,
        max_leverage: MAX_LEVERAGE,
        min_position_size: MIN_POSITION_SIZE,
        open_interest_usd_long: 0,
        open_interest_usd_short: 0,
        open_interest_underlying_long: 0,
        open_interest_underlying_short: 0,
        bump: bump,
    }
}

/// An all-zero Market record: the content of freshly allocated storage,
/// before the seeding step overwrites every field.
pub open spec fn market_blank() -> MarketModel {
    MarketModel {
        vault: zero_address(),
        oracle: zero_address(),
        collateral_token: zero_address(),
        base_decimals: 0,
        max_bps: 0,
        seconds_in_year: 0,
        liquidation_fee_pct: 0,
        max_leverage: 0,
        min_position_size: 0,
        open_interest_usd_long: 0,
        open_interest_usd_short: 0,
        open_interest_underlying_long: 0,
        open_interest_underlying_short: 0,
        bump: 0,
    }
}

impl Default for Market {
    /// Freshly allocated storage: every field zero.
    fn default() -> (m: Market)
        ensures
            m@ == market_blank(),
    {
        Market {
            vault: Address::zero(),
            oracle: Address::zero(),
            collateral_token: Address::zero(),
            base_decimals: 0,
            max_bps: 0,
            seconds_in_year: 0,
            liquidation_fee_pct: 0,
            max_leverage: 0,
            min_position_size: 0,
            open_interest_usd_long: 0,
            open_interest_usd_short: 0,
            open_interest_underlying_long: 0,
            open_interest_underlying_short: 0,
            bump: 0,
        }
    }
}

impl Market {
    /// Seed the record: store the three caller-supplied references and the
    /// bump, set every parameter to its protocol default, and reset all four
    /// open-interest counters to zero — whatever the record held before.
    pub fn initialize(
        &mut self,
        vault: Address,
        oracle: Address,
        collateral_token: Address,
        bump: u8,
    )
        ensures
            final(self)@ == market_initialized(vault@, oracle@, collateral_token@, bump),
    {
        self.vault = vault;
        self.oracle = oracle;
        self.collateral_token = collateral_token;
        self.base_decimals = WAD;
        self.max_bps = MAX_BPS;
        self.seconds_in_year = SECONDS_IN_YEAR;
        self.liquidation_fee_pct = LIQUIDATION_FEE_PCT;
        self.max_leverage = MAX_LEVERAGE;
        self.min_position_size = MIN_POSITION_SIZE;
        self.open_interest_usd_long = 0;
        self.open_interest_usd_short = 0;
        self.open_interest_underlying_long = 0;
        self.open_interest_underlying_short = 0;
        self.bump = bump;
    }
}

} // verus!
