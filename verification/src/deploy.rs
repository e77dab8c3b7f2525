use crate::addr::{derive_address, derive_spec, Address};
use crate::instructions::{initialize_market, initialize_vault, InitializeMarket, InitializeVault};
use crate::market::{market_initialized, Market, MarketModel};
use crate::vault::{vault_initialized, Vault, VaultModel};
use vstd::prelude::*;
use vstd::string::StringSliceAdditionalSpecFns;

verus! {

/// Label under which the Market record's address is derived.
pub open spec fn market_state_label() -> Seq<u8> {
    "market_state".spec_bytes()
}

/// Label under which the Vault record's address is derived.
pub open spec fn vault_state_label() -> Seq<u8> {
    "vault_state".spec_bytes()
}

/// Label of the custody signer: a derived address holding no private key,
/// used purely as the authority over custody funds and share minting.
pub open spec fn custody_signer_label() -> Seq<u8> {
    "token_account_owner_pda".spec_bytes()
}

/// Label under which the share mint's address is derived.
pub open spec fn share_mint_label() -> Seq<u8> {
    "share_mint".spec_bytes()
}

/// Label of the custody token account, further discriminated by the
/// underlying asset's identity.
pub open spec fn custody_account_label() -> Seq<u8> {
    "token_vault".spec_bytes()
}

/// Descriptor of the underlying asset: its mint address and its decimal
/// precision.
#[derive(Clone, Copy, Debug, PartialEq, Eq)]
pub struct UnderlyingAsset {
    pub address: Address,
    pub decimals: u8,
}

/// Mathematical model of an underlying-asset descriptor.
#[verifier::ext_equal]
pub struct UnderlyingAssetModel {
    pub address: Seq<u8>,
    pub decimals: u8,
}

impl View for UnderlyingAsset {
    type V = UnderlyingAssetModel;

    open spec fn view(&self) -> UnderlyingAssetModel {
        UnderlyingAssetModel { address: self.address@, decimals: self.decimals }
    }
}

/// The share-token mint: decimal precision copied from the underlying
/// asset, minting authority held by the custody signer.
#[derive(Clone, Copy, Debug, PartialEq, Eq)]
pub struct ShareMint {
    pub address: Address,
    pub decimals: u8,
    pub mint_authority: Address,
}

/// Mathematical model of the share mint.
#[verifier::ext_equal]
pub struct ShareMintModel {
    pub address: Seq<u8>,
    pub decimals: u8,
    pub mint_authority: Seq<u8>,
}

impl View for ShareMint {
    type V = ShareMintModel;

    open spec fn view(&self) -> ShareMintModel {
        ShareMintModel {
            address: self.address@,
            decimals: self.decimals,
            mint_authority: self.mint_authority@,
        }
    }
}

/// The custody token account: holds the vault's underlying asset, with its
/// holding authority bound to the custody signer.
#[derive(Clone, Copy, Debug, PartialEq, Eq)]
pub struct CustodyAccount {
    pub address: Address,
    pub asset: Address,
    pub authority: Address,
}

/// Mathematical model of the custody account.
#[verifier::ext_equal]
pub struct CustodyAccountModel {
    pub address: Seq<u8>,
    pub asset: Seq<u8>,
    pub authority: Seq<u8>,
}

impl View for CustodyAccount {
    type V = CustodyAccountModel;

    open spec fn view(&self) -> CustodyAccountModel {
        CustodyAccountModel {
            address: self.address@,
            asset: self.asset@,
            authority: self.authority@,
        }
    }
}

/// Why an initializer invocation failed. Every failure aborts the whole
/// invocation: no partial state is ever left behind.
#[derive(Clone, Copy, Debug, PartialEq, Eq)]
pub enum InitError {
    /// A strict-create path (share mint or custody account) targets an
    /// address already populated.
    AlreadyExists,
    /// No valid bump byte exists in the bounded search space of a
    /// derivation (practically unreachable).
    DerivationExhaustion,
}

/// One deployment's storage, as the ledger runtime arbitrates it: the
/// program identity the addresses are derived under, and the records that
/// exist at their derived addresses. Each slot is a singleton, since each
/// record's derivation label is fixed.
pub struct Deployment {
    pub program_id: Address,
    pub market_state: Option<Market>,
    pub vault_state: Option<Vault>,
    pub share_mint: Option<ShareMint>,
    pub custody_account: Option<CustodyAccount>,
}

/// Mathematical model of a deployment's storage.
#[verifier::ext_equal]
pub struct DeploymentModel {
    pub program_id: Seq<u8>,
    pub market_state: Option<MarketModel>,
    pub vault_state: Option<VaultModel>,
    pub share_mint: Option<ShareMintModel>,
    pub custody_account: Option<CustodyAccountModel>,
}

impl View for Deployment {
    type V = DeploymentModel;

    open spec fn view(&self) -> DeploymentModel {
        DeploymentModel {
            program_id: self.program_id@,
            market_state: match self.market_state {
                Some(m) => Some(m@),
                None => None,
            },
            vault_state: match self.vault_state {
                Some(v) => Some(v@),
                None => None,
            },
            share_mint: match self.share_mint {
                Some(m) => Some(m@),
                None => None,
            },
            custody_account: match self.custody_account {
                Some(c) => Some(c@),
                None => None,
            },
        }
    }
}

/// A deployment on which no initializer has run yet.
pub open spec fn fresh_deployment(program_id: Seq<u8>) -> DeploymentModel {
    DeploymentModel {
        program_id,
        market_state: None,
        vault_state: None,
        share_mint: None,
        custody_account: None,
    }
}

/// What one Market Initializer invocation does to the deployment: locate
/// the Market record at its derived address, allocate it if absent, reuse
/// it otherwise, and overwrite every field with the defaults and the given
/// references. Fails only when the derivation finds no bump byte.
pub open spec fn market_init_transition(
    d: DeploymentModel,
    vault: Seq<u8>,
    oracle: Seq<u8>,
    collateral_token: Seq<u8>,
) -> (DeploymentModel, Result<(), InitError>) {
    match derive_spec(market_state_label(), None, d.program_id) {
        Some(slot) => (
            DeploymentModel {
                market_state: Some(market_initialized(vault, oracle, collateral_token, slot.1)),
                ..d
            },
            Ok(()),
        ),
        None => (d, Err(InitError::DerivationExhaustion)),
    }
}

/// What one Vault Initializer invocation does to the deployment: derive the
/// four addresses; fail if the share mint or the custody account already
/// exists (strict creation), leaving the deployment unchanged; otherwise
/// allocate the mint (decimals copied from the underlying asset) and the
/// custody account, both with their authority bound to the custody signer,
/// and create-or-reuse the Vault record, overwriting every field.
pub open spec fn vault_init_transition(
    d: DeploymentModel,
    market: Seq<u8>,
    util_pct: u64,
    underlying: UnderlyingAssetModel,
) -> (DeploymentModel, Result<(), InitError>) {
    let slots = (
        derive_spec(vault_state_label(), None, d.program_id),
        derive_spec(custody_signer_label(), None, d.program_id),
        derive_spec(share_mint_label(), None, d.program_id),
        derive_spec(custody_account_label(), Some(underlying.address), d.program_id),
    );
    match slots {
        (Some(vault_slot), Some(signer), Some(mint), Some(custody)) => {
            if d.share_mint is Some || d.custody_account is Some {
                (d, Err(InitError::AlreadyExists))
            } else {
                (
                    DeploymentModel {
                        share_mint: Some(
                            ShareMintModel {
                                address: mint.0,
                                decimals: underlying.decimals,
                                mint_authority: signer.0,
                            },
                        ),
                        custody_account: Some(
                            CustodyAccountModel {
                                address: custody.0,
                                asset: underlying.address,
                                authority: signer.0,
                            },
                        ),
                        vault_state: Some(
                            vault_initialized(market, util_pct, mint.0, signer.1),
                        ),
                        ..d
                    },
                    Ok(()),
                )
            }
        },
        _ => (d, Err(InitError::DerivationExhaustion)),
    }
}

impl Deployment {
    /// A fresh deployment under the given program identity: no record
    /// exists yet at any derived address.
    pub fn new(program_id: Address) -> (d: Deployment)
        ensures
            d@ == fresh_deployment(program_id@),
    {
        Deployment {
            program_id,
            market_state: None,
            vault_state: None,
            share_mint: None,
            custody_account: None,
        }
    }

    /// Create-or-reuse the Market record at its derived address and seed it
    /// with the protocol defaults and the given references.
    ///
    /// Re-invocation on an existing record silently overwrites every field,
    /// resetting the open-interest counters — the ensured transition states
    /// that hazard exactly.
    pub fn initialize_market_handler(
        &mut self,
        vault: Address,
        oracle: Address,
        collateral_token: Address,
    ) -> (result: Result<(), InitError>)
        ensures
            (final(self)@, result) == market_init_transition(
                old(self)@,
                vault@,
                oracle@,
                collateral_token@,
            ),
    {
        let derived = derive_address("market_state".as_bytes(), None, &self.program_id);
        let bump = match derived {
            Some(p) => p.1,
            None => {
                return Err(InitError::DerivationExhaustion);
            },
        };
        let record = match self.market_state {
            Some(existing) => existing,
            None => Market::default(),
        };
        let mut ctx = InitializeMarket { market_state: record, bump };
        initialize_market(&mut ctx, vault, oracle, collateral_token);
        self.market_state = Some(ctx.market_state);
        proof {
            assert((self@, Ok::<(), InitError>(())) =~~= market_init_transition(
                old(self)@,
                vault@,
                oracle@,
                collateral_token@,
            ));
        }
        Ok(())
    }

    /// Derive the four vault-side addresses, allocate the share mint and the
    /// custody account (strict creation: both must be absent), bind both
    /// authorities to the custody signer, and create-or-reuse the Vault
    /// record, seeding it with the defaults, the given market reference and
    /// utilization cap, and the derived share-mint address.
    pub fn initialize_vault_handler(
        &mut self,
        market: Address,
        util_pct: u64,
        underlying: UnderlyingAsset,
    ) -> (result: Result<(), InitError>)
        ensures
            (final(self)@, result) == vault_init_transition(
                old(self)@,
                market@,
                util_pct,
                underlying@,
            ),
    {
        let vault_slot = derive_address("vault_state".as_bytes(), None, &self.program_id);
        let signer = derive_address("token_account_owner_pda".as_bytes(), None, &self.program_id);
        let mint = derive_address("share_mint".as_bytes(), None, &self.program_id);
        let asset_key = underlying.address.bytes.as_slice();
        let custody = derive_address("token_vault".as_bytes(), Some(asset_key), &self.program_id);
        proof {
            assert(Some(asset_key).deep_view() == Some(underlying.address@)) by {
                assert(asset_key.deep_view() =~= underlying.address@);
            }
        }
        let (signer, mint, custody) = match (vault_slot, signer, mint, custody) {
            (Some(_), Some(s), Some(m), Some(c)) => (s, m, c),
            _ => {
                return Err(InitError::DerivationExhaustion);
            },
        };
        if self.share_mint.is_some() || self.custody_account.is_some() {
            return Err(InitError::AlreadyExists);
        }
        self.share_mint = Some(
            ShareMint {
                address: mint.0,
                decimals: underlying.decimals,
                mint_authority: signer.0,
            },
        );
        self.custody_account = Some(
            CustodyAccount { address: custody.0, asset: underlying.address, authority: signer.0 },
        );
        let record = match self.vault_state {
            Some(existing) => existing,
            None => Vault::default(),
        };
        let mut ctx = InitializeVault {
            vault_state: record,
            share_mint: mint.0,
            pda_bump: signer.1,
        };
        initialize_vault(&mut ctx, market, util_pct);
        self.vault_state = Some(ctx.vault_state);
        proof {
            assert((self@, Ok::<(), InitError>(())) =~~= vault_init_transition(
                old(self)@,
                market@,
                util_pct,
                underlying@,
            ));
        }
        Ok(())
    }
}

/// Idempotent creation with overwrite: on a fresh deployment, running the
/// Market Initializer twice succeeds both times and leaves exactly one
/// Market record — holding the second call's references, with every
/// open-interest counter reset to zero — and touches nothing else.
pub proof fn lemma_market_reinit_overwrites(
    d: DeploymentModel,
    vault1: Seq<u8>,
    oracle1: Seq<u8>,
    collateral1: Seq<u8>,
    vault2: Seq<u8>,
    oracle2: Seq<u8>,
    collateral2: Seq<u8>,
)
    requires
        d.market_state is None,
        market_init_transition(d, vault1, oracle1, collateral1).1 is Ok,
    ensures
        ({
            let d1 = market_init_transition(d, vault1, oracle1, collateral1).0;
            let (d2, r2) = market_init_transition(d1, vault2, oracle2, collateral2);
            &&& r2 is Ok
            &&& d2.market_state matches Some(m)
            &&& m.vault == vault2
            &&& m.oracle == oracle2
            &&& m.collateral_token == collateral2
            &&& m.open_interest_usd_long == 0
            &&& m.open_interest_usd_short == 0
            &&& m.open_interest_underlying_long == 0
            &&& m.open_interest_underlying_short == 0
            &&& d2 == (DeploymentModel { market_state: d2.market_state, ..d })
        }),
{
}

/// Strict creation: once the Vault Initializer has succeeded, invoking it
/// again (any market reference or utilization cap, same underlying asset)
/// fails with `AlreadyExists` and leaves every record of the first call
/// unchanged.
pub proof fn lemma_vault_reinit_fails(
    d: DeploymentModel,
    market1: Seq<u8>,
    util1: u64,
    market2: Seq<u8>,
    util2: u64,
    underlying: UnderlyingAssetModel,
)
    requires
        vault_init_transition(d, market1, util1, underlying).1 is Ok,
    ensures
        ({
            let d1 = vault_init_transition(d, market1, util1, underlying).0;
            let (d2, r2) = vault_init_transition(d1, market2, util2, underlying);
            &&& r2 == Err::<(), InitError>(InitError::AlreadyExists)
            &&& d2 == d1
        }),
{
}

/// Authority binding: after a successful Vault Initializer run, the share
/// mint's minting authority and the custody account's holding authority are
/// the same address, and that address (with the stored `pda_bump`) is the
/// custody-signer derivation — a function of the deployment's program
/// identity alone, independent of every caller-supplied input.
pub proof fn lemma_authority_binding(
    d: DeploymentModel,
    market: Seq<u8>,
    util_pct: u64,
    underlying: UnderlyingAssetModel,
)
    requires
        vault_init_transition(d, market, util_pct, underlying).1 is Ok,
    ensures
        ({
            let d1 = vault_init_transition(d, market, util_pct, underlying).0;
            &&& d1.share_mint matches Some(m)
            &&& d1.custody_account matches Some(c)
            &&& d1.vault_state matches Some(v)
            &&& m.mint_authority == c.authority
            &&& derive_spec(custody_signer_label(), None, d.program_id) == Some(
                (m.mint_authority, v.pda_bump),
            )
        }),
{
}

} // verus!
