//! What each operation is handed: the records it reads and writes, the
//! party that authorized the call, and the addresses it pays from and to.
//! A record that may not exist yet is an `Option`.

use crate::address::Address;
use crate::derivation::{seeds_view, signer_seeds_of_vault, vault_signer_seeds};
use crate::state::{Receipt, Surge, SurgeCounter};
use vstd::prelude::*;

verus! {

/// Creating the counter of surges.
#[derive(Clone, Copy, Debug, PartialEq, Eq)]
pub struct InitializeSurgeCounter {
    /// The counter, `None` as long as it has not been created.
    pub surge_counter: Option<SurgeCounter>,
    pub signer: Address,
}

/// Advancing the counter of surges by one.
#[derive(Clone, Copy, Debug, PartialEq, Eq)]
pub struct IncrementSurgeCounter {
    pub surge_counter: SurgeCounter,
    pub signer: Address,
}

/// Creating a surge.
#[derive(Clone, Debug, PartialEq, Eq)]
pub struct InitializeSurge {
    pub surge_counter: SurgeCounter,
    /// The surge, `None` as long as it has not been created.
    pub surge: Option<Surge>,
    /// The creator.
    pub signer: Address,
    /// Bump seed of the address where the surge will be stored.
    pub surge_bump: u8,
}

/// Depositing into a surge.
#[derive(Clone, Debug, PartialEq, Eq)]
pub struct Fund {
    /// The contributor's receipt in this surge, `None` before the first
    /// deposit.
    pub receipt: Option<Receipt>,
    /// The contributor.
    pub signer: Address,
    pub surge: Surge,
    /// The vault of the surge, which receives the deposit.
    pub pda_vault: Address,
}

/// Converting the pool of a surge into the asset.
#[derive(Clone, Debug, PartialEq, Eq)]
pub struct Deploy {
    /// The caller.
    pub authority: Address,
    pub surge: Surge,
    /// The address where the surge is stored: the seed of its vault.
    pub surge_key: Address,
    /// The asset to buy.
    pub mint: Address,
    pub pda_vault: Address,
    /// Bump seed of the vault's address.
    pub vault_bump: u8,
}

/// Paying out the share of one receipt.
#[derive(Clone, Debug, PartialEq, Eq)]
pub struct Claim {
    /// The caller.
    pub owner: Address,
    pub surge: Surge,
    /// The address where the surge is stored: the seed of its vault.
    pub surge_key: Address,
    pub pda_vault: Address,
    /// Bump seed of the vault's address.
    pub vault_bump: u8,
    pub receipt: Receipt,
}

/// The right to move funds out of a vault. Nobody holds a key for a vault:
/// the program signs for it with the seeds that its address is derived from.
#[derive(Clone, Copy, Debug, PartialEq, Eq)]
pub struct VaultAuthority {
    pub vault: Address,
    pub surge_key: Address,
    pub bump: u8,
}

impl VaultAuthority {
    /// The seeds to sign with for this vault.
    pub fn signer_seeds(&self) -> (seeds: Vec<Vec<u8>>)
        ensures
            seeds_view(&seeds) == vault_signer_seeds(self.surge_key@, self.bump),
    {
        signer_seeds_of_vault(&self.surge_key, self.bump)
    }
}

/// An order to move currency between two parties, signed by the sender.
#[derive(Clone, Copy, Debug, PartialEq, Eq)]
pub struct CurrencyTransfer {
    pub from: Address,
    pub to: Address,
    pub lamports: u64,
}

/// An order to pay currency out of a vault.
#[derive(Clone, Copy, Debug, PartialEq, Eq)]
pub struct VaultPayment {
    pub authority: VaultAuthority,
    pub to: Address,
    pub lamports: u64,
}

/// An order to buy `amount_token` units of `mint` for the vault, for at most
/// `max_sol_cost` of its currency.
#[derive(Clone, Copy, Debug, PartialEq, Eq)]
pub struct BuyOrder {
    pub authority: VaultAuthority,
    pub mint: Address,
    pub amount_token: u64,
    pub max_sol_cost: u64,
}

/// An order to pay units of the asset out of a vault to a holder.
#[derive(Clone, Copy, Debug, PartialEq, Eq)]
pub struct AssetPayment {
    pub authority: VaultAuthority,
    pub mint: Address,
    pub to: Address,
    pub amount: u64,
}

/// What a deployment has the host do, in this order: the purchase, then the
/// creator's fee. The vault's balances are read after both.
#[derive(Clone, Copy, Debug, PartialEq, Eq)]
pub struct DeployPlan {
    pub buy: BuyOrder,
    pub fee: VaultPayment,
}

/// What a claim has the host pay out: the share of the asset and the share
/// of the currency that was left.
#[derive(Clone, Copy, Debug, PartialEq, Eq)]
pub struct Payout {
    pub asset: AssetPayment,
    pub currency: VaultPayment,
}

impl Deploy {
    /// The authority over the vault named in this context.
    pub open spec fn vault_authority(self) -> VaultAuthority {
        VaultAuthority { vault: self.pda_vault, surge_key: self.surge_key, bump: self.vault_bump }
    }
}

impl Claim {
    /// The authority over the vault named in this context.
    pub open spec fn vault_authority(self) -> VaultAuthority {
        VaultAuthority { vault: self.pda_vault, surge_key: self.surge_key, bump: self.vault_bump }
    }
}

} // verus!
