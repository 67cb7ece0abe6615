//! A custodial token vault keyed by mint: a registry of per-mint vault
//! records at derived addresses, and a deposit gateway that checks how the
//! caller's accounts are linked to a vault before it moves tokens into it.

mod derive;
mod key;
mod vault;

pub use derive::{find_associated_address, find_vault_address};
pub use key::Key;
pub use vault::{
    deposit, initialize_vault, Deposit, InitializeVault, Programs, Registry, TokenAccount, Vault,
    VaultError,
};
