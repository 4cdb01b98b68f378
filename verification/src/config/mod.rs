//! The configuration and the accounts that it describes.

pub mod account_entity;
pub mod config_entity;

pub use account_entity::{Account, AccountView, LocalAccount, RemoteAccount};
pub use config_entity::{
    Config, ConfigAccountEntry, ConfigAccountsMap, ConfigSource, LocalConfigAccountEntry,
    RemoteConfigAccountEntry,
};
