//! Accounting engine of a token bonding program: deposits are locked in
//! exchange for a discounted, time-locked entitlement to a target token.
//!
//! The engine is a pure state machine. The host hands it the caller, the
//! attached funds, the block time and the answers of the price pool; the
//! engine decides, updates its state and returns the transfers to perform.

pub mod contract;
pub mod fees;
pub mod funds;
pub mod laws;
pub mod ledger;
pub mod msg;
pub mod order;
pub mod state;
pub mod swap_state;

pub use contract::{migrate, BondingContract, CONTRACT_NAME, DEFAULT_LIMIT, MAX_LIMIT};
pub use msg::{
    AllBondStateResponse, BondStateResponse, ConfigResponse, Event, ExecuteMsg, InstantiateMsg, Market, MessageInfo,
    MigrateMsg, PriceQuery, QueryMsg, QueryResponse, Response, Transfer,
};
pub use state::{check_enabled, check_owner, BondingRecord, Coin, Config, ContractError, Denom};
