//! State records of the swap pool that forwards bonds to this program.
use vstd::prelude::*;
use crate::state::Denom;

verus! {

/// One side of the pool: its reserve and its denomination.
#[derive(Debug, Clone, PartialEq, Eq)]
pub struct Token {
    pub reserve: u128,
    pub denom: Denom,
}

/// Parameters of the swap pool.
#[derive(Debug, Clone, PartialEq, Eq)]
pub struct Config {
    pub owner: String,
    pub staking_contract_address: String,
    pub staking_token_address: String,
    pub staking_funds_amount: u128,
}

} // verus!
