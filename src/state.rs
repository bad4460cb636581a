use vstd::prelude::*;

verus! {

/// Failures of an invocation. Every one of them aborts the whole invocation.
#[derive(Debug, Clone, PartialEq, Eq)]
pub enum ContractError {
    Disabled,
    Unauthorized,
    WrongBondingMode,
    ZeroDeposit,
    IndexOutOfRange,
    NotMatured,
    InsufficientFee,
    InsufficientReserve,
    OracleQueryFailed,
    ConfigurationInvalid,
    CannotMigrate { previous_contract: String },
    /// An amount or a time does not fit its integer type.
    Overflow,
}

/// A denomination: a native coin by name, or a token contract by address.
#[derive(Debug, Clone, PartialEq, Eq)]
pub enum Denom {
    Native(String),
    Cw20(String),
}

/// The mathematical value of a [`Denom`].
pub enum DenomView {
    Native(Seq<char>),
    Cw20(Seq<char>),
}

impl View for Denom {
    type V = DenomView;

    open spec fn view(&self) -> DenomView {
        match self {
            Denom::Native(d) => DenomView::Native(d@),
            Denom::Cw20(a) => DenomView::Cw20(a@),
        }
    }
}

/// An amount of one native denomination attached to a call.
#[derive(Debug, Clone, PartialEq, Eq)]
pub struct Coin {
    pub denom: String,
    pub amount: u128,
}

/// One time-locked entitlement: `amount` of the target token, redeemable
/// once the block time reaches `timestamp` (unix seconds).
#[derive(Debug, Clone, Copy, PartialEq, Eq, Structural)]
pub struct BondingRecord {
    pub amount: u128,
    pub timestamp: u64,
}

/// Parameters of the program. Rates are in parts per thousand.
#[derive(Debug, Clone, PartialEq, Eq)]
pub struct Config {
    pub owner: String,
    pub pool_address: String,
    pub treasury_address: String,
    pub fury_token_address: String,
    pub lock_days: u64,
    pub discount: u64,
    pub usdc_denom: String,
    pub is_native_bonding: bool,
    pub tx_fee: u64,
    pub platform_fee: u64,
    pub enabled: bool,
}

/// The mathematical value of a [`Config`].
pub struct ConfigView {
    pub owner: Seq<char>,
    pub pool_address: Seq<char>,
    pub treasury_address: Seq<char>,
    pub fury_token_address: Seq<char>,
    pub lock_days: u64,
    pub discount: u64,
    pub usdc_denom: Seq<char>,
    pub is_native_bonding: bool,
    pub tx_fee: u64,
    pub platform_fee: u64,
    pub enabled: bool,
}

impl ConfigView {
    /// The fee and discount rates leave a positive share out of a thousand.
    pub open spec fn valid(self) -> bool {
        &&& self.tx_fee + self.platform_fee < 1000
        &&& self.discount < 1000
    }
}

impl View for Config {
    type V = ConfigView;

    open spec fn view(&self) -> ConfigView {
        ConfigView {
            owner: self.owner@,
            pool_address: self.pool_address@,
            treasury_address: self.treasury_address@,
            fury_token_address: self.fury_token_address@,
            lock_days: self.lock_days,
            discount: self.discount,
            usdc_denom: self.usdc_denom@,
            is_native_bonding: self.is_native_bonding,
            tx_fee: self.tx_fee,
            platform_fee: self.platform_fee,
            enabled: self.enabled,
        }
    }
}

pub open spec fn enabled_result(cfg: ConfigView) -> Result<(), ContractError> {
    if cfg.enabled {
        Ok(())
    } else {
        Err(ContractError::Disabled)
    }
}

pub open spec fn owner_result(cfg: ConfigView, address: Seq<char>) -> Result<(), ContractError> {
    if cfg.owner == address {
        Ok(())
    } else {
        Err(ContractError::Unauthorized)
    }
}

/// Fails with `Disabled` when the program is switched off.
pub fn check_enabled(cfg: &Config) -> (r: Result<(), ContractError>)
    ensures
        r == enabled_result(cfg@),
{
    if !cfg.enabled {
        return Err(ContractError::Disabled);
    }
    Ok(())
}

/// Fails with `Unauthorized` unless `address` is the owner.
pub fn check_owner(cfg: &Config, address: &String) -> (r: Result<(), ContractError>)
    ensures
        r == owner_result(cfg@, address@),
{
    if cfg.owner != *address {
        return Err(ContractError::Unauthorized);
    }
    Ok(())
}

} // verus!
