//! Requests, responses and the outcome of an invocation.
use vstd::prelude::*;
use crate::state::{BondingRecord, Coin, ConfigView, Denom, DenomView};

verus! {

/// Parameters with which the program starts; it starts enabled.
#[derive(Debug, Clone, PartialEq, Eq)]
pub struct InstantiateMsg {
    pub owner: String,
    pub pool_address: String,
    pub treasury_address: String,
    pub fury_token_address: String,
    pub lock_days: u64,
    pub discount: u64,
    pub usdc_denom: String,
    pub is_native_bonding: bool,
    pub tx_fee: u64,
    pub platform_fee: u64,
}

/// Mutating requests.
#[derive(Debug, Clone, PartialEq, Eq)]
pub enum ExecuteMsg {
    UpdateOwner { owner: String },
    UpdateEnabled { enabled: bool },
    UpdateConfig { lock_days: u64, discount: u64, tx_fee: u64, platform_fee: u64 },
    Bond {},
    LpBond { address: String, amount: u128 },
    Unbond { index: u64 },
    Withdraw { amount: u128 },
}

/// Read requests.
#[derive(Debug, Clone, PartialEq, Eq)]
pub enum QueryMsg {
    Config {},
    BondState { address: String },
    AllBondState { start_after: Option<String>, limit: Option<u32> },
}

/// Migration request; it carries nothing.
#[derive(Debug, Clone, PartialEq, Eq)]
pub struct MigrateMsg {}

/// The configuration as a query returns it.
#[derive(Debug, Clone, PartialEq, Eq)]
pub struct ConfigResponse {
    pub owner: String,
    pub pool_address: String,
    pub treasury_address: String,
    pub fury_token_address: String,
    pub lock_days: u64,
    pub discount: u64,
    pub usdc_denom: String,
    pub is_native_bonding: bool,
    pub tx_fee: u64,
    pub platform_fee: u64,
    pub enabled: bool,
}

impl View for ConfigResponse {
    type V = ConfigView;

    open spec fn view(&self) -> ConfigView {
        ConfigView {
            owner: self.owner@,
            pool_address: self.pool_address@,
            treasury_address: self.treasury_address@,
            fury_token_address: self.fury_token_address@,
            lock_days: self.lock_days,
            discount: self.discount,
            usdc_denom: self.usdc_denom@,
            is_native_bonding: self.is_native_bonding,
            tx_fee: self.tx_fee,
            platform_fee: self.platform_fee,
            enabled: self.enabled,
        }
    }
}

/// The entitlements of one depositor, in the order they were made.
#[derive(Debug, Clone, PartialEq, Eq)]
pub struct BondStateResponse {
    pub address: String,
    pub list: Vec<BondingRecord>,
}

/// The mathematical value of a [`BondStateResponse`].
pub struct BondStateView {
    pub address: Seq<char>,
    pub list: Seq<BondingRecord>,
}

impl View for BondStateResponse {
    type V = BondStateView;

    open spec fn view(&self) -> BondStateView {
        BondStateView { address: self.address@, list: self.list@ }
    }
}

/// One page of depositors, in ledger order.
#[derive(Debug, Clone, PartialEq, Eq)]
pub struct AllBondStateResponse {
    pub list: Vec<BondStateResponse>,
}

pub open spec fn bonds_view(bonds: Seq<BondStateResponse>) -> Seq<BondStateView> {
    bonds.map_values(|e: BondStateResponse| e@)
}

/// Who calls, and what funds come with the call.
#[derive(Debug, Clone, PartialEq, Eq)]
pub struct MessageInfo {
    pub sender: String,
    pub funds: Vec<Coin>,
}

/// What the host observed for an invocation: the pool's answer to the query
/// that [`crate::contract::BondingContract::price_query`] names, and the
/// program's own balance of the target token.
#[derive(Debug, Clone, Copy, PartialEq, Eq)]
pub struct Market {
    pub price: u128,
    pub reserve: u128,
}

/// A price query to the pool.
#[derive(Debug, Clone, Copy, PartialEq, Eq, Structural)]
pub enum PriceQuery {
    /// How much of the target token `token1_amount` of the base denomination buys.
    Token1ForToken2 { token1_amount: u128 },
    /// How much of the base denomination `token2_amount` of the target token buys.
    Token2ForToken1 { token2_amount: u128 },
}

/// An outward transfer of funds.
#[derive(Debug, Clone, PartialEq, Eq)]
pub struct Transfer {
    pub denom: Denom,
    pub amount: u128,
    pub recipient: String,
}

pub struct TransferView {
    pub denom: DenomView,
    pub amount: u128,
    pub recipient: Seq<char>,
}

impl View for Transfer {
    type V = TransferView;

    open spec fn view(&self) -> TransferView {
        TransferView { denom: self.denom@, amount: self.amount, recipient: self.recipient@ }
    }
}

/// What an invocation did, for the event log.
#[derive(Debug, Clone, PartialEq, Eq)]
pub enum Event {
    UpdateOwner { owner: String },
    UpdateEnabled { enabled: bool },
    UpdateConfig { lock_days: u64, discount: u64 },
    Bond { bond_usdc_amount: u128, receiving_amount: u128, address: String },
    LpBond { bond_fury_amount: u128, receiving_amount: u128, address: String },
    Unbond { receiving_amount: u128, address: String },
    Withdraw { receiving_amount: u128, address: String },
}

pub enum EventView {
    UpdateOwner { owner: Seq<char> },
    UpdateEnabled { enabled: bool },
    UpdateConfig { lock_days: u64, discount: u64 },
    Bond { bond_usdc_amount: u128, receiving_amount: u128, address: Seq<char> },
    LpBond { bond_fury_amount: u128, receiving_amount: u128, address: Seq<char> },
    Unbond { receiving_amount: u128, address: Seq<char> },
    Withdraw { receiving_amount: u128, address: Seq<char> },
}

impl View for Event {
    type V = EventView;

    open spec fn view(&self) -> EventView {
        match self {
            Event::UpdateOwner { owner } => EventView::UpdateOwner { owner: owner@ },
            Event::UpdateEnabled { enabled } => EventView::UpdateEnabled { enabled: *enabled },
            Event::UpdateConfig { lock_days, discount } => EventView::UpdateConfig {
                lock_days: *lock_days,
                discount: *discount,
            },
            Event::Bond { bond_usdc_amount, receiving_amount, address } => EventView::Bond {
                bond_usdc_amount: *bond_usdc_amount,
                receiving_amount: *receiving_amount,
                address: address@,
            },
            Event::LpBond { bond_fury_amount, receiving_amount, address } => EventView::LpBond {
                bond_fury_amount: *bond_fury_amount,
                receiving_amount: *receiving_amount,
                address: address@,
            },
            Event::Unbond { receiving_amount, address } => EventView::Unbond {
                receiving_amount: *receiving_amount,
                address: address@,
            },
            Event::Withdraw { receiving_amount, address } => EventView::Withdraw {
                receiving_amount: *receiving_amount,
                address: address@,
            },
        }
    }
}

/// The outcome of a successful invocation: its event and the transfers to perform.
#[derive(Debug, Clone, PartialEq, Eq)]
pub struct Response {
    pub event: Event,
    pub messages: Vec<Transfer>,
}

pub struct ResponseView {
    pub event: EventView,
    pub messages: Seq<TransferView>,
}

impl View for Response {
    type V = ResponseView;

    open spec fn view(&self) -> ResponseView {
        ResponseView { event: self.event@, messages: self.messages@.map_values(|t: Transfer| t@) }
    }
}

/// The answer to a read request.
#[derive(Debug, Clone, PartialEq, Eq)]
pub enum QueryResponse {
    Config(ConfigResponse),
    BondState(BondStateResponse),
    AllBondState(AllBondStateResponse),
}

} // verus!
