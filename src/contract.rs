//! The bonding engine: its state, the mutating operations and the queries.
use vstd::prelude::*;
use crate::fees::{
    maturity, maturity_result, net_result, receivable_amount, receivable_result, redemption_fee,
    redemption_fee_result, split_deposit,
};
use crate::funds::{amount_of_denom, amount_result, coins_view};
use crate::ledger::{copy_records, locate, page, page_of, push_record, pushed, records_of, remove_record, removed, sorted};
use crate::msg::{
    bonds_view, AllBondStateResponse, BondStateResponse, BondStateView, ConfigResponse, Event, EventView, ExecuteMsg,
    InstantiateMsg, Market, MessageInfo, MigrateMsg, PriceQuery, QueryMsg, QueryResponse, Response, ResponseView,
    Transfer, TransferView,
};
use crate::state::{
    check_enabled, check_owner, enabled_result, owner_result, BondingRecord, Config, ConfigView, ContractError, Denom,
    DenomView,
};

verus! {

/// Name under which this program records its version.
pub const CONTRACT_NAME: &'static str = "fanfurybonding";

/// Page size of a listing when none is asked for.
pub const DEFAULT_LIMIT: u32 = 10;

/// Largest page size of a listing.
pub const MAX_LIMIT: u32 = 30;

/// The whole state: the configuration and the ledger, sorted by address.
#[derive(Debug, Clone, PartialEq, Eq)]
pub struct BondingContract {
    pub config: Config,
    pub bonds: Vec<BondStateResponse>,
}

pub struct ContractView {
    pub config: ConfigView,
    pub bonds: Seq<BondStateView>,
}

impl ContractView {
    /// The configuration is valid and the ledger sorted by address.
    pub open spec fn wf(self) -> bool {
        self.config.valid() && sorted(self.bonds)
    }
}

impl View for BondingContract {
    type V = ContractView;

    open spec fn view(&self) -> ContractView {
        ContractView { config: self.config@, bonds: bonds_view(self.bonds@) }
    }
}

pub open spec fn valid_rates(tx_fee: u64, platform_fee: u64, discount: u64) -> bool {
    tx_fee + platform_fee < 1000 && discount < 1000
}

fn check_rates(tx_fee: u64, platform_fee: u64, discount: u64) -> (r: bool)
    ensures
        r == valid_rates(tx_fee, platform_fee, discount),
{
    tx_fee < 1000 && platform_fee < 1000 - tx_fee && discount < 1000
}

/// The outcome of an invocation: the next state and the response, or an error.
pub type Outcome = Result<(ContractView, ResponseView), ContractError>;

pub open spec fn with_config(s: ContractView, config: ConfigView) -> ContractView {
    ContractView { config, bonds: s.bonds }
}

pub open spec fn update_owner_spec(s: ContractView, sender: Seq<char>, owner: Seq<char>) -> Outcome {
    match owner_result(s.config, sender) {
        Err(e) => Err(e),
        Ok(_) => Ok(
            (
                with_config(s, ConfigView { owner, ..s.config }),
                ResponseView { event: EventView::UpdateOwner { owner }, messages: seq![] },
            ),
        ),
    }
}

pub open spec fn update_enabled_spec(s: ContractView, sender: Seq<char>, enabled: bool) -> Outcome {
    match owner_result(s.config, sender) {
        Err(e) => Err(e),
        Ok(_) => Ok(
            (
                with_config(s, ConfigView { enabled, ..s.config }),
                ResponseView { event: EventView::UpdateEnabled { enabled }, messages: seq![] },
            ),
        ),
    }
}

pub open spec fn update_config_spec(
    s: ContractView,
    sender: Seq<char>,
    lock_days: u64,
    discount: u64,
    tx_fee: u64,
    platform_fee: u64,
) -> Outcome {
    match owner_result(s.config, sender) {
        Err(e) => Err(e),
        Ok(_) => if !valid_rates(tx_fee, platform_fee, discount) {
            Err(ContractError::ConfigurationInvalid)
        } else {
            Ok(
                (
                    with_config(s, ConfigView { lock_days, discount, tx_fee, platform_fee, ..s.config }),
                    ResponseView { event: EventView::UpdateConfig { lock_days, discount }, messages: seq![] },
                ),
            )
        },
    }
}

/// The checks of a native deposit up to the price query: the deposit of the
/// base denomination and its net part, which is what gets quoted.
pub open spec fn bond_prepare_spec(cfg: ConfigView, funds: Seq<(Seq<char>, u128)>) -> Result<
    (u128, u128),
    ContractError,
> {
    if !cfg.enabled {
        Err(ContractError::Disabled)
    } else if !cfg.is_native_bonding {
        Err(ContractError::WrongBondingMode)
    } else {
        match amount_result(funds, cfg.usdc_denom) {
            Err(e) => Err(e),
            Ok(deposit) => if deposit == 0 {
                Err(ContractError::ZeroDeposit)
            } else {
                match net_result(deposit, cfg.tx_fee + cfg.platform_fee) {
                    Err(e) => Err(e),
                    Ok(net) => Ok((deposit, net)),
                }
            },
        }
    }
}

/// A native deposit: the whole deposit goes to the treasury, and the sender
/// is owed the pool's quote for the net part, grossed up by the discount,
/// once the lock has run.
pub open spec fn bond_spec(
    s: ContractView,
    sender: Seq<char>,
    funds: Seq<(Seq<char>, u128)>,
    now: u64,
    price: u128,
) -> Outcome {
    match bond_prepare_spec(s.config, funds) {
        Err(e) => Err(e),
        Ok((deposit, net)) => match receivable_result(price, s.config.discount) {
            Err(e) => Err(e),
            Ok(amount) => match maturity_result(now, s.config.lock_days) {
                Err(e) => Err(e),
                Ok(timestamp) => Ok(
                    (
                        ContractView {
                            config: s.config,
                            bonds: pushed(s.bonds, sender, BondingRecord { amount, timestamp }),
                        },
                        ResponseView {
                            event: EventView::Bond { bond_usdc_amount: net, receiving_amount: amount, address: sender },
                            messages: seq![
                                TransferView {
                                    denom: DenomView::Native(s.config.usdc_denom),
                                    amount: deposit,
                                    recipient: s.config.treasury_address,
                                },
                            ],
                        },
                    ),
                ),
            },
        },
    }
}

/// A deposit forwarded by the pool on behalf of `address`, fees already taken.
pub open spec fn lp_bond_spec(s: ContractView, sender: Seq<char>, address: Seq<char>, amount: u128, now: u64) -> Outcome {
    if !s.config.enabled {
        Err(ContractError::Disabled)
    } else if sender != s.config.pool_address {
        Err(ContractError::Unauthorized)
    } else if amount == 0 {
        Err(ContractError::ZeroDeposit)
    } else if s.config.is_native_bonding {
        Err(ContractError::WrongBondingMode)
    } else {
        match receivable_result(amount, s.config.discount) {
            Err(e) => Err(e),
            Ok(receiving) => match maturity_result(now, s.config.lock_days) {
                Err(e) => Err(e),
                Ok(timestamp) => Ok(
                    (
                        ContractView {
                            config: s.config,
                            bonds: pushed(s.bonds, address, BondingRecord { amount: receiving, timestamp }),
                        },
                        ResponseView {
                            event: EventView::LpBond { bond_fury_amount: amount, receiving_amount: receiving, address },
                            messages: seq![],
                        },
                    ),
                ),
            },
        }
    }
}

/// The checks of a redemption up to the price query: the matured entitlement
/// at `index` of the sender.
pub open spec fn unbond_prepare_spec(s: ContractView, sender: Seq<char>, index: u64, now: u64) -> Result<
    BondingRecord,
    ContractError,
> {
    let records = records_of(s.bonds, sender);
    if !s.config.enabled {
        Err(ContractError::Disabled)
    } else if index >= records.len() {
        Err(ContractError::IndexOutOfRange)
    } else if records[index as int].timestamp > now {
        Err(ContractError::NotMatured)
    } else {
        Ok(records[index as int])
    }
}

/// A redemption: the attached base denomination must cover the fees on the
/// current value of the entitlement, and the reserve its amount.
pub open spec fn unbond_spec(
    s: ContractView,
    sender: Seq<char>,
    funds: Seq<(Seq<char>, u128)>,
    index: u64,
    now: u64,
    price: u128,
    reserve: u128,
) -> Outcome {
    match unbond_prepare_spec(s, sender, index, now) {
        Err(e) => Err(e),
        Ok(record) => match amount_result(funds, s.config.usdc_denom) {
            Err(e) => Err(e),
            Ok(paid) => match redemption_fee_result(price, s.config.tx_fee + s.config.platform_fee) {
                Err(e) => Err(e),
                Ok(fee) => if paid < fee {
                    Err(ContractError::InsufficientFee)
                } else if reserve < record.amount {
                    Err(ContractError::InsufficientReserve)
                } else {
                    Ok(
                        (
                            ContractView { config: s.config, bonds: removed(s.bonds, sender, index as int) },
                            ResponseView {
                                event: EventView::Unbond { receiving_amount: record.amount, address: sender },
                                messages: seq![
                                    TransferView {
                                        denom: DenomView::Cw20(s.config.fury_token_address),
                                        amount: record.amount,
                                        recipient: sender,
                                    },
                                    TransferView {
                                        denom: DenomView::Native(s.config.usdc_denom),
                                        amount: paid,
                                        recipient: s.config.treasury_address,
                                    },
                                ],
                            },
                        ),
                    )
                },
            },
        },
    }
}

/// The owner takes `amount` of the target token out of the reserve.
pub open spec fn withdraw_spec(s: ContractView, sender: Seq<char>, amount: u128, reserve: u128) -> Outcome {
    match owner_result(s.config, sender) {
        Err(e) => Err(e),
        Ok(_) => match enabled_result(s.config) {
            Err(e) => Err(e),
            Ok(_) => if reserve < amount {
                Err(ContractError::InsufficientReserve)
            } else {
                Ok(
                    (
                        s,
                        ResponseView {
                            event: EventView::Withdraw { receiving_amount: amount, address: sender },
                            messages: seq![
                                TransferView {
                                    denom: DenomView::Cw20(s.config.fury_token_address),
                                    amount,
                                    recipient: sender,
                                },
                            ],
                        },
                    ),
                )
            },
        },
    }
}

/// What an invocation does, by request.
pub open spec fn execute_spec(
    s: ContractView,
    now: u64,
    sender: Seq<char>,
    funds: Seq<(Seq<char>, u128)>,
    msg: ExecuteMsg,
    market: Market,
) -> Outcome {
    match msg {
        ExecuteMsg::UpdateOwner { owner } => update_owner_spec(s, sender, owner@),
        ExecuteMsg::UpdateEnabled { enabled } => update_enabled_spec(s, sender, enabled),
        ExecuteMsg::UpdateConfig { lock_days, discount, tx_fee, platform_fee } => update_config_spec(
            s,
            sender,
            lock_days,
            discount,
            tx_fee,
            platform_fee,
        ),
        ExecuteMsg::Bond {  } => bond_spec(s, sender, funds, now, market.price),
        ExecuteMsg::LpBond { address, amount } => lp_bond_spec(s, sender, address@, amount, now),
        ExecuteMsg::Unbond { index } => unbond_spec(s, sender, funds, index, now, market.price, market.reserve),
        ExecuteMsg::Withdraw { amount } => withdraw_spec(s, sender, amount, market.reserve),
    }
}

/// The price query that a request needs before it can be carried out, if any.
pub open spec fn price_query_spec(
    s: ContractView,
    now: u64,
    sender: Seq<char>,
    funds: Seq<(Seq<char>, u128)>,
    msg: ExecuteMsg,
) -> Result<Option<PriceQuery>, ContractError> {
    match msg {
        ExecuteMsg::Bond {  } => match bond_prepare_spec(s.config, funds) {
            Err(e) => Err(e),
            Ok((_, net)) => Ok(Some(PriceQuery::Token1ForToken2 { token1_amount: net })),
        },
        ExecuteMsg::Unbond { index } => match unbond_prepare_spec(s, sender, index, now) {
            Err(e) => Err(e),
            Ok(record) => Ok(Some(PriceQuery::Token2ForToken1 { token2_amount: record.amount })),
        },
        _ => Ok(None),
    }
}

impl BondingContract {
    /// Starts the program, enabled and with an empty ledger; fails with
    /// `ConfigurationInvalid` where the rates leave no positive share.
    pub fn instantiate(msg: InstantiateMsg) -> (r: Result<BondingContract, ContractError>)
        ensures
            match r {
                Ok(c) => {
                    &&& valid_rates(msg.tx_fee, msg.platform_fee, msg.discount)
                    &&& c@.config == ConfigView {
                        owner: msg.owner@,
                        pool_address: msg.pool_address@,
                        treasury_address: msg.treasury_address@,
                        fury_token_address: msg.fury_token_address@,
                        lock_days: msg.lock_days,
                        discount: msg.discount,
                        usdc_denom: msg.usdc_denom@,
                        is_native_bonding: msg.is_native_bonding,
                        tx_fee: msg.tx_fee,
                        platform_fee: msg.platform_fee,
                        enabled: true,
                    }
                    &&& c@.bonds.len() == 0
                    &&& c@.wf()
                },
                Err(e) => !valid_rates(msg.tx_fee, msg.platform_fee, msg.discount) && e
                    == ContractError::ConfigurationInvalid,
            },
    {
        if !check_rates(msg.tx_fee, msg.platform_fee, msg.discount) {
            return Err(ContractError::ConfigurationInvalid);
        }
        let config = Config {
            owner: msg.owner,
            pool_address: msg.pool_address,
            treasury_address: msg.treasury_address,
            fury_token_address: msg.fury_token_address,
            lock_days: msg.lock_days,
            discount: msg.discount,
            usdc_denom: msg.usdc_denom,
            is_native_bonding: msg.is_native_bonding,
            tx_fee: msg.tx_fee,
            platform_fee: msg.platform_fee,
            enabled: true,
        };
        Ok(BondingContract { config, bonds: Vec::new() })
    }

    /// Rebuilds a state from stored parts; `None` where the configuration is
    /// invalid or the ledger is not sorted by address.
    pub fn restore(config: Config, bonds: Vec<BondStateResponse>) -> (r: Option<BondingContract>)
        ensures
            match r {
                Some(c) => c@.config == config@ && c@.bonds == bonds_view(bonds@) && c@.wf(),
                None => !(ContractView { config: config@, bonds: bonds_view(bonds@) }).wf(),
            },
    {
        if !check_rates(config.tx_fee, config.platform_fee, config.discount) {
            return None;
        }
        let ghost b = bonds_view(bonds@);
        let mut i: usize = 1;
        while i < bonds.len()
            invariant
                1 <= i,
                b == bonds_view(bonds@),
                i <= bonds@.len() || bonds@.len() == 0,
                forall|x: int, y: int| 0 <= x < y < i && y < b.len() ==> crate::order::addr_lt(
                    #[trigger] b[x].address,
                    #[trigger] b[y].address,
                ),
            decreases bonds@.len() - i,
        {
            if !crate::order::addr_less(&bonds[i - 1].address, &bonds[i].address) {
                proof {
                    if sorted(b) {
                        assert(crate::order::addr_lt(b[i - 1].address, b[i as int].address));
                    }
                }
                return None;
            }
            proof {
                assert forall|x: int, y: int| 0 <= x < y < i + 1 && y < b.len() implies crate::order::addr_lt(
                    #[trigger] b[x].address,
                    #[trigger] b[y].address,
                ) by {
                    if y == i && x < i - 1 {
                        crate::order::lemma_addr_lt_transitive(b[x].address, b[i - 1].address, b[y].address);
                    }
                }
            }
            i = i + 1;
        }
        Some(BondingContract { config, bonds })
    }

    /// Hands ownership to `owner`; only the owner may.
    pub fn execute_update_owner(&mut self, info: &MessageInfo, owner: String) -> (r: Result<Response, ContractError>)
        requires
            old(self)@.wf(),
        ensures
            final(self)@.wf(),
            outcome_matches(update_owner_spec(old(self)@, info.sender@, owner@), old(self)@, final(self)@, r),
    {
        if let Err(e) = check_owner(&self.config, &info.sender) {
            return Err(e);
        }
        self.config.owner = owner.clone();
        Ok(Response { event: Event::UpdateOwner { owner }, messages: no_transfers() })
    }

    /// Switches the program on or off; only the owner may.
    pub fn execute_update_enabled(&mut self, info: &MessageInfo, enabled: bool) -> (r: Result<Response, ContractError>)
        requires
            old(self)@.wf(),
        ensures
            final(self)@.wf(),
            outcome_matches(update_enabled_spec(old(self)@, info.sender@, enabled), old(self)@, final(self)@, r),
    {
        if let Err(e) = check_owner(&self.config, &info.sender) {
            return Err(e);
        }
        self.config.enabled = enabled;
        Ok(Response { event: Event::UpdateEnabled { enabled }, messages: no_transfers() })
    }

    /// Sets the lock duration and the rates; only the owner may, and only to
    /// rates that leave a positive share.
    pub fn execute_update_config(
        &mut self,
        info: &MessageInfo,
        lock_days: u64,
        discount: u64,
        tx_fee: u64,
        platform_fee: u64,
    ) -> (r: Result<Response, ContractError>)
        requires
            old(self)@.wf(),
        ensures
            final(self)@.wf(),
            outcome_matches(
                update_config_spec(old(self)@, info.sender@, lock_days, discount, tx_fee, platform_fee),
                old(self)@,
                final(self)@,
                r,
            ),
    {
        if let Err(e) = check_owner(&self.config, &info.sender) {
            return Err(e);
        }
        if !check_rates(tx_fee, platform_fee, discount) {
            return Err(ContractError::ConfigurationInvalid);
        }
        self.config.lock_days = lock_days;
        self.config.discount = discount;
        self.config.tx_fee = tx_fee;
        self.config.platform_fee = platform_fee;
        Ok(Response { event: Event::UpdateConfig { lock_days, discount }, messages: no_transfers() })
    }
}

/// An empty list of transfers.
fn no_transfers() -> (r: Vec<Transfer>)
    ensures
        r@.map_values(|t: Transfer| t@) == Seq::<TransferView>::empty(),
{
    let r: Vec<Transfer> = Vec::new();
    assert(r@.map_values(|t: Transfer| t@) =~= Seq::<TransferView>::empty());
    r
}

/// `r` and the state after the call are what `spec` gives; on an error the
/// state is unchanged.
pub open spec fn outcome_matches(
    spec: Outcome,
    before: ContractView,
    after: ContractView,
    r: Result<Response, ContractError>,
) -> bool {
    match spec {
        Ok((s, resp)) => r is Ok && r->Ok_0@ == resp && after == s,
        Err(e) => r == Err::<Response, ContractError>(e) && after == before,
    }
}

fn one_transfer(t: Transfer) -> (r: Vec<Transfer>)
    ensures
        r@.map_values(|t: Transfer| t@) == seq![t@],
{
    let mut r: Vec<Transfer> = Vec::new();
    r.push(t);
    assert(r@.map_values(|t: Transfer| t@) =~= seq![t@]);
    r
}

fn two_transfers(t: Transfer, u: Transfer) -> (r: Vec<Transfer>)
    ensures
        r@.map_values(|t: Transfer| t@) == seq![t@, u@],
{
    let mut r: Vec<Transfer> = Vec::new();
    r.push(t);
    r.push(u);
    assert(r@.map_values(|t: Transfer| t@) =~= seq![t@, u@]);
    r
}

impl BondingContract {
    fn bond_prepare(&self, info: &MessageInfo) -> (r: Result<(u128, u128), ContractError>)
        requires
            self@.wf(),
        ensures
            r == bond_prepare_spec(self@.config, coins_view(info.funds@)),
    {
        if let Err(e) = check_enabled(&self.config) {
            return Err(e);
        }
        if !self.config.is_native_bonding {
            return Err(ContractError::WrongBondingMode);
        }
        let deposit = match amount_of_denom(&info.funds, &self.config.usdc_denom) {
            Err(e) => return Err(e),
            Ok(d) => d,
        };
        if deposit == 0 {
            return Err(ContractError::ZeroDeposit);
        }
        match split_deposit(deposit, self.config.tx_fee, self.config.platform_fee) {
            Err(e) => Err(e),
            Ok(split) => Ok((deposit, split.net)),
        }
    }

    /// Bonds the base denomination attached to the call. `price` is the
    /// pool's answer to the query that [`Self::price_query`] names for it.
    pub fn execute_bond(&mut self, now: u64, info: &MessageInfo, price: u128) -> (r: Result<Response, ContractError>)
        requires
            old(self)@.wf(),
        ensures
            final(self)@.wf(),
            outcome_matches(
                bond_spec(old(self)@, info.sender@, coins_view(info.funds@), now, price),
                old(self)@,
                final(self)@,
                r,
            ),
    {
        let (deposit, net) = match self.bond_prepare(info) {
            Err(e) => return Err(e),
            Ok(p) => p,
        };
        let amount = match receivable_amount(price, self.config.discount) {
            Err(e) => return Err(e),
            Ok(a) => a,
        };
        let timestamp = match maturity(now, self.config.lock_days) {
            Err(e) => return Err(e),
            Ok(t) => t,
        };
        push_record(&mut self.bonds, &info.sender, BondingRecord { amount, timestamp });
        let transfer = Transfer {
            denom: Denom::Native(self.config.usdc_denom.clone()),
            amount: deposit,
            recipient: self.config.treasury_address.clone(),
        };
        Ok(Response {
            event: Event::Bond { bond_usdc_amount: net, receiving_amount: amount, address: info.sender.clone() },
            messages: one_transfer(transfer),
        })
    }

    /// Bonds `amount` forwarded by the pool on behalf of `address`; the
    /// entitlement belongs to `address`.
    pub fn execute_lp_bond(&mut self, now: u64, info: &MessageInfo, address: String, amount: u128) -> (r: Result<
        Response,
        ContractError,
    >)
        requires
            old(self)@.wf(),
        ensures
            final(self)@.wf(),
            outcome_matches(
                lp_bond_spec(old(self)@, info.sender@, address@, amount, now),
                old(self)@,
                final(self)@,
                r,
            ),
    {
        if let Err(e) = check_enabled(&self.config) {
            return Err(e);
        }
        if info.sender != self.config.pool_address {
            return Err(ContractError::Unauthorized);
        }
        if amount == 0 {
            return Err(ContractError::ZeroDeposit);
        }
        if self.config.is_native_bonding {
            return Err(ContractError::WrongBondingMode);
        }
        let receiving = match receivable_amount(amount, self.config.discount) {
            Err(e) => return Err(e),
            Ok(a) => a,
        };
        let timestamp = match maturity(now, self.config.lock_days) {
            Err(e) => return Err(e),
            Ok(t) => t,
        };
        push_record(&mut self.bonds, &address, BondingRecord { amount: receiving, timestamp });
        Ok(Response {
            event: Event::LpBond { bond_fury_amount: amount, receiving_amount: receiving, address },
            messages: no_transfers(),
        })
    }

    fn unbond_prepare(&self, sender: &String, index: u64, now: u64) -> (r: Result<
        (usize, usize, BondingRecord),
        ContractError,
    >)
        requires
            self@.wf(),
        ensures
            match r {
                Ok((pos, at, record)) => {
                    &&& at == index
                    &&& unbond_prepare_spec(self@, sender@, index, now) == Ok::<BondingRecord, ContractError>(record)
                    &&& pos < self.bonds@.len()
                    &&& self.bonds@[pos as int].address@ == sender@
                    &&& index < self.bonds@[pos as int].list@.len()
                },
                Err(e) => unbond_prepare_spec(self@, sender@, index, now) == Err::<BondingRecord, ContractError>(e),
            },
    {
        if let Err(e) = check_enabled(&self.config) {
            return Err(e);
        }
        let pos = match locate(&self.bonds, sender) {
            Err(_) => return Err(ContractError::IndexOutOfRange),
            Ok(i) => i,
        };
        let len = self.bonds[pos].list.len();
        if index >= len as u64 {
            return Err(ContractError::IndexOutOfRange);
        }
        let at = index as usize;
        let record = self.bonds[pos].list[at];
        if record.timestamp > now {
            return Err(ContractError::NotMatured);
        }
        Ok((pos, at, record))
    }

    /// Redeems the matured entitlement at `index` of the sender. `market`
    /// holds the pool's answer to the query that [`Self::price_query`] names
    /// for it, and the reserve of the target token.
    pub fn execute_unbond(&mut self, now: u64, info: &MessageInfo, index: u64, market: Market) -> (r: Result<
        Response,
        ContractError,
    >)
        requires
            old(self)@.wf(),
        ensures
            final(self)@.wf(),
            outcome_matches(
                unbond_spec(old(self)@, info.sender@, coins_view(info.funds@), index, now, market.price, market.reserve),
                old(self)@,
                final(self)@,
                r,
            ),
    {
        let (pos, at, record) = match self.unbond_prepare(&info.sender, index, now) {
            Err(e) => return Err(e),
            Ok(p) => p,
        };
        let paid = match amount_of_denom(&info.funds, &self.config.usdc_denom) {
            Err(e) => return Err(e),
            Ok(a) => a,
        };
        let fee = match redemption_fee(market.price, self.config.tx_fee, self.config.platform_fee) {
            Err(e) => return Err(e),
            Ok(f) => f,
        };
        if paid < fee {
            return Err(ContractError::InsufficientFee);
        }
        if market.reserve < record.amount {
            return Err(ContractError::InsufficientReserve);
        }
        let ghost before = self@;
        assert(self.bonds@[pos as int].address@ == info.sender@);
        remove_record(&mut self.bonds, pos, at);
        assert(self@.bonds == removed(before.bonds, info.sender@, index as int));
        assert(self@.config == before.config);
        let payout = Transfer {
            denom: Denom::Cw20(self.config.fury_token_address.clone()),
            amount: record.amount,
            recipient: info.sender.clone(),
        };
        let fee_payment = Transfer {
            denom: Denom::Native(self.config.usdc_denom.clone()),
            amount: paid,
            recipient: self.config.treasury_address.clone(),
        };
        Ok(Response {
            event: Event::Unbond { receiving_amount: record.amount, address: info.sender.clone() },
            messages: two_transfers(payout, fee_payment),
        })
    }

    /// The owner takes `amount` of the target token out of the reserve.
    pub fn execute_withdraw(&mut self, info: &MessageInfo, amount: u128, reserve: u128) -> (r: Result<
        Response,
        ContractError,
    >)
        requires
            old(self)@.wf(),
        ensures
            final(self)@.wf(),
            outcome_matches(withdraw_spec(old(self)@, info.sender@, amount, reserve), old(self)@, final(self)@, r),
    {
        if let Err(e) = check_owner(&self.config, &info.sender) {
            return Err(e);
        }
        if let Err(e) = check_enabled(&self.config) {
            return Err(e);
        }
        if reserve < amount {
            return Err(ContractError::InsufficientReserve);
        }
        let transfer = Transfer {
            denom: Denom::Cw20(self.config.fury_token_address.clone()),
            amount,
            recipient: info.sender.clone(),
        };
        Ok(Response {
            event: Event::Withdraw { receiving_amount: amount, address: info.sender.clone() },
            messages: one_transfer(transfer),
        })
    }
}

/// The page size of a listing: ten where none is asked for, at most thirty.
pub open spec fn page_limit(limit: Option<u32>) -> nat {
    match limit {
        None => DEFAULT_LIMIT as nat,
        Some(l) => if l > MAX_LIMIT {
            MAX_LIMIT as nat
        } else {
            l as nat
        },
    }
}

pub open spec fn opt_view(s: Option<String>) -> Option<Seq<char>> {
    match s {
        Some(a) => Some(a@),
        None => None,
    }
}

impl BondingContract {
    /// The price query that `msg` needs answered before [`Self::execute`]
    /// can carry it out; the error it fails with where it cannot get that far.
    pub fn price_query(&self, now: u64, info: &MessageInfo, msg: &ExecuteMsg) -> (r: Result<
        Option<PriceQuery>,
        ContractError,
    >)
        requires
            self@.wf(),
        ensures
            r == price_query_spec(self@, now, info.sender@, coins_view(info.funds@), *msg),
    {
        match msg {
            ExecuteMsg::Bond {  } => match self.bond_prepare(info) {
                Err(e) => Err(e),
                Ok((_, net)) => Ok(Some(PriceQuery::Token1ForToken2 { token1_amount: net })),
            },
            ExecuteMsg::Unbond { index } => match self.unbond_prepare(&info.sender, *index, now) {
                Err(e) => Err(e),
                Ok((_, _, record)) => Ok(Some(PriceQuery::Token2ForToken1 { token2_amount: record.amount })),
            },
            _ => Ok(None),
        }
    }

    /// Carries out a mutating request. `market` holds what the host observed:
    /// the answer to [`Self::price_query`] and the reserve of the target token.
    pub fn execute(&mut self, now: u64, info: &MessageInfo, msg: ExecuteMsg, market: Market) -> (r: Result<
        Response,
        ContractError,
    >)
        requires
            old(self)@.wf(),
        ensures
            final(self)@.wf(),
            outcome_matches(
                execute_spec(old(self)@, now, info.sender@, coins_view(info.funds@), msg, market),
                old(self)@,
                final(self)@,
                r,
            ),
    {
        match msg {
            ExecuteMsg::UpdateOwner { owner } => self.execute_update_owner(info, owner),
            ExecuteMsg::UpdateEnabled { enabled } => self.execute_update_enabled(info, enabled),
            ExecuteMsg::UpdateConfig { lock_days, discount, tx_fee, platform_fee } => self.execute_update_config(
                info,
                lock_days,
                discount,
                tx_fee,
                platform_fee,
            ),
            ExecuteMsg::Bond {  } => self.execute_bond(now, info, market.price),
            ExecuteMsg::LpBond { address, amount } => self.execute_lp_bond(now, info, address, amount),
            ExecuteMsg::Unbond { index } => self.execute_unbond(now, info, index, market),
            ExecuteMsg::Withdraw { amount } => self.execute_withdraw(info, amount, market.reserve),
        }
    }

    /// The current configuration.
    pub fn query_config(&self) -> (r: ConfigResponse)
        ensures
            r@ == self@.config,
    {
        let c = &self.config;
        ConfigResponse {
            owner: c.owner.clone(),
            pool_address: c.pool_address.clone(),
            treasury_address: c.treasury_address.clone(),
            fury_token_address: c.fury_token_address.clone(),
            lock_days: c.lock_days,
            discount: c.discount,
            usdc_denom: c.usdc_denom.clone(),
            is_native_bonding: c.is_native_bonding,
            tx_fee: c.tx_fee,
            platform_fee: c.platform_fee,
            enabled: c.enabled,
        }
    }

    /// The entitlements of `address`; empty where it has none.
    pub fn query_bond_state(&self, address: String) -> (r: BondStateResponse)
        requires
            self@.wf(),
        ensures
            r.address@ == address@,
            r.list@ == records_of(self@.bonds, address@),
    {
        let list = match locate(&self.bonds, &address) {
            Ok(i) => copy_records(&self.bonds[i].list),
            Err(_) => Vec::new(),
        };
        BondStateResponse { address, list }
    }

    /// A page of depositors after `start_after`, in ledger order: ten where no
    /// limit is given, never more than thirty.
    pub fn query_all_bond_state(&self, start_after: Option<String>, limit: Option<u32>) -> (r: AllBondStateResponse)
        requires
            self@.wf(),
        ensures
            bonds_view(r.list@) == page(self@.bonds, opt_view(start_after), page_limit(limit)),
    {
        let n: u32 = match limit {
            None => DEFAULT_LIMIT,
            Some(l) => if l > MAX_LIMIT {
                MAX_LIMIT
            } else {
                l
            },
        };
        AllBondStateResponse { list: page_of(&self.bonds, &start_after, n as usize) }
    }

    /// Answers a read request.
    pub fn query(&self, msg: QueryMsg) -> (r: QueryResponse)
        requires
            self@.wf(),
        ensures
            match msg {
                QueryMsg::Config {  } => r matches QueryResponse::Config(c) && c@ == self@.config,
                QueryMsg::BondState { address } => r matches QueryResponse::BondState(b) && b.address@ == address@
                    && b.list@ == records_of(self@.bonds, address@),
                QueryMsg::AllBondState { start_after, limit } => r matches QueryResponse::AllBondState(a)
                    && bonds_view(a.list@) == page(self@.bonds, opt_view(start_after), page_limit(limit)),
            },
    {
        match msg {
            QueryMsg::Config {  } => QueryResponse::Config(self.query_config()),
            QueryMsg::BondState { address } => QueryResponse::BondState(self.query_bond_state(address)),
            QueryMsg::AllBondState { start_after, limit } => QueryResponse::AllBondState(
                self.query_all_bond_state(start_after, limit),
            ),
        }
    }
}

/// Allows an upgrade only of a program recorded under this program's name.
pub fn migrate(stored_contract: &String, _msg: MigrateMsg) -> (r: Result<(), ContractError>)
    ensures
        match r {
            Ok(_) => stored_contract@ == CONTRACT_NAME@,
            Err(e) => {
                &&& stored_contract@ != CONTRACT_NAME@
                &&& e matches ContractError::CannotMigrate { previous_contract } && previous_contract@
                    == stored_contract@
            },
        },
{
    let name = CONTRACT_NAME.to_owned();
    if *stored_contract != name {
        return Err(ContractError::CannotMigrate { previous_contract: stored_contract.clone() });
    }
    Ok(())
}

} // verus!
