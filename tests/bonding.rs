use fanfurybonding::contract::BondingContract;
use fanfurybonding::fees::{maturity, receivable_amount, redemption_fee, split_deposit};
use fanfurybonding::funds::amount_of_denom;
use fanfurybonding::order::addr_less;
use fanfurybonding::{
    check_enabled, check_owner, migrate, BondingRecord, Coin, ContractError, Denom, Event, ExecuteMsg, InstantiateMsg,
    Market, MessageInfo, MigrateMsg, PriceQuery, QueryMsg, QueryResponse, Transfer,
};

const DAY: u64 = 86400;

fn init_msg(native: bool) -> InstantiateMsg {
    InstantiateMsg {
        owner: "owner".to_string(),
        pool_address: "pool".to_string(),
        treasury_address: "treasury".to_string(),
        fury_token_address: "fury".to_string(),
        lock_days: 7,
        discount: 50,
        usdc_denom: "uusdc".to_string(),
        is_native_bonding: native,
        tx_fee: 10,
        platform_fee: 20,
    }
}

fn contract(native: bool) -> BondingContract {
    BondingContract::instantiate(init_msg(native)).unwrap()
}

fn info(sender: &str, funds: Vec<(&str, u128)>) -> MessageInfo {
    MessageInfo {
        sender: sender.to_string(),
        funds: funds.into_iter().map(|(d, a)| Coin { denom: d.to_string(), amount: a }).collect(),
    }
}

fn market(price: u128, reserve: u128) -> Market {
    Market { price, reserve }
}

fn records(c: &BondingContract, address: &str) -> Vec<BondingRecord> {
    c.query_bond_state(address.to_string()).list
}

fn bond(c: &mut BondingContract, sender: &str, deposit: u128, now: u64, price: u128) {
    c.execute(now, &info(sender, vec![("uusdc", deposit)]), ExecuteMsg::Bond {}, market(price, 0)).unwrap();
}

#[test]
fn scenario_bond_five_percent_discount() {
    let mut c = contract(true);
    let now = 1_000_000;
    let i = info("alice", vec![("uusdc", 1000)]);
    let q = c.price_query(now, &i, &ExecuteMsg::Bond {}).unwrap();
    assert_eq!(q, Some(PriceQuery::Token1ForToken2 { token1_amount: 970 }));
    let r = c.execute(now, &i, ExecuteMsg::Bond {}, market(900, 0)).unwrap();
    assert_eq!(
        r.event,
        Event::Bond { bond_usdc_amount: 970, receiving_amount: 947, address: "alice".to_string() }
    );
    assert_eq!(
        r.messages,
        vec![Transfer { denom: Denom::Native("uusdc".to_string()), amount: 1000, recipient: "treasury".to_string() }]
    );
    assert_eq!(records(&c, "alice"), vec![BondingRecord { amount: 947, timestamp: now + 604800 }]);
}

#[test]
fn fee_split_adds_up() {
    for d in [1u128, 7, 999, 1000, 1001, 123_456_789] {
        let s = split_deposit(d, 10, 20).unwrap();
        assert_eq!(s.fee + s.net, d);
        assert_eq!(s.net, d * 970 / 1000);
    }
    let s = split_deposit(999, 10, 20).unwrap();
    assert_eq!(s.net, 969);
    assert_eq!(s.fee, 30);
    assert_eq!(split_deposit(u128::MAX, 10, 20), Err(ContractError::Overflow));
    assert_eq!(split_deposit(u128::MAX, 0, 999).unwrap().net, u128::MAX / 1000);
}

#[test]
fn arithmetic_exact_values() {
    assert_eq!(receivable_amount(900, 50), Ok(947));
    assert_eq!(receivable_amount(900, 0), Ok(900));
    assert_eq!(receivable_amount(1, 999), Ok(1000));
    assert_eq!(receivable_amount(u128::MAX, 0), Err(ContractError::Overflow));
    assert_eq!(redemption_fee(1000, 10, 20), Ok(30));
    assert_eq!(redemption_fee(33, 10, 20), Ok(0));
    assert_eq!(maturity(100, 7), Ok(100 + 7 * DAY));
    assert_eq!(maturity(u64::MAX, 1), Err(ContractError::Overflow));
    assert_eq!(maturity(5, 0), Ok(5));
}

#[test]
fn attached_amount_counts_only_the_base_denomination() {
    let i = info("a", vec![("uatom", 50), ("uusdc", 10), ("uusdc", 5)]);
    assert_eq!(amount_of_denom(&i.funds, &"uusdc".to_string()), Ok(15));
    assert_eq!(amount_of_denom(&i.funds, &"uother".to_string()), Ok(0));
    let big = info("a", vec![("uusdc", u128::MAX), ("uusdc", 1)]);
    assert_eq!(amount_of_denom(&big.funds, &"uusdc".to_string()), Err(ContractError::Overflow));
}

#[test]
fn bond_other_denomination_only_is_zero_deposit() {
    let mut c = contract(true);
    let r = c.execute(10, &info("alice", vec![("uatom", 500)]), ExecuteMsg::Bond {}, market(1, 0));
    assert_eq!(r, Err(ContractError::ZeroDeposit));
    assert!(records(&c, "alice").is_empty());
}

#[test]
fn bond_in_pool_mode_is_wrong_mode() {
    let mut c = contract(false);
    let r = c.execute(10, &info("alice", vec![("uusdc", 500)]), ExecuteMsg::Bond {}, market(1, 0));
    assert_eq!(r, Err(ContractError::WrongBondingMode));
}

#[test]
fn bond_overflowing_quote_fails() {
    let mut c = contract(true);
    let r = c.execute(10, &info("alice", vec![("uusdc", 500)]), ExecuteMsg::Bond {}, market(u128::MAX, 0));
    assert_eq!(r, Err(ContractError::Overflow));
    assert!(records(&c, "alice").is_empty());
}

#[test]
fn lp_bond_credits_end_depositor() {
    let mut c = contract(false);
    let msg = ExecuteMsg::LpBond { address: "bob".to_string(), amount: 950 };
    let r = c.execute(100, &info("pool", vec![]), msg, market(0, 0)).unwrap();
    assert_eq!(
        r.event,
        Event::LpBond { bond_fury_amount: 950, receiving_amount: 1000, address: "bob".to_string() }
    );
    assert!(r.messages.is_empty());
    assert_eq!(records(&c, "bob"), vec![BondingRecord { amount: 1000, timestamp: 100 + 7 * DAY }]);
    assert!(records(&c, "pool").is_empty());
}

#[test]
fn lp_bond_errors() {
    let mut c = contract(false);
    let m = |a: u128| ExecuteMsg::LpBond { address: "bob".to_string(), amount: a };
    assert_eq!(c.execute(1, &info("mallory", vec![]), m(5), market(0, 0)), Err(ContractError::Unauthorized));
    assert_eq!(c.execute(1, &info("pool", vec![]), m(0), market(0, 0)), Err(ContractError::ZeroDeposit));
    let mut n = contract(true);
    assert_eq!(n.execute(1, &info("pool", vec![]), m(5), market(0, 0)), Err(ContractError::WrongBondingMode));
}

#[test]
fn unbond_before_maturity_fails_then_succeeds() {
    let mut c = contract(true);
    bond(&mut c, "alice", 1000, 0, 900);
    let t = 7 * DAY;
    let early = c.execute(t - 1, &info("alice", vec![("uusdc", 100)]), ExecuteMsg::Unbond { index: 0 }, market(1000, 947));
    assert_eq!(early, Err(ContractError::NotMatured));
    let i = info("alice", vec![("uusdc", 30)]);
    let q = c.price_query(t, &i, &ExecuteMsg::Unbond { index: 0 }).unwrap();
    assert_eq!(q, Some(PriceQuery::Token2ForToken1 { token2_amount: 947 }));
    let r = c.execute(t, &i, ExecuteMsg::Unbond { index: 0 }, market(1000, 947)).unwrap();
    assert_eq!(r.event, Event::Unbond { receiving_amount: 947, address: "alice".to_string() });
    assert_eq!(
        r.messages,
        vec![
            Transfer { denom: Denom::Cw20("fury".to_string()), amount: 947, recipient: "alice".to_string() },
            Transfer { denom: Denom::Native("uusdc".to_string()), amount: 30, recipient: "treasury".to_string() },
        ]
    );
    assert!(records(&c, "alice").is_empty());
}

#[test]
fn unbond_fee_and_reserve_checks() {
    let mut c = contract(true);
    bond(&mut c, "alice", 1000, 0, 900);
    let t = 7 * DAY;
    let short = c.execute(t, &info("alice", vec![("uusdc", 29)]), ExecuteMsg::Unbond { index: 0 }, market(1000, 947));
    assert_eq!(short, Err(ContractError::InsufficientFee));
    let dry = c.execute(t, &info("alice", vec![("uusdc", 30)]), ExecuteMsg::Unbond { index: 0 }, market(1000, 946));
    assert_eq!(dry, Err(ContractError::InsufficientReserve));
    assert_eq!(records(&c, "alice").len(), 1);
}

#[test]
fn unbond_twice_at_same_index() {
    let mut c = contract(true);
    bond(&mut c, "alice", 1000, 0, 900);
    bond(&mut c, "alice", 2000, 0, 1900);
    let t = 7 * DAY;
    let i = info("alice", vec![("uusdc", 1_000_000)]);
    let first = c.execute(t, &i, ExecuteMsg::Unbond { index: 0 }, market(10, 10_000)).unwrap();
    assert_eq!(first.messages[0].amount, 947);
    let second = c.execute(t, &i, ExecuteMsg::Unbond { index: 0 }, market(10, 10_000)).unwrap();
    assert_eq!(second.messages[0].amount, 2000);
    let third = c.execute(t, &i, ExecuteMsg::Unbond { index: 0 }, market(10, 10_000));
    assert_eq!(third, Err(ContractError::IndexOutOfRange));
}

#[test]
fn unbond_unknown_depositor_is_out_of_range() {
    let mut c = contract(true);
    let r = c.execute(1, &info("nobody", vec![]), ExecuteMsg::Unbond { index: 0 }, market(1, 1));
    assert_eq!(r, Err(ContractError::IndexOutOfRange));
}

#[test]
fn disabled_blocks_mutations_but_not_reads() {
    let mut c = contract(true);
    bond(&mut c, "alice", 1000, 0, 900);
    c.execute(0, &info("owner", vec![]), ExecuteMsg::UpdateEnabled { enabled: false }, market(0, 0)).unwrap();
    let funds = info("alice", vec![("uusdc", 1000)]);
    assert_eq!(c.execute(0, &funds, ExecuteMsg::Bond {}, market(1, 0)), Err(ContractError::Disabled));
    assert_eq!(c.price_query(0, &funds, &ExecuteMsg::Bond {}), Err(ContractError::Disabled));
    let lp = ExecuteMsg::LpBond { address: "bob".to_string(), amount: 5 };
    assert_eq!(c.execute(0, &info("pool", vec![]), lp, market(0, 0)), Err(ContractError::Disabled));
    let un = ExecuteMsg::Unbond { index: 0 };
    assert_eq!(c.execute(7 * DAY, &funds, un, market(0, 10_000)), Err(ContractError::Disabled));
    let w = ExecuteMsg::Withdraw { amount: 1 };
    assert_eq!(c.execute(0, &info("owner", vec![]), w, market(0, 10)), Err(ContractError::Disabled));
    assert_eq!(records(&c, "alice").len(), 1);
    match c.query(QueryMsg::Config {}) {
        QueryResponse::Config(cfg) => assert!(!cfg.enabled),
        _ => panic!("wrong answer"),
    }
    c.execute(0, &info("owner", vec![]), ExecuteMsg::UpdateEnabled { enabled: true }, market(0, 0)).unwrap();
    bond(&mut c, "alice", 1000, 0, 900);
    assert_eq!(records(&c, "alice").len(), 2);
}

#[test]
fn only_owner_administers() {
    let mut c = contract(true);
    let stranger = info("mallory", vec![]);
    let msgs = vec![
        ExecuteMsg::UpdateOwner { owner: "mallory".to_string() },
        ExecuteMsg::UpdateEnabled { enabled: false },
        ExecuteMsg::UpdateConfig { lock_days: 1, discount: 0, tx_fee: 0, platform_fee: 0 },
        ExecuteMsg::Withdraw { amount: 1 },
    ];
    for m in msgs {
        assert_eq!(c.execute(0, &stranger, m, market(0, 100)), Err(ContractError::Unauthorized));
    }
    assert_eq!(c.query_config().owner, "owner");
}

#[test]
fn update_owner_assigns_new_owner() {
    let mut c = contract(true);
    let r = c
        .execute(0, &info("owner", vec![]), ExecuteMsg::UpdateOwner { owner: "carol".to_string() }, market(0, 0))
        .unwrap();
    assert_eq!(r.event, Event::UpdateOwner { owner: "carol".to_string() });
    assert_eq!(c.query_config().owner, "carol");
    let old = c.execute(0, &info("owner", vec![]), ExecuteMsg::UpdateEnabled { enabled: false }, market(0, 0));
    assert_eq!(old, Err(ContractError::Unauthorized));
}

#[test]
fn update_config_sets_fields_and_rejects_bad_rates() {
    let mut c = contract(true);
    let owner = info("owner", vec![]);
    let bad = ExecuteMsg::UpdateConfig { lock_days: 1, discount: 1000, tx_fee: 0, platform_fee: 0 };
    assert_eq!(c.execute(0, &owner, bad, market(0, 0)), Err(ContractError::ConfigurationInvalid));
    let bad_fees = ExecuteMsg::UpdateConfig { lock_days: 1, discount: 0, tx_fee: 500, platform_fee: 500 };
    assert_eq!(c.execute(0, &owner, bad_fees, market(0, 0)), Err(ContractError::ConfigurationInvalid));
    let good = ExecuteMsg::UpdateConfig { lock_days: 3, discount: 100, tx_fee: 5, platform_fee: 6 };
    let r = c.execute(0, &owner, good, market(0, 0)).unwrap();
    assert_eq!(r.event, Event::UpdateConfig { lock_days: 3, discount: 100 });
    let cfg = c.query_config();
    assert_eq!((cfg.lock_days, cfg.discount, cfg.tx_fee, cfg.platform_fee), (3, 100, 5, 6));
}

#[test]
fn instantiate_rejects_invalid_rates() {
    let mut m = init_msg(true);
    m.tx_fee = 990;
    m.platform_fee = 10;
    assert_eq!(BondingContract::instantiate(m), Err(ContractError::ConfigurationInvalid));
    let mut d = init_msg(true);
    d.discount = 1000;
    assert_eq!(BondingContract::instantiate(d), Err(ContractError::ConfigurationInvalid));
    assert!(contract(true).query_config().enabled);
}

#[test]
fn withdraw_checks_reserve() {
    let mut c = contract(true);
    let owner = info("owner", vec![]);
    assert_eq!(
        c.execute(0, &owner, ExecuteMsg::Withdraw { amount: 11 }, market(0, 10)),
        Err(ContractError::InsufficientReserve)
    );
    let r = c.execute(0, &owner, ExecuteMsg::Withdraw { amount: 10 }, market(0, 10)).unwrap();
    assert_eq!(
        r.messages,
        vec![Transfer { denom: Denom::Cw20("fury".to_string()), amount: 10, recipient: "owner".to_string() }]
    );
}

fn with_depositors(n: usize) -> BondingContract {
    let mut c = contract(true);
    for k in 0..n {
        bond(&mut c, &format!("addr{:02}", (k * 17) % n), 1000, 0, 900);
    }
    c
}

fn listed(c: &BondingContract, start: Option<&str>, limit: Option<u32>) -> Vec<String> {
    c.query_all_bond_state(start.map(|s| s.to_string()), limit).list.into_iter().map(|e| e.address).collect()
}

#[test]
fn pagination_default_and_clamp() {
    let c = with_depositors(35);
    let all: Vec<String> = (0..35).map(|k| format!("addr{:02}", k)).collect();
    assert_eq!(listed(&c, None, None), all[..10].to_vec());
    assert_eq!(listed(&c, None, Some(100)), all[..30].to_vec());
    assert_eq!(listed(&c, Some("addr09"), None), all[10..20].to_vec());
    assert_eq!(listed(&c, Some("addr30"), Some(100)), all[31..].to_vec());
    assert_eq!(listed(&c, Some("addr34"), None), Vec::<String>::new());
    assert_eq!(listed(&c, Some("a"), Some(2)), all[..2].to_vec());
    assert_eq!(listed(&c, None, Some(0)), Vec::<String>::new());
}

#[test]
fn ledger_order_is_byte_order() {
    assert!(addr_less(&"a".to_string(), &"b".to_string()));
    assert!(addr_less(&"ab".to_string(), &"abc".to_string()));
    assert!(addr_less(&"Z".to_string(), &"a".to_string()));
    assert!(!addr_less(&"abc".to_string(), &"abc".to_string()));
    assert!(addr_less(&"z".to_string(), &"\u{e9}".to_string()));
    let mut c = contract(true);
    for a in ["m", "b", "\u{e9}", "B", "mm"] {
        bond(&mut c, a, 10, 0, 1);
    }
    assert_eq!(listed(&c, None, None), vec!["B", "b", "m", "mm", "\u{e9}"]);
}

#[test]
fn bond_state_of_unknown_address_is_empty() {
    let c = contract(true);
    let r = c.query_bond_state("ghost".to_string());
    assert_eq!(r.address, "ghost");
    assert!(r.list.is_empty());
}

#[test]
fn restore_checks_order_and_rates() {
    let mut c = with_depositors(3);
    let cfg = c.config.clone();
    let back = BondingContract::restore(cfg.clone(), c.bonds.clone()).unwrap();
    assert_eq!(back, c);
    c.bonds.swap(0, 1);
    assert!(BondingContract::restore(cfg.clone(), c.bonds.clone()).is_none());
    let mut bad = cfg;
    bad.discount = 1000;
    assert!(BondingContract::restore(bad, Vec::new()).is_none());
}

#[test]
fn gates() {
    let mut cfg = contract(true).config;
    assert_eq!(check_enabled(&cfg), Ok(()));
    assert_eq!(check_owner(&cfg, &"owner".to_string()), Ok(()));
    assert_eq!(check_owner(&cfg, &"other".to_string()), Err(ContractError::Unauthorized));
    cfg.enabled = false;
    assert_eq!(check_enabled(&cfg), Err(ContractError::Disabled));
}

#[test]
fn migrate_checks_contract_name() {
    assert_eq!(migrate(&"fanfurybonding".to_string(), MigrateMsg {}), Ok(()));
    assert_eq!(
        migrate(&"other".to_string(), MigrateMsg {}),
        Err(ContractError::CannotMigrate { previous_contract: "other".to_string() })
    );
}

#[test]
fn redemption_pays_recorded_amount_after_changes() {
    let mut c = contract(true);
    bond(&mut c, "alice", 1000, 0, 900);
    let owner = info("owner", vec![]);
    let change = ExecuteMsg::UpdateConfig { lock_days: 30, discount: 500, tx_fee: 1, platform_fee: 1 };
    c.execute(0, &owner, change, market(0, 0)).unwrap();
    let i = info("alice", vec![("uusdc", 2)]);
    let r = c.execute(7 * DAY, &i, ExecuteMsg::Unbond { index: 0 }, market(5, 947)).unwrap();
    assert_eq!(r.messages[0].amount, 947);
    assert_eq!(r.messages[1].amount, 2);
}
