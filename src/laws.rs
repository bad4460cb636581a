//! Properties of the engine that relate its operations to one another.
use vstd::prelude::*;
use crate::contract::{
    bond_prepare_spec, bond_spec, execute_spec, lp_bond_spec, page_limit, unbond_prepare_spec, unbond_spec, ContractView,
};
use crate::fees::{net_result, receivable_result, redemption_fee_result};
use crate::funds::amount_result;
use crate::ledger::{entries_after, lemma_pushed, lemma_removed, page, records_of};
use crate::msg::{ExecuteMsg, Market};
use crate::state::{BondingRecord, ContractError};

verus! {

/// The fee split of a deposit creates and destroys nothing: the net part
/// never exceeds the deposit, so the fee `deposit - net` and the net part add
/// up to the deposit exactly, and the whole deposit is what the treasury gets.
pub proof fn lemma_fee_split_conserves(s: ContractView, sender: Seq<char>, funds: Seq<(Seq<char>, u128)>, now: u64, price: u128)
    requires
        s.wf(),
    ensures
        match bond_prepare_spec(s.config, funds) {
            Ok((deposit, net)) => {
                &&& net <= deposit
                &&& (deposit - net) + net == deposit
                &&& net_result(deposit, s.config.tx_fee + s.config.platform_fee) == Ok::<u128, ContractError>(net)
            },
            Err(_) => true,
        },
        match bond_spec(s, sender, funds, now, price) {
            Ok((_, resp)) => {
                &&& bond_prepare_spec(s.config, funds) is Ok
                &&& resp.messages.len() == 1
                &&& resp.messages[0].amount == bond_prepare_spec(s.config, funds)->Ok_0.0
            },
            Err(_) => true,
        },
{
    if let Ok((deposit, net)) = bond_prepare_spec(s.config, funds) {
        let k = 1000 - (s.config.tx_fee + s.config.platform_fee);
        assert(deposit * k <= deposit * 1000) by (nonlinear_arith)
            requires
                0 <= k <= 1000,
                0 <= deposit,
        ;
        assert(deposit * k / 1000 <= deposit * 1000 / 1000) by (nonlinear_arith)
            requires
                deposit * k <= deposit * 1000,
        ;
        assert(deposit * 1000 / 1000 == deposit) by (nonlinear_arith);
    }
}

/// What a redemption pays out is the amount recorded when the entitlement
/// was made: bonding records the grossed-up quote, and redeeming that very
/// entitlement later pays exactly it, whatever the price and the
/// configuration are by then.
pub proof fn lemma_redemption_pays_recorded_amount(
    s: ContractView,
    sender: Seq<char>,
    funds: Seq<(Seq<char>, u128)>,
    now: u64,
    price: u128,
    later: ContractView,
    later_funds: Seq<(Seq<char>, u128)>,
    later_now: u64,
    later_price: u128,
    reserve: u128,
    index: u64,
)
    requires
        s.wf(),
        bond_spec(s, sender, funds, now, price) is Ok,
        index == records_of(s.bonds, sender).len(),
        records_of(later.bonds, sender) == records_of(bond_spec(s, sender, funds, now, price)->Ok_0.0.bonds, sender),
        unbond_spec(later, sender, later_funds, index, later_now, later_price, reserve) is Ok,
    ensures
        receivable_result(price, s.config.discount) is Ok,
        unbond_spec(later, sender, later_funds, index, later_now, later_price, reserve)->Ok_0.1.messages[0].amount
            == receivable_result(price, s.config.discount)->Ok_0,
        reserve >= receivable_result(price, s.config.discount)->Ok_0,
{
    let amount = receivable_result(price, s.config.discount)->Ok_0;
    let timestamp = crate::fees::maturity_result(now, s.config.lock_days)->Ok_0;
    let rec = BondingRecord { amount, timestamp };
    lemma_pushed(s.bonds, sender, rec);
    assert(records_of(later.bonds, sender)[index as int] == rec);
}

/// An entitlement cannot be redeemed before it matures; once it has, a
/// redemption with enough fee attached and enough reserve succeeds.
pub proof fn lemma_unbond_maturity(
    s: ContractView,
    sender: Seq<char>,
    funds: Seq<(Seq<char>, u128)>,
    index: u64,
    now: u64,
    price: u128,
    reserve: u128,
)
    requires
        s.wf(),
        s.config.enabled,
        index < records_of(s.bonds, sender).len(),
    ensures
        records_of(s.bonds, sender)[index as int].timestamp > now ==> unbond_spec(
            s,
            sender,
            funds,
            index,
            now,
            price,
            reserve,
        ) == Err::<(ContractView, crate::msg::ResponseView), ContractError>(ContractError::NotMatured),
        ({
            let rec = records_of(s.bonds, sender)[index as int];
            let paid = amount_result(funds, s.config.usdc_denom);
            let fee = redemption_fee_result(price, s.config.tx_fee + s.config.platform_fee);
            rec.timestamp <= now && paid is Ok && fee is Ok && paid->Ok_0 >= fee->Ok_0 && reserve >= rec.amount
        }) ==> unbond_spec(s, sender, funds, index, now, price, reserve) is Ok,
{
}

/// A redemption takes its entitlement out of the sender's list, so redeeming
/// again at the same index either fails with `IndexOutOfRange` or reaches
/// the entitlement that came after it, never the one already paid.
pub proof fn lemma_unbond_twice(
    s: ContractView,
    sender: Seq<char>,
    funds: Seq<(Seq<char>, u128)>,
    index: u64,
    now: u64,
    price: u128,
    reserve: u128,
    again_now: u64,
)
    requires
        s.wf(),
        unbond_spec(s, sender, funds, index, now, price, reserve) is Ok,
    ensures
        ({
            let next = unbond_spec(s, sender, funds, index, now, price, reserve)->Ok_0.0;
            let before = records_of(s.bonds, sender);
            &&& next.wf()
            &&& records_of(next.bonds, sender) == before.remove(index as int)
            &&& index == before.len() - 1 ==> unbond_prepare_spec(next, sender, index, again_now)
                == Err::<BondingRecord, ContractError>(ContractError::IndexOutOfRange)
            &&& index < before.len() - 1 && unbond_prepare_spec(next, sender, index, again_now) is Ok
                ==> unbond_prepare_spec(next, sender, index, again_now)->Ok_0 == before[index + 1]
        }),
{
    lemma_removed(s.bonds, sender, index as int);
}

/// While the program is switched off, bonding, pool bonding and redeeming
/// fail with `Disabled`, and so does the owner's withdrawal (anyone else is
/// turned away as unauthorized first). The administrative updates still
/// work, so the owner can switch the program back on.
pub proof fn lemma_disabled_blocks_mutations(
    s: ContractView,
    now: u64,
    sender: Seq<char>,
    funds: Seq<(Seq<char>, u128)>,
    msg: ExecuteMsg,
    market: Market,
)
    requires
        s.wf(),
        !s.config.enabled,
    ensures
        (msg is Bond || msg is LpBond || msg is Unbond || (msg is Withdraw && sender == s.config.owner)) ==> execute_spec(
            s,
            now,
            sender,
            funds,
            msg,
            market,
        ) == Err::<(ContractView, crate::msg::ResponseView), ContractError>(ContractError::Disabled),
        (msg is UpdateEnabled && sender == s.config.owner) ==> execute_spec(s, now, sender, funds, msg, market) is Ok,
{
}

/// Only the owner changes the configuration or withdraws: anyone else gets
/// `Unauthorized`.
pub proof fn lemma_owner_only(
    s: ContractView,
    now: u64,
    sender: Seq<char>,
    funds: Seq<(Seq<char>, u128)>,
    msg: ExecuteMsg,
    market: Market,
)
    requires
        s.wf(),
        sender != s.config.owner,
        msg is UpdateOwner || msg is UpdateEnabled || msg is UpdateConfig || msg is Withdraw,
    ensures
        execute_spec(s, now, sender, funds, msg, market) == Err::<(ContractView, crate::msg::ResponseView), ContractError>(
            ContractError::Unauthorized,
        ),
{
}

/// A pool bond credits the depositor it names, never the pool.
pub proof fn lemma_lp_bond_credits_depositor(s: ContractView, sender: Seq<char>, address: Seq<char>, amount: u128, now: u64)
    requires
        s.wf(),
        lp_bond_spec(s, sender, address, amount, now) is Ok,
        sender != address,
    ensures
        ({
            let next = lp_bond_spec(s, sender, address, amount, now)->Ok_0.0;
            &&& records_of(next.bonds, address).len() == records_of(s.bonds, address).len() + 1
            &&& records_of(next.bonds, sender) == records_of(s.bonds, sender)
        }),
{
    let rec = BondingRecord {
        amount: receivable_result(amount, s.config.discount)->Ok_0,
        timestamp: crate::fees::maturity_result(now, s.config.lock_days)->Ok_0,
    };
    lemma_pushed(s.bonds, address, rec);
}

/// A listing holds the page size's worth of entries after its start, or all
/// of them where fewer remain: ten where no limit is asked for, never more
/// than thirty.
pub proof fn lemma_page_size(b: Seq<crate::msg::BondStateView>, start: Option<Seq<char>>, limit: Option<u32>)
    ensures
        page(b, start, page_limit(limit)).len() == if page_limit(limit) < entries_after(b, start).len() {
            page_limit(limit) as int
        } else {
            entries_after(b, start).len() as int
        },
        page_limit(limit) <= 30,
        limit is None ==> page_limit(limit) == 10,
        page(b, start, page_limit(limit)) =~= entries_after(b, start).take(page(b, start, page_limit(limit)).len() as int),
{
}

} // verus!
