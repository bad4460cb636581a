//! The funds attached to a call.
use vstd::prelude::*;
use crate::state::{Coin, ContractError};

verus! {

impl View for Coin {
    type V = (Seq<char>, u128);

    open spec fn view(&self) -> (Seq<char>, u128) {
        (self.denom@, self.amount)
    }
}

pub open spec fn coins_view(funds: Seq<Coin>) -> Seq<(Seq<char>, u128)> {
    funds.map_values(|c: Coin| c@)
}

/// Total attached amount of `denom`; coins of other denominations count nothing.
pub open spec fn amount_of(funds: Seq<(Seq<char>, u128)>, denom: Seq<char>) -> int
    decreases funds.len(),
{
    if funds.len() == 0 {
        0
    } else {
        amount_of(funds.drop_last(), denom) + if funds.last().0 == denom {
            funds.last().1 as int
        } else {
            0
        }
    }
}

/// The attached amount of `denom`, or `Overflow` where it exceeds `u128`.
pub open spec fn amount_result(funds: Seq<(Seq<char>, u128)>, denom: Seq<char>) -> Result<u128, ContractError> {
    if amount_of(funds, denom) > u128::MAX {
        Err(ContractError::Overflow)
    } else {
        Ok(amount_of(funds, denom) as u128)
    }
}

proof fn lemma_amount_of_monotone(funds: Seq<(Seq<char>, u128)>, denom: Seq<char>, i: int)
    requires
        0 <= i <= funds.len(),
    ensures
        0 <= amount_of(funds.take(i), denom) <= amount_of(funds, denom),
    decreases funds.len(),
{
    if i < funds.len() {
        lemma_amount_of_monotone(funds.drop_last(), denom, i);
        assert(funds.drop_last().take(i) =~= funds.take(i));
    } else {
        assert(funds.take(i) =~= funds);
        lemma_amount_of_nonnegative(funds, denom);
    }
}

proof fn lemma_amount_of_nonnegative(funds: Seq<(Seq<char>, u128)>, denom: Seq<char>)
    ensures
        0 <= amount_of(funds, denom),
    decreases funds.len(),
{
    if funds.len() > 0 {
        lemma_amount_of_nonnegative(funds.drop_last(), denom);
    }
}

/// Sums the attached coins of `denom`.
pub fn amount_of_denom(funds: &Vec<Coin>, denom: &String) -> (r: Result<u128, ContractError>)
    ensures
        r == amount_result(coins_view(funds@), denom@),
{
    let ghost all = coins_view(funds@);
    let mut total: u128 = 0;
    let mut i: usize = 0;
    while i < funds.len()
        invariant
            i <= funds@.len(),
            all == coins_view(funds@),
            total == amount_of(all.take(i as int), denom@),
        decreases funds@.len() - i,
    {
        assert(all.take(i as int + 1).drop_last() =~= all.take(i as int));
        if funds[i].denom == *denom {
            match total.checked_add(funds[i].amount) {
                None => {
                    proof {
                        lemma_amount_of_monotone(all, denom@, i as int + 1);
                    }
                    return Err(ContractError::Overflow);
                },
                Some(t) => {
                    total = t;
                },
            }
        }
        i = i + 1;
    }
    assert(all.take(i as int) =~= all);
    Ok(total)
}

} // verus!
