use vstd::prelude::*;

use crate::error::ContractError;

verus! {

/// The one denomination that a move may carry.
pub const DENOM: &'static str = "ioc";

/// An amount of some token sent along with a request.
#[derive(Clone, Debug, PartialEq, Eq)]
pub struct Coin {
    pub denom: String,
    pub amount: u128,
}

/// Every coin is of the game's token.
pub open spec fn all_in_denom(funds: Seq<Coin>) -> bool {
    forall|i: int| 0 <= i < funds.len() ==> (#[trigger] funds[i]).denom@ == DENOM@
}

/// The sum of the amounts.
pub open spec fn total_amount(funds: Seq<Coin>) -> nat
    decreases funds.len(),
{
    if funds.len() == 0 {
        0
    } else {
        total_amount(funds.drop_last()) + funds.last().amount as nat
    }
}

/// Why the funds of a move are refused, in this order; `None` when accepted.
pub open spec fn funds_error(funds: Seq<Coin>) -> Option<ContractError> {
    if !all_in_denom(funds) {
        Some(ContractError::InvalidDenom)
    } else if total_amount(funds) > u128::MAX {
        Some(ContractError::Overflow)
    } else if total_amount(funds) == 0 {
        Some(ContractError::NoFunds)
    } else {
        None
    }
}

/// The sum over a prefix never exceeds the sum over the whole.
proof fn lemma_prefix_total(funds: Seq<Coin>, n: int)
    requires
        0 <= n <= funds.len(),
    ensures
        total_amount(funds.take(n)) <= total_amount(funds),
    decreases funds.len(),
{
    if n < funds.len() {
        assert(funds.drop_last().take(n) =~= funds.take(n));
        lemma_prefix_total(funds.drop_last(), n);
    } else {
        assert(funds.take(n) =~= funds);
    }
}

/// The amount wagered with a move: the sum of the funds, which must all be of
/// the game's token and must not be nothing.
pub fn collect_funds(funds: &Vec<Coin>) -> (r: Result<u128, ContractError>)
    ensures
        match r {
            Ok(total) => funds_error(funds@) is None && total == total_amount(funds@),
            Err(e) => funds_error(funds@) == Some(e),
        },
{
    let denom = String::from_str(DENOM);
    let mut i: usize = 0;
    while i < funds.len()
        invariant
            i <= funds@.len(),
            denom@ == DENOM@,
            forall|k: int| 0 <= k < i ==> (#[trigger] funds@[k]).denom@ == DENOM@,
        decreases funds@.len() - i,
    {
        if !(funds[i].denom == denom) {
            return Err(ContractError::InvalidDenom);
        }
        i = i + 1;
    }
    assert(all_in_denom(funds@));
    let mut total: u128 = 0;
    let mut i: usize = 0;
    while i < funds.len()
        invariant
            i <= funds@.len(),
            all_in_denom(funds@),
            total == total_amount(funds@.take(i as int)),
        decreases funds@.len() - i,
    {
        assert(funds@.take(i as int + 1).drop_last() =~= funds@.take(i as int));
        match total.checked_add(funds[i].amount) {
            Some(t) => {
                total = t;
            },
            None => {
                proof {
                    lemma_prefix_total(funds@, i as int + 1);
                }
                return Err(ContractError::Overflow);
            },
        }
        i = i + 1;
    }
    assert(funds@.take(funds@.len() as int) =~= funds@);
    if total == 0 {
        return Err(ContractError::NoFunds);
    }
    Ok(total)
}

} // verus!
