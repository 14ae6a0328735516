use vstd::prelude::*;
use vstd::std_specs::convert::FromSpecImpl;
use crate::db::balance::Balance;

verus! {

/// A balance, as the API shows it.
#[derive(Debug)]
pub struct BalanceDto {
    pub user_id: i32,
    pub balance: i64,
    pub currency: String,
}

impl BalanceDto {
    /// The balance `value`, as the API shows it.
    pub open spec fn of(value: &Balance) -> BalanceDto {
        BalanceDto { user_id: value.user_id, balance: value.balance, currency: value.currency }
    }
}

impl From<&Balance> for BalanceDto {
    fn from(value: &Balance) -> (dto: Self) {
        BalanceDto {
            user_id: value.user_id,
            balance: value.balance,
            currency: value.currency.clone(),
        }
    }
}

impl FromSpecImpl<&Balance> for BalanceDto {
    open spec fn obeys_from_spec() -> bool {
        true
    }

    open spec fn from_spec(value: &Balance) -> Self {
        BalanceDto::of(value)
    }
}

/// The balances of a listing, each as the API shows it, in the same order.
pub fn balance_dtos(balances: &Vec<Balance>) -> (dtos: Vec<BalanceDto>)
    ensures
        dtos@.len() == balances@.len(),
        forall|i: int| 0 <= i < dtos@.len() ==> dtos@[i] == BalanceDto::of(&balances@[i]),
{
    let mut dtos: Vec<BalanceDto> = Vec::new();
    let mut i: usize = 0;
    while i < balances.len()
        invariant
            i <= balances.len(),
            dtos@.len() == i,
            forall|k: int| 0 <= k < i ==> dtos@[k] == BalanceDto::of(&balances@[k]),
        decreases balances.len() - i,
    {
        dtos.push(BalanceDto::from(&balances[i]));
        i += 1;
    }
    dtos
}

} // verus!
