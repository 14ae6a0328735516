use vstd::prelude::*;

verus! {

/// What one user owes or is owed in one currency: the sum of the user's
/// shares of all expenses in that currency.
#[derive(Debug)]
pub struct Balance {
    pub balance: i64,
    pub user_id: i32,
    pub currency: String,
}

} // verus!
