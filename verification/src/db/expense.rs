use std::collections::HashMap;
use vstd::prelude::*;
use vstd::std_specs::hash::group_hash_axioms;
use crate::db::expense_category::ExpenseCategory;
use crate::db::user::User;

verus! {

/// An expense. `created_at` is in microseconds since the epoch.
#[derive(Debug)]
pub struct Expense {
    pub id: i32,
    pub name: String,
    pub currency: String,
    pub created_at: i64,
    pub is_payment: bool,
}

/// An expense to store, with the shares of it. Where `created_at` is `None`,
/// the expense is dated when it is stored.
#[derive(Debug)]
pub struct InsertExpense {
    pub name: String,
    pub created_at: Option<i64>,
    pub paid_by: i32,
    pub currency: String,
    pub category_id: Option<i32>,
    pub shares: Vec<InsertAccountShare>,
    pub is_payment: bool,
}

/// The part of one expense that falls to one user.
#[derive(Debug, Clone, Copy, PartialEq, Eq, Structural)]
pub struct AccountShare {
    pub expense_id: i32,
    pub user_id: i32,
    pub share: i32,
}

/// A share to store with a new expense.
#[derive(Debug, Clone, Copy, PartialEq, Eq, Structural)]
pub struct InsertAccountShare {
    pub user_id: i32,
    pub share: i32,
}

/// An expense with who paid it and what it is filed under.
#[derive(Debug)]
pub struct ExpenseWithPayerAndCategory {
    pub expense: Expense,
    pub paid_by: User,
    pub category: Option<ExpenseCategory>,
}

/// When an expense to store is dated: when it says, else `now`.
pub fn created_at_or(created_at: Option<i64>, now: i64) -> (at: i64)
    ensures
        at == match created_at {
            Some(at) => at,
            None => now,
        },
{
    match created_at {
        Some(at) => at,
        None => now,
    }
}

/// The shares to store for expense `expense_id`, in the order given.
pub fn shares_to_insert(expense_id: i32, shares: &Vec<InsertAccountShare>) -> (rows: Vec<AccountShare>)
    ensures
        rows@.len() == shares@.len(),
        forall|i: int|
            0 <= i < rows@.len() ==> rows@[i] == (AccountShare {
                expense_id,
                user_id: shares@[i].user_id,
                share: shares@[i].share,
            }),
{
    let mut rows: Vec<AccountShare> = Vec::new();
    let mut i: usize = 0;
    while i < shares.len()
        invariant
            i <= shares.len(),
            rows@.len() == i,
            forall|k: int|
                0 <= k < i ==> rows@[k] == (AccountShare {
                    expense_id,
                    user_id: shares@[k].user_id,
                    share: shares@[k].share,
                }),
        decreases shares.len() - i,
    {
        rows.push(AccountShare { expense_id, user_id: shares[i].user_id, share: shares[i].share });
        i += 1;
    }
    rows
}

/// The ids of a listing of expenses, in order.
pub open spec fn expense_ids(expenses: Seq<ExpenseWithPayerAndCategory>) -> Seq<i32> {
    expenses.map_values(|row: ExpenseWithPayerAndCategory| row.expense.id)
}

/// The place in a listing that the shares of expense `id` go to: the last
/// place where that id stands, if it stands anywhere.
pub open spec fn place_of(ids: Seq<i32>, id: i32) -> Option<int>
    decreases ids.len(),
{
    if ids.len() == 0 {
        None
    } else if ids.last() == id {
        Some(ids.len() - 1)
    } else {
        place_of(ids.drop_last(), id)
    }
}

/// Those of `shares`, in order, that go to place `place` of a listing.
pub open spec fn shares_at(shares: Seq<AccountShare>, ids: Seq<i32>, place: int) -> Seq<
    AccountShare,
>
    decreases shares.len(),
{
    if shares.len() == 0 {
        Seq::empty()
    } else {
        let earlier = shares_at(shares.drop_last(), ids, place);
        if place_of(ids, shares.last().expense_id) == Some(place) {
            earlier.push(shares.last())
        } else {
            earlier
        }
    }
}

/// Every share belongs to an expense of the listing.
pub open spec fn shares_belong(shares: Seq<AccountShare>, ids: Seq<i32>) -> bool {
    forall|k: int| 0 <= k < shares.len() ==> place_of(ids, (#[trigger] shares[k]).expense_id) is Some
}

/// Puts each share to its expense: the listing as it was, each expense with
/// its shares in the order they came.
pub fn group_shares(expenses: Vec<ExpenseWithPayerAndCategory>, shares: Vec<AccountShare>) -> (grouped:
    Vec<(ExpenseWithPayerAndCategory, Vec<AccountShare>)>)
    requires
        shares_belong(shares@, expense_ids(expenses@)),
    ensures
        grouped@.len() == expenses@.len(),
        forall|i: int|
            0 <= i < grouped@.len() ==> {
                &&& (#[trigger] grouped@[i]).0 == expenses@[i]
                &&& grouped@[i].1@ == shares_at(shares@, expense_ids(expenses@), i)
            },
{
    broadcast use group_hash_axioms;

    let ghost ids = expense_ids(expenses@);
    let ghost listing = expenses@;
    let mut places: HashMap<i32, usize> = HashMap::new();
    let mut grouped: Vec<(ExpenseWithPayerAndCategory, Vec<AccountShare>)> = Vec::new();
    for row in it: expenses
        invariant
            it.seq() == listing,
            ids == expense_ids(listing),
            grouped@.len() == it.index(),
            forall|i: int|
                0 <= i < grouped@.len() ==> {
                    &&& (#[trigger] grouped@[i]).0 == listing[i]
                    &&& grouped@[i].1@ == Seq::<AccountShare>::empty()
                },
            forall|id: i32|
                places@.contains_key(id) <==> place_of(ids.take(it.index() as int), id) is Some,
            forall|id: i32|
                places@.contains_key(id) ==> Some(places@[id] as int) == place_of(
                    ids.take(it.index() as int),
                    id,
                ),
    {
        let ghost at = it.index() as int;
        assert(ids.take(at + 1).drop_last() =~= ids.take(at));
        assert(ids.take(at + 1).last() == row.expense.id);
        places.insert(row.expense.id, grouped.len());
        grouped.push((row, Vec::new()));
    }
    assert(ids.take(listing.len() as int) =~= ids);
    let mut k: usize = 0;
    while k < shares.len()
        invariant
            k <= shares.len(),
            ids == expense_ids(listing),
            shares_belong(shares@, ids),
            grouped@.len() == listing.len(),
            forall|id: i32| places@.contains_key(id) <==> place_of(ids, id) is Some,
            forall|id: i32| places@.contains_key(id) ==> Some(places@[id] as int) == place_of(ids, id),
            forall|i: int|
                0 <= i < grouped@.len() ==> {
                    &&& (#[trigger] grouped@[i]).0 == listing[i]
                    &&& grouped@[i].1@ == shares_at(shares@.take(k as int), ids, i)
                },
        decreases shares.len() - k,
    {
        let share = shares[k];
        assert(place_of(ids, shares@[k as int].expense_id) is Some);
        let place = match places.get(&share.expense_id) {
            Some(place) => *place,
            None => 0,
        };
        assert(shares@.take(k + 1).drop_last() =~= shares@.take(k as int));
        assert(shares@.take(k + 1).last() == share);
        assert(0 <= place < ids.len()) by {
            lemma_place_is_in_range(ids, share.expense_id);
        }
        grouped[place].1.push(share);
        k += 1;
    }
    assert(shares@.take(shares@.len() as int) =~= shares@);
    grouped
}

/// A place of a listing lies within it.
pub proof fn lemma_place_is_in_range(ids: Seq<i32>, id: i32)
    ensures
        place_of(ids, id) matches Some(place) ==> 0 <= place < ids.len() && ids[place] == id,
    decreases ids.len(),
{
    if ids.len() > 0 && ids.last() != id {
        lemma_place_is_in_range(ids.drop_last(), id);
    }
}

} // verus!
