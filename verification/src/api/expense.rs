use vstd::prelude::*;
use vstd::std_specs::convert::FromSpecImpl;
use crate::api::expense_category::ExpenseCategoryDto;
use crate::api::user::UserDto;
use crate::db::expense::{
    AccountShare, Expense, ExpenseWithPayerAndCategory, InsertAccountShare, InsertExpense,
};

verus! {

/// An expense, as the API shows it. `created_at` is in microseconds since
/// the epoch.
#[derive(Debug)]
pub struct ExpenseDto {
    pub id: i32,
    pub name: String,
    pub currency: String,
    pub created_at: i64,
    pub is_payment: bool,
}

impl ExpenseDto {
    /// The expense `value`, as the API shows it.
    pub open spec fn of(value: &Expense) -> ExpenseDto {
        ExpenseDto {
            id: value.id,
            name: value.name,
            currency: value.currency,
            created_at: value.created_at,
            is_payment: value.is_payment,
        }
    }
}

impl From<&Expense> for ExpenseDto {
    fn from(value: &Expense) -> (dto: Self) {
        ExpenseDto {
            id: value.id,
            name: value.name.clone(),
            currency: value.currency.clone(),
            created_at: value.created_at,
            is_payment: value.is_payment,
        }
    }
}

impl FromSpecImpl<&Expense> for ExpenseDto {
    open spec fn obeys_from_spec() -> bool {
        true
    }

    open spec fn from_spec(value: &Expense) -> Self {
        ExpenseDto::of(value)
    }
}

/// A share of an expense, as the API shows it.
#[derive(Debug, Clone, Copy, PartialEq, Eq, Structural)]
pub struct AccountShareDto {
    pub expense_id: i32,
    pub user_id: i32,
    pub share: i32,
}

impl AccountShareDto {
    /// The share `value`, as the API shows it.
    pub open spec fn of(value: &AccountShare) -> AccountShareDto {
        AccountShareDto {
            expense_id: value.expense_id,
            user_id: value.user_id,
            share: value.share,
        }
    }
}

impl From<&AccountShare> for AccountShareDto {
    fn from(value: &AccountShare) -> (dto: Self) {
        AccountShareDto {
            expense_id: value.expense_id,
            user_id: value.user_id,
            share: value.share,
        }
    }
}

impl FromSpecImpl<&AccountShare> for AccountShareDto {
    open spec fn obeys_from_spec() -> bool {
        true
    }

    open spec fn from_spec(value: &AccountShare) -> Self {
        AccountShareDto::of(value)
    }
}

/// A share of an expense, as the API takes it.
#[derive(Debug, Clone, Copy, PartialEq, Eq, Structural)]
pub struct UpsertAccountShareDto {
    pub user_id: i32,
    pub share: i32,
}

/// An expense, as the API takes it: a new one where `id` is `None`.
#[derive(Debug)]
pub struct UpsertExpenseDto {
    pub id: Option<i32>,
    pub name: String,
    pub created_at: Option<i64>,
    pub paid_by: i32,
    pub currency: String,
    pub category_id: Option<i32>,
    pub shares: Vec<UpsertAccountShareDto>,
    pub is_payment: bool,
}

/// An expense with all that belongs to it, as the API shows it.
#[derive(Debug)]
pub struct ExpenseWithEverythingDto {
    pub expense: ExpenseDto,
    pub paid_by: UserDto,
    pub category: Option<ExpenseCategoryDto>,
    pub shares: Vec<AccountShareDto>,
}

/// The shares of one expense, each as the API shows it, in the same order.
pub fn account_share_dtos(shares: &Vec<AccountShare>) -> (dtos: Vec<AccountShareDto>)
    ensures
        dtos@.len() == shares@.len(),
        forall|i: int| 0 <= i < dtos@.len() ==> dtos@[i] == AccountShareDto::of(&shares@[i]),
{
    let mut dtos: Vec<AccountShareDto> = Vec::new();
    let mut i: usize = 0;
    while i < shares.len()
        invariant
            i <= shares.len(),
            dtos@.len() == i,
            forall|k: int| 0 <= k < i ==> dtos@[k] == AccountShareDto::of(&shares@[k]),
        decreases shares.len() - i,
    {
        dtos.push(AccountShareDto::from(&shares[i]));
        i += 1;
    }
    dtos
}

impl ExpenseWithEverythingDto {
    /// `self` shows the expense `expense` with the shares `shares`.
    pub open spec fn shows(&self, expense: &ExpenseWithPayerAndCategory, shares: Seq<AccountShare>) -> bool {
        &&& self.expense == ExpenseDto::of(&expense.expense)
        &&& self.paid_by == UserDto::of(&expense.paid_by)
        &&& self.category == match expense.category {
            Some(category) => Some(ExpenseCategoryDto::of(&category)),
            None => None,
        }
        &&& self.shares@.len() == shares.len()
        &&& forall|i: int|
            0 <= i < shares.len() ==> self.shares@[i] == AccountShareDto::of(&shares[i])
    }

    /// An expense and its shares, as the API shows them.
    pub fn of(expense: &ExpenseWithPayerAndCategory, shares: &Vec<AccountShare>) -> (dto:
        ExpenseWithEverythingDto)
        ensures
            dto.shows(expense, shares@),
    {
        ExpenseWithEverythingDto {
            expense: ExpenseDto::from(&expense.expense),
            paid_by: UserDto::from(&expense.paid_by),
            category: match &expense.category {
                Some(category) => Some(ExpenseCategoryDto::from(category)),
                None => None,
            },
            shares: account_share_dtos(shares),
        }
    }
}

/// A listing of expenses with their shares, each as the API shows it, in the
/// same order.
pub fn get_expenses(expenses: &Vec<(ExpenseWithPayerAndCategory, Vec<AccountShare>)>) -> (dtos: Vec<
    ExpenseWithEverythingDto,
>)
    ensures
        dtos@.len() == expenses@.len(),
        forall|i: int|
            0 <= i < dtos@.len() ==> (#[trigger] dtos@[i]).shows(
                &expenses@[i].0,
                expenses@[i].1@,
            ),
{
    let mut dtos: Vec<ExpenseWithEverythingDto> = Vec::new();
    let mut i: usize = 0;
    while i < expenses.len()
        invariant
            i <= expenses.len(),
            dtos@.len() == i,
            forall|k: int|
                0 <= k < i ==> (#[trigger] dtos@[k]).shows(&expenses@[k].0, expenses@[k].1@),
        decreases expenses.len() - i,
    {
        dtos.push(ExpenseWithEverythingDto::of(&expenses[i].0, &expenses[i].1));
        i += 1;
    }
    dtos
}

/// What is to be done with an expense that the API took.
#[derive(Debug)]
pub enum ExpenseWrite {
    /// Store it as a new expense.
    Insert { expense: InsertExpense },
    /// Replace the expense with this id by it.
    Update { expense_id: i32, replacement: InsertExpense },
}

/// Decides what to do with an expense that the API took: one with an id
/// replaces the expense of that id, one without is new. Either way the row
/// carries the fields of the request, and its shares in the order given.
pub fn upsert_expense(expense: UpsertExpenseDto) -> (write: ExpenseWrite)
    ensures
        match write {
            ExpenseWrite::Insert { expense: row } => expense.id is None && row_carries(
                &row,
                &expense,
            ),
            ExpenseWrite::Update { expense_id, replacement } => expense.id == Some(expense_id)
                && row_carries(&replacement, &expense),
        },
{
    let UpsertExpenseDto {
        id,
        name,
        created_at,
        paid_by,
        currency,
        category_id,
        shares,
        is_payment,
    } = expense;
    let mut rows: Vec<InsertAccountShare> = Vec::new();
    let mut i: usize = 0;
    while i < shares.len()
        invariant
            i <= shares.len(),
            rows@.len() == i,
            forall|k: int|
                0 <= k < i ==> rows@[k] == (InsertAccountShare {
                    user_id: shares@[k].user_id,
                    share: shares@[k].share,
                }),
        decreases shares.len() - i,
    {
        rows.push(InsertAccountShare { user_id: shares[i].user_id, share: shares[i].share });
        i += 1;
    }
    let row = InsertExpense {
        name,
        created_at,
        paid_by,
        currency,
        category_id,
        shares: rows,
        is_payment,
    };
    match id {
        Some(expense_id) => ExpenseWrite::Update { expense_id, replacement: row },
        None => ExpenseWrite::Insert { expense: row },
    }
}

/// The row `row` carries what the request `request` asked for.
pub open spec fn row_carries(row: &InsertExpense, request: &UpsertExpenseDto) -> bool {
    &&& row.name == request.name
    &&& row.created_at == request.created_at
    &&& row.paid_by == request.paid_by
    &&& row.currency == request.currency
    &&& row.category_id == request.category_id
    &&& row.is_payment == request.is_payment
    &&& row.shares@.len() == request.shares@.len()
    &&& forall|i: int|
        0 <= i < row.shares@.len() ==> row.shares@[i] == (InsertAccountShare {
            user_id: request.shares@[i].user_id,
            share: request.shares@[i].share,
        })
}

} // verus!
