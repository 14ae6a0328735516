use vstd::prelude::*;
use vstd::std_specs::convert::FromSpecImpl;
use crate::db::expense_category::ExpenseCategory;

verus! {

/// A category, as the API shows it.
#[derive(Debug)]
pub struct ExpenseCategoryDto {
    pub id: i32,
    pub name: String,
}

impl ExpenseCategoryDto {
    /// The category `value`, as the API shows it.
    pub open spec fn of(value: &ExpenseCategory) -> ExpenseCategoryDto {
        ExpenseCategoryDto { id: value.id, name: value.name }
    }
}

impl From<&ExpenseCategory> for ExpenseCategoryDto {
    fn from(value: &ExpenseCategory) -> (dto: Self) {
        ExpenseCategoryDto { id: value.id, name: value.name.clone() }
    }
}

impl FromSpecImpl<&ExpenseCategory> for ExpenseCategoryDto {
    open spec fn obeys_from_spec() -> bool {
        true
    }

    open spec fn from_spec(value: &ExpenseCategory) -> Self {
        ExpenseCategoryDto::of(value)
    }
}

impl From<ExpenseCategory> for ExpenseCategoryDto {
    fn from(value: ExpenseCategory) -> (dto: Self) {
        ExpenseCategoryDto { id: value.id, name: value.name }
    }
}

impl FromSpecImpl<ExpenseCategory> for ExpenseCategoryDto {
    open spec fn obeys_from_spec() -> bool {
        true
    }

    open spec fn from_spec(value: ExpenseCategory) -> Self {
        ExpenseCategoryDto::of(&value)
    }
}

/// The categories of a listing, each as the API shows it, in the same order.
pub fn expense_category_dtos(categories: &Vec<ExpenseCategory>) -> (dtos: Vec<ExpenseCategoryDto>)
    ensures
        dtos@.len() == categories@.len(),
        forall|i: int|
            0 <= i < dtos@.len() ==> dtos@[i] == ExpenseCategoryDto::of(&categories@[i]),
{
    let mut dtos: Vec<ExpenseCategoryDto> = Vec::new();
    let mut i: usize = 0;
    while i < categories.len()
        invariant
            i <= categories.len(),
            dtos@.len() == i,
            forall|k: int| 0 <= k < i ==> dtos@[k] == ExpenseCategoryDto::of(&categories@[k]),
        decreases categories.len() - i,
    {
        dtos.push(ExpenseCategoryDto::from(&categories[i]));
        i += 1;
    }
    dtos
}

} // verus!
