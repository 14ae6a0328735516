use vstd::prelude::*;

verus! {

/// A category that expenses are filed under.
#[derive(Debug)]
pub struct ExpenseCategory {
    pub id: i32,
    pub name: String,
}

} // verus!
