use jostrid::api::balance::{balance_dtos, BalanceDto};
use jostrid::api::expense::{
    account_share_dtos, get_expenses, upsert_expense, AccountShareDto, ExpenseDto,
    ExpenseWithEverythingDto, ExpenseWrite, UpsertAccountShareDto, UpsertExpenseDto,
};
use jostrid::api::expense_category::{expense_category_dtos, ExpenseCategoryDto};
use jostrid::api::image::{image_dtos, ImageDto, ImportImageDto};
use jostrid::api::me::{get_me, patch_me, MeDto, PatchMeDto};
use jostrid::api::user::{user_dtos, UserDto};
use jostrid::db::balance::Balance;
use jostrid::db::expense::{
    created_at_or, group_shares, shares_to_insert, AccountShare, Expense,
    ExpenseWithPayerAndCategory, InsertAccountShare,
};
use jostrid::db::expense_category::ExpenseCategory;
use jostrid::db::image::Image;
use jostrid::db::user::User;
use jostrid::text::clone_strings;

fn user(id: i32, name: &str) -> User {
    User {
        id,
        name: name.to_string(),
        email: format!("{}@example.com", name.to_lowercase()),
        phone_number: if id % 2 == 0 { Some(format!("555-{}", id)) } else { None },
    }
}

fn expense(id: i32, name: &str, category: Option<(i32, &str)>) -> ExpenseWithPayerAndCategory {
    ExpenseWithPayerAndCategory {
        expense: Expense {
            id,
            name: name.to_string(),
            currency: "SEK".to_string(),
            created_at: 1_700_000_000_000_000 + id as i64,
            is_payment: id % 2 == 0,
        },
        paid_by: user(id * 10, "Ada"),
        category: category.map(|(id, name)| ExpenseCategory { id, name: name.to_string() }),
    }
}

fn share(expense_id: i32, user_id: i32, share: i32) -> AccountShare {
    AccountShare { expense_id, user_id, share }
}

#[test]
fn balance_as_shown() {
    let balance = Balance { balance: -1250, user_id: 3, currency: "SEK".to_string() };
    let dto = BalanceDto::from(&balance);
    assert_eq!(dto.user_id, 3);
    assert_eq!(dto.balance, -1250);
    assert_eq!(dto.currency, "SEK");
    let dtos = balance_dtos(&vec![
        balance,
        Balance { balance: i64::MAX, user_id: i32::MIN, currency: String::new() },
    ]);
    assert_eq!(dtos.len(), 2);
    assert_eq!(dtos[0].balance, -1250);
    assert_eq!(dtos[1].balance, i64::MAX);
    assert_eq!(dtos[1].user_id, i32::MIN);
    assert_eq!(dtos[1].currency, "");
    assert!(balance_dtos(&Vec::new()).is_empty());
}

#[test]
fn category_as_shown() {
    let food = ExpenseCategory { id: 4, name: "Food".to_string() };
    let by_ref = ExpenseCategoryDto::from(&food);
    assert_eq!((by_ref.id, by_ref.name.as_str()), (4, "Food"));
    let by_value = ExpenseCategoryDto::from(food);
    assert_eq!((by_value.id, by_value.name.as_str()), (4, "Food"));
    let dtos = expense_category_dtos(&vec![
        ExpenseCategory { id: 1, name: "Rent".to_string() },
        ExpenseCategory { id: 2, name: "Fun".to_string() },
    ]);
    assert_eq!(dtos.len(), 2);
    assert_eq!((dtos[0].id, dtos[0].name.as_str()), (1, "Rent"));
    assert_eq!((dtos[1].id, dtos[1].name.as_str()), (2, "Fun"));
}

#[test]
fn image_as_shown() {
    let image = Image {
        id: 9,
        url: "https://img.example/9.png".to_string(),
        tags: vec!["cat".to_string(), "grumpy".to_string()],
    };
    let by_ref = ImageDto::from(&image);
    assert_eq!(by_ref.id, 9);
    assert_eq!(by_ref.url, "https://img.example/9.png");
    assert_eq!(by_ref.tags, vec!["cat".to_string(), "grumpy".to_string()]);
    let of = ImageDto::of(&image);
    assert_eq!(of.tags, image.tags);
    let dtos = image_dtos(&vec![Image { id: 1, url: "u".to_string(), tags: Vec::new() }]);
    assert_eq!(dtos.len(), 1);
    assert!(dtos[0].tags.is_empty());
    let by_value = ImageDto::from(image);
    assert_eq!(by_value.id, 9);
    assert_eq!(by_value.tags.len(), 2);
    assert_eq!(clone_strings(&vec!["a".to_string(), "".to_string()]), vec!["a".to_string(), "".to_string()]);
}

#[test]
fn image_as_taken() {
    let row = ImportImageDto { url: "u".to_string(), tags: vec!["t".to_string()] }.into_insert();
    assert_eq!(row.url, "u");
    assert_eq!(row.tags, vec!["t".to_string()]);
}

#[test]
fn user_as_shown() {
    let dto = UserDto::from(&user(2, "Bob"));
    assert_eq!(dto.id, 2);
    assert_eq!(dto.name, "Bob");
    assert_eq!(dto.email, "bob@example.com");
    assert_eq!(dto.phone_number.as_deref(), Some("555-2"));
    let dtos = user_dtos(&vec![user(1, "Ada"), user(2, "Bob")]);
    assert_eq!(dtos.len(), 2);
    assert_eq!(dtos[0].phone_number, None);
    assert_eq!(dtos[1].name, "Bob");
}

#[test]
fn me_as_shown_and_patched() {
    let dto: MeDto = get_me(user(2, "Bob"));
    assert_eq!(dto.id, 2);
    assert_eq!(dto.name, "Bob");
    assert_eq!(dto.email, "bob@example.com");
    assert_eq!(dto.phone_number.as_deref(), Some("555-2"));
    let patch = patch_me(&user(2, "Bob"), PatchMeDto { phone_number: Some("777".to_string()) });
    assert_eq!(patch.id, 2);
    assert_eq!(patch.email, None);
    assert_eq!(patch.phone_number.as_deref(), Some("777"));
    let patch = patch_me(&user(5, "Eve"), PatchMeDto { phone_number: None });
    assert_eq!(patch.id, 5);
    assert_eq!(patch.email, None);
    assert_eq!(patch.phone_number, None);
}

#[test]
fn share_as_shown() {
    let dto = AccountShareDto::from(&share(1, 2, -300));
    assert_eq!(dto, AccountShareDto { expense_id: 1, user_id: 2, share: -300 });
    let dtos = account_share_dtos(&vec![share(1, 2, 3), share(4, 5, 6)]);
    assert_eq!(
        dtos,
        vec![
            AccountShareDto { expense_id: 1, user_id: 2, share: 3 },
            AccountShareDto { expense_id: 4, user_id: 5, share: 6 }
        ]
    );
}

#[test]
fn expense_as_shown() {
    let row = expense(3, "Dinner", Some((4, "Food")));
    let dto = ExpenseDto::from(&row.expense);
    assert_eq!(dto.id, 3);
    assert_eq!(dto.name, "Dinner");
    assert_eq!(dto.currency, "SEK");
    assert_eq!(dto.created_at, 1_700_000_000_000_003);
    assert!(!dto.is_payment);
    let all = ExpenseWithEverythingDto::of(&row, &vec![share(3, 1, 100), share(3, 2, -100)]);
    assert_eq!(all.expense.id, 3);
    assert_eq!(all.paid_by.id, 30);
    assert_eq!(all.category.as_ref().map(|c| (c.id, c.name.as_str())), Some((4, "Food")));
    assert_eq!(all.shares.len(), 2);
    assert_eq!(all.shares[1], AccountShareDto { expense_id: 3, user_id: 2, share: -100 });
    let plain = ExpenseWithEverythingDto::of(&expense(1, "Taxi", None), &Vec::new());
    assert!(plain.category.is_none());
    assert!(plain.shares.is_empty());
}

#[test]
fn shares_are_put_to_their_expenses() {
    let grouped = group_shares(
        vec![expense(5, "Dinner", None), expense(2, "Taxi", None), expense(9, "Rent", None)],
        vec![share(2, 1, 10), share(5, 1, 20), share(2, 2, 30), share(5, 3, 40), share(2, 3, 50)],
    );
    assert_eq!(grouped.len(), 3);
    assert_eq!(grouped[0].0.expense.id, 5);
    assert_eq!(grouped[0].1, vec![share(5, 1, 20), share(5, 3, 40)]);
    assert_eq!(grouped[1].0.expense.id, 2);
    assert_eq!(grouped[1].1, vec![share(2, 1, 10), share(2, 2, 30), share(2, 3, 50)]);
    assert_eq!(grouped[2].0.expense.name, "Rent");
    assert!(grouped[2].1.is_empty());
    let dtos = get_expenses(&grouped);
    assert_eq!(dtos.len(), 3);
    assert_eq!(dtos[1].shares.len(), 3);
    assert_eq!(dtos[1].shares[2], AccountShareDto { expense_id: 2, user_id: 3, share: 50 });
}

#[test]
fn grouping_nothing() {
    assert!(group_shares(Vec::new(), Vec::new()).is_empty());
    let grouped = group_shares(vec![expense(1, "Taxi", None)], Vec::new());
    assert_eq!(grouped.len(), 1);
    assert!(grouped[0].1.is_empty());
}

#[test]
fn shares_of_a_repeated_id_go_to_its_last_place() {
    let grouped = group_shares(
        vec![expense(1, "first", None), expense(1, "second", None)],
        vec![share(1, 1, 10), share(1, 2, 20)],
    );
    assert!(grouped[0].1.is_empty());
    assert_eq!(grouped[1].1, vec![share(1, 1, 10), share(1, 2, 20)]);
}

#[test]
fn shares_to_store() {
    let rows = shares_to_insert(
        7,
        &vec![InsertAccountShare { user_id: 1, share: 60 }, InsertAccountShare { user_id: 2, share: -60 }],
    );
    assert_eq!(rows, vec![share(7, 1, 60), share(7, 2, -60)]);
    assert!(shares_to_insert(7, &Vec::new()).is_empty());
    assert_eq!(created_at_or(Some(5), 9), 5);
    assert_eq!(created_at_or(None, 9), 9);
}

#[test]
fn expense_as_taken() {
    let request = |id: Option<i32>| UpsertExpenseDto {
        id,
        name: "Dinner".to_string(),
        created_at: Some(12),
        paid_by: 3,
        currency: "EUR".to_string(),
        category_id: Some(4),
        shares: vec![
            UpsertAccountShareDto { user_id: 1, share: 50 },
            UpsertAccountShareDto { user_id: 2, share: -50 },
        ],
        is_payment: true,
    };
    match upsert_expense(request(None)) {
        ExpenseWrite::Insert { expense } => {
            assert_eq!(expense.name, "Dinner");
            assert_eq!(expense.created_at, Some(12));
            assert_eq!(expense.paid_by, 3);
            assert_eq!(expense.currency, "EUR");
            assert_eq!(expense.category_id, Some(4));
            assert!(expense.is_payment);
            assert_eq!(
                expense.shares,
                vec![
                    InsertAccountShare { user_id: 1, share: 50 },
                    InsertAccountShare { user_id: 2, share: -50 }
                ]
            );
        }
        other => panic!("not new: {:?}", other),
    }
    match upsert_expense(request(Some(8))) {
        ExpenseWrite::Update { expense_id, replacement } => {
            assert_eq!(expense_id, 8);
            assert_eq!(replacement.name, "Dinner");
            assert_eq!(replacement.shares.len(), 2);
        }
        other => panic!("not a replacement: {:?}", other),
    }
}
