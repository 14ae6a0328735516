use vstd::prelude::*;
use vstd::std_specs::convert::FromSpecImpl;
use crate::db::user::User;

verus! {

/// A user, as the API shows it.
#[derive(Debug)]
pub struct UserDto {
    pub id: i32,
    pub name: String,
    pub email: String,
    pub phone_number: Option<String>,
}

impl UserDto {
    /// The user `value`, as the API shows it.
    pub open spec fn of(value: &User) -> UserDto {
        UserDto {
            id: value.id,
            name: value.name,
            email: value.email,
            phone_number: value.phone_number,
        }
    }
}

impl From<&User> for UserDto {
    fn from(value: &User) -> (dto: Self) {
        UserDto {
            id: value.id,
            name: value.name.clone(),
            email: value.email.clone(),
            phone_number: match &value.phone_number {
                Some(phone_number) => Some(phone_number.clone()),
                None => None,
            },
        }
    }
}

impl FromSpecImpl<&User> for UserDto {
    open spec fn obeys_from_spec() -> bool {
        true
    }

    open spec fn from_spec(value: &User) -> Self {
        UserDto::of(value)
    }
}

/// The users of a listing, each as the API shows it, in the same order.
pub fn user_dtos(users: &Vec<User>) -> (dtos: Vec<UserDto>)
    ensures
        dtos@.len() == users@.len(),
        forall|i: int| 0 <= i < dtos@.len() ==> dtos@[i] == UserDto::of(&users@[i]),
{
    let mut dtos: Vec<UserDto> = Vec::new();
    let mut i: usize = 0;
    while i < users.len()
        invariant
            i <= users.len(),
            dtos@.len() == i,
            forall|k: int| 0 <= k < i ==> dtos@[k] == UserDto::of(&users@[k]),
        decreases users.len() - i,
    {
        dtos.push(UserDto::from(&users[i]));
        i += 1;
    }
    dtos
}

} // verus!
