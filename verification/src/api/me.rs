use vstd::prelude::*;
use crate::db::user::{PatchUser, PatchUserView, User};

verus! {

/// The signed-in user, as the API shows it.
#[derive(Debug)]
pub struct MeDto {
    pub id: i32,
    pub name: String,
    pub email: String,
    pub phone_number: Option<String>,
}

/// What the signed-in user may change of itself.
#[derive(Debug)]
pub struct PatchMeDto {
    pub phone_number: Option<String>,
}

impl MeDto {
    /// The user `me`, as the API shows it to that user.
    pub fn of(me: User) -> (dto: MeDto)
        ensures
            dto.id == me.id,
            dto.name == me.name,
            dto.email == me.email,
            dto.phone_number == me.phone_number,
    {
        MeDto { id: me.id, name: me.name, email: me.email, phone_number: me.phone_number }
    }
}

/// The signed-in user's view of itself.
pub fn get_me(me: User) -> (dto: MeDto)
    ensures
        dto.id == me.id,
        dto.name == me.name,
        dto.email == me.email,
        dto.phone_number == me.phone_number,
{
    MeDto::of(me)
}

/// The change that `patch_dto` asks of the user `me`: of the row with the
/// user's id, the phone number where one is given, and never the email.
pub fn patch_me(me: &User, patch_dto: PatchMeDto) -> (patch: PatchUser)
    ensures
        patch@ == (PatchUserView {
            id: me.id as int,
            email: None,
            phone_number: patch_dto.phone_number.deep_view(),
        }),
{
    PatchUser { id: me.id, email: None, phone_number: patch_dto.phone_number }
}

} // verus!
