//! Permissions, and accounts as they are shown.

use vstd::prelude::*;
use crate::auth::{Email, Name, Role, UserId, USER_TAG};
use crate::error::Error;
use crate::id::base52::DecodeError;
use crate::auth::UpdateUser;
use crate::auth::User;
use crate::id::{opened, row_or, sealed, Id, IdCipher};
use crate::text::byte_len_spec;

verus! {

/// The row of the account that asks, as permissions see it: an identifier that
/// names no account is no identity, and the caller must sign in.
pub open spec fn subject_of(user_id: u128, key: Seq<u8>) -> Result<i64, Error> {
    match opened(USER_TAG, user_id, key) {
        Ok(row) => Ok(row),
        Err(_) => Err(Error::LoggedOff),
    }
}

/// The answer once storage has told the role of the account, for a
/// predicate that answered `allowed` where it was asked: a failure of storage
/// is passed on; an account that is gone must sign in; a role that the
/// predicate turns down is unauthorized; any other may pass.
pub open spec fn verdict(found: Result<Option<Role>, Error>, allowed: bool) -> Result<(), Error> {
    match found {
        Err(e) => Err(e),
        Ok(None) => Err(Error::LoggedOff),
        Ok(Some(_)) => if allowed {
            Ok(())
        } else {
            Err(Error::Unauthorized)
        },
    }
}

/// The first step of asking for permission: the row whose role is to be looked up.
pub fn permission_subject(user_id: UserId, cipher: &IdCipher) -> (res: Result<i64, Error>)
    ensures
        res == subject_of(user_id@, cipher@),
{
    match user_id.sql_id(cipher) {
        Ok(row) => Ok(row),
        Err(_) => Err(Error::LoggedOff),
    }
}

/// The last step of asking for permission: the answer for what storage found. The
/// predicate is asked only where a role was found.
pub fn permission_verdict<P: Fn(Role) -> bool>(
    found: Result<Option<Role>, Error>,
    has_permissions: P,
) -> (res: Result<(), Error>)
    requires
        forall|role: Role| has_permissions.requires((role,)),
    ensures
        match found {
            Ok(Some(role)) => exists|allowed: bool|
                has_permissions.ensures((role,), allowed) && res == #[trigger] verdict(
                    found,
                    allowed,
                ),
            _ => res == verdict(found, true),
        },
{
    match found {
        Err(e) => Err(e),
        Ok(None) => Err(Error::LoggedOff),
        Ok(Some(role)) => {
            let allowed = has_permissions(role);
            assert(verdict(found, allowed) == if allowed {
                Ok::<(), Error>(())
            } else {
                Err(Error::Unauthorized)
            });
            if allowed {
                Ok(())
            } else {
                Err(Error::Unauthorized)
            }
        },
    }
}

/// Whether `res` is an answer to an identity, a way to look up
/// roles and a predicate on roles. An identifier that names no account, or
/// an account without a role, must sign in; a role that the predicate turns
/// down is unauthorized; a role that it accepts passes. Storage is asked only
/// for an identifier that names an account, and the predicate only for a role
/// that storage found.
pub open spec fn permitted<R: Fn(i64) -> Result<Option<Role>, Error>, P: Fn(Role) -> bool>(
    subject: Result<i64, Error>,
    find_role: R,
    has_permissions: P,
    res: Result<(), Error>,
) -> bool {
    match subject {
        Err(e) => res == Err::<(), Error>(e),
        Ok(row) => exists|found: Result<Option<Role>, Error>|
            #![trigger find_role.ensures((row,), found)]
            find_role.ensures((row,), found) && match found {
                Ok(Some(role)) => exists|allowed: bool|
                    has_permissions.ensures((role,), allowed) && res == #[trigger] verdict(
                        found,
                        allowed,
                    ),
                _ => res == verdict(found, true),
            },
    }
}

/// Asks for permission: decodes the identity, looks up its role, and asks the
/// predicate.
pub fn check_permission<R: Fn(i64) -> Result<Option<Role>, Error>, P: Fn(Role) -> bool>(
    user_id: UserId,
    cipher: &IdCipher,
    find_role: R,
    has_permissions: P,
) -> (res: Result<(), Error>)
    requires
        forall|row: i64| find_role.requires((row,)),
        forall|role: Role| has_permissions.requires((role,)),
    ensures
        permitted(subject_of(user_id@, cipher@), find_role, has_permissions, res),
{
    match permission_subject(user_id, cipher) {
        Err(e) => Err(e),
        Ok(row) => {
            let found = find_role(row);
            permission_verdict(found, has_permissions)
        },
    }
}

/// An account as storage lists it.
pub struct AllUser {
    pub id: i64,
    pub name: Name,
    pub email: Email,
}

/// What storage holds of one account.
pub struct UserInfo {
    pub name: Name,
    pub email: Email,
}

/// The new name of the account in a given row.
pub struct UpdateUserInfo {
    pub id: i64,
    pub name: Name,
}

/// Whether `user` shows the stored `row`: the same name and address, under
/// the identifier of the row.
pub open spec fn shows(user: User, row: AllUser, key: Seq<u8>) -> bool {
    &&& user.id@ == sealed(USER_TAG, row.id, key)
    &&& user.name@ == row.name@
    &&& user.email@ == row.email@
}

/// Shows the stored accounts, in their order.
pub fn get_all_users(rows: &Vec<AllUser>, cipher: &IdCipher) -> (users: Vec<User>)
    ensures
        users@.len() == rows@.len(),
        forall|i: int| 0 <= i < rows@.len() ==> shows(#[trigger] users@[i], rows@[i], cipher@),
{
    let mut users: Vec<User> = Vec::new();
    let mut i: usize = 0;
    while i < rows.len()
        invariant
            i <= rows.len(),
            users@.len() == i,
            forall|j: int| 0 <= j < i ==> shows(#[trigger] users@[j], rows@[j], cipher@),
        decreases rows.len() - i,
    {
        let row = &rows[i];
        users.push(
            User {
                id: UserId::new(row.id, cipher),
                name: row.name.clone(),
                email: row.email.clone(),
            },
        );
        i += 1;
    }
    users
}

/// The row of the account to show or to change. An identifier that names no
/// account means that there is none.
pub fn user_row(user_id: UserId, cipher: &IdCipher) -> (res: Result<i64, Error>)
    ensures
        res == row_or(USER_TAG, user_id@, cipher@, Error::NotFound),
{
    user_id.sql_id_or(cipher, Error::NotFound)
}

/// Shows the account that storage found under an identifier, or reports that
/// there is none.
pub fn get_user(user_id: UserId, info: Option<UserInfo>) -> (res: Result<User, Error>)
    ensures
        match info {
            Some(i) => res matches Ok(user) && user.id == user_id && user.name == i.name
                && user.email == i.email,
            None => res matches Err(e) && e == Error::NotFound,
        },
{
    match info {
        Some(i) => Ok(User { id: user_id, name: i.name, email: i.email }),
        None => Err(Error::NotFound),
    }
}

/// The new name to store for an account. An identifier that names no account
/// means that there is none; a name of more than 50 bytes is refused.
pub fn update_user(user_id: UserId, user_info: UpdateUser, cipher: &IdCipher) -> (res: Result<
    UpdateUserInfo,
    Error,
>)
    ensures
        match row_or(USER_TAG, user_id@, cipher@, Error::NotFound) {
            Err(e) => res matches Err(found) && found == e,
            Ok(row) => match res {
                Ok(info) => byte_len_spec(user_info.name@) <= 50 && info.id == row && info.name@
                    == user_info.name@,
                Err(e) => byte_len_spec(user_info.name@) > 50 && e == Error::Validation(
                    "name is too long",
                ),
            },
        },
{
    let id = match user_id.sql_id_or(cipher, Error::NotFound) {
        Ok(row) => row,
        Err(e) => {
            return Err(e);
        },
    };
    match Name::new(user_info.name) {
        Ok(name) => Ok(UpdateUserInfo { id, name }),
        Err(e) => Err(e),
    }
}

} // verus!
