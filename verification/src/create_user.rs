//! Registering a user.
use crate::auth_table::{user_by_name, AtrisAuthDBClient, UserView};
use crate::password::{hashable, new_password_hash, password_check, PasswordCheck};
use crate::store::lemma_first_match_push;
use vstd::prelude::*;
use vstd::string::StringExecFns;

verus! {

/// A request to register a user.
#[derive(Debug)]
pub struct CreateUserRequest {
    /// The name to register.
    pub username: String,
    /// The password of the new user.
    pub password: String,
}

/// A user was registered.
#[derive(Debug, Clone, Copy, PartialEq, Eq, Structural)]
pub struct CreateUserResponse;

/// Why a user was not registered.
#[derive(Debug)]
pub enum CreateUserError {
    /// The name is taken.
    DuplicateUsername(String),
    /// The password could not be hashed.
    HashError,
    /// The store failed while writing.
    DatabaseWriteError,
}

impl Clone for CreateUserError {
    fn clone(&self) -> (r: Self)
        ensures
            r == *self,
    {
        match self {
            CreateUserError::DuplicateUsername(u) => CreateUserError::DuplicateUsername(u.clone()),
            CreateUserError::HashError => CreateUserError::HashError,
            CreateUserError::DatabaseWriteError => CreateUserError::DatabaseWriteError,
        }
    }
}

/// Registers a user whose password was hashed already; `password_hash` is
/// what hashing gave, `None` where it failed.
///
/// Fails with `HashError` where there is no hash, else with
/// `DuplicateUsername` where the name is taken. Otherwise the user is
/// appended with that hash. On every failure the users stay as they were.
pub fn create_user_with_hash(users: &mut AtrisAuthDBClient, username: String, password_hash: Option<String>) -> (r:
    Result<CreateUserResponse, CreateUserError>)
    ensures
        match password_hash {
            None => r matches Err(CreateUserError::HashError) && final(users).records() == old(
                users,
            ).records(),
            Some(h) => match user_by_name(old(users).records(), username@) {
                Some(_) => (r matches Err(CreateUserError::DuplicateUsername(u)) && u == username)
                    && final(users).records() == old(users).records(),
                None => r is Ok && final(users).records() == old(users).records().push(
                    UserView { username: username@, password_hash: h@ },
                ),
            },
        },
{
    match password_hash {
        None => Err(CreateUserError::HashError),
        Some(h) => users.create_user(username, h),
    }
}

/// Registers a user, hashing the password under a fresh random salt.
///
/// Fails with `HashError` where the password is too long to be hashed, else
/// with `DuplicateUsername` where the name is taken; the users then stay as
/// they were. Otherwise the user is appended, with a hash that the password
/// matches.
pub fn create_user(users: &mut AtrisAuthDBClient, request: CreateUserRequest) -> (r: Result<
    CreateUserResponse,
    CreateUserError,
>)
    ensures
        if !hashable(request.password@) {
            r matches Err(CreateUserError::HashError) && final(users).records() == old(
                users,
            ).records()
        } else if user_by_name(old(users).records(), request.username@) is Some {
            (r matches Err(CreateUserError::DuplicateUsername(u)) && u == request.username)
                && final(users).records() == old(users).records()
        } else {
            &&& r is Ok
            &&& final(users).records().len() == old(users).records().len() + 1
            &&& final(users).records().drop_last() == old(users).records()
            &&& final(users).records().last().username == request.username@
            &&& password_check(final(users).records().last().password_hash, request.password@)
                == PasswordCheck::Match
            &&& user_by_name(final(users).records(), request.username@) == Some(
                final(users).records().last(),
            )
        },
{
    let ghost before = users.records();
    let password_hash = new_password_hash(request.password.as_str());
    let r = create_user_with_hash(users, request.username, password_hash);
    proof {
        if r is Ok {
            let added = UserView {
                username: request.username@,
                password_hash: password_hash->0@,
            };
            assert(before.push(added).drop_last() =~= before);
            lemma_first_match_push(before, added, |u: UserView| u.username == request.username@);
        }
    }
    r
}

impl CreateUserError {
    /// What a user is told, word for word.
    pub open spec fn message_text(&self) -> Seq<char> {
        match self {
            CreateUserError::DuplicateUsername(username) => "Username '"@ + username@
                + "' is already taken"@,
            CreateUserError::HashError => "Error creating password hash"@,
            CreateUserError::DatabaseWriteError => "Failed to write to the database"@,
        }
    }

    /// What a user is told.
    pub fn message(&self) -> (r: String)
        ensures
            r@ == self.message_text(),
    {
        match self {
            CreateUserError::DuplicateUsername(username) => crate::text::between("Username '", username.as_str(), "' is already taken"),
            CreateUserError::HashError => String::from_str("Error creating password hash"),
            CreateUserError::DatabaseWriteError => String::from_str(
                "Failed to write to the database",
            ),
        }
    }
}

} // verus!
