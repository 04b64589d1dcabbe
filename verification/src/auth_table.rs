//! Users: who may log in, and the hash that their password must match.
use crate::authenticate_user::AuthenticateUserError;
use crate::create_user::{CreateUserError, CreateUserResponse};
use crate::store::{first_match, lemma_attribute_push, lemma_first_index_is, lemma_first_index_none, text_attribute, AttributeValue, AttributeView, Item, PutOutcome};
use vstd::prelude::*;

verus! {

/// A registered user.
#[derive(Debug)]
pub struct User {
    /// The user's name. Names are compared exactly, case included.
    pub username: String,
    /// The salted hash of the user's password, in PHC string format.
    pub password_hash: String,
}

/// A user as plain values.
pub struct UserView {
    pub username: Seq<char>,
    pub password_hash: Seq<char>,
}

impl View for User {
    type V = UserView;

    open spec fn view(&self) -> UserView {
        UserView { username: self.username@, password_hash: self.password_hash@ }
    }
}

impl Clone for User {
    fn clone(&self) -> (r: Self)
        ensures
            r == *self,
    {
        User { username: self.username.clone(), password_hash: self.password_hash.clone() }
    }
}

/// The name of the attribute that holds a user's name.
pub const USERNAME_KEY: &'static str = "username";

/// The name of the attribute that holds a user's password hash.
pub const PASSWORD_KEY: &'static str = "hashed_salted_password";

/// The name of the attribute that once held a user's salt.
pub const SALT_KEY: &'static str = "salt";

/// The name of the table that holds the users.
pub const TABLE_NAME: &'static str = "atris_auth";

/// The user that a stored record holds: name and password hash, as text.
pub open spec fn user_of_item(entries: Seq<(Seq<char>, AttributeView)>) -> Option<UserView> {
    match text_attribute(entries, USERNAME_KEY@) {
        Some(username) => match text_attribute(entries, PASSWORD_KEY@) {
            Some(password_hash) => Some(UserView { username, password_hash }),
            None => None,
        },
        None => None,
    }
}

/// The view of a user that was found, or of none.
pub open spec fn found_user(found: Option<User>) -> Option<UserView> {
    match found {
        Some(u) => Some(u@),
        None => None,
    }
}

impl User {
    /// Reads a user from a stored record.
    pub fn from_map(map: &Item) -> (r: Option<Self>)
        ensures
            found_user(r) == user_of_item(map.entries()),
    {
        let username = match map.get_s(USERNAME_KEY) {
            Some(s) => s,
            None => { return None; },
        };
        let password = match map.get_s(PASSWORD_KEY) {
            Some(s) => s,
            None => { return None; },
        };
        Some(User::new(username.clone(), password.clone()))
    }

    /// The record under which this user is stored.
    pub fn to_item(&self) -> (r: Item)
        ensures
            r.entries() == seq![
                (USERNAME_KEY@, AttributeView::S(self.username@)),
                (PASSWORD_KEY@, AttributeView::S(self.password_hash@)),
            ],
            user_of_item(r.entries()) == Some(self@),
    {
        let r = Item::new().item(USERNAME_KEY, AttributeValue::S(self.username.clone())).item(
            PASSWORD_KEY,
            AttributeValue::S(self.password_hash.clone()),
        );
        proof {
            reveal_strlit("username");
            reveal_strlit("hashed_salted_password");
            let e0 = Seq::<(Seq<char>, AttributeView)>::empty();
            let a = (USERNAME_KEY@, AttributeView::S(self.username@));
            let b = (PASSWORD_KEY@, AttributeView::S(self.password_hash@));
            assert(r.entries() =~= seq![a, b]);
            assert(USERNAME_KEY@.len() == 8 && PASSWORD_KEY@.len() == 22);
            lemma_attribute_push(e0, a.0, a.1, USERNAME_KEY@);
            lemma_attribute_push(e0, a.0, a.1, PASSWORD_KEY@);
            lemma_attribute_push(e0.push(a), b.0, b.1, USERNAME_KEY@);
            lemma_attribute_push(e0.push(a), b.0, b.1, PASSWORD_KEY@);
            assert(e0.push(a).push(b) =~= seq![a, b]);
        }
        r
    }

    /// The user with this name and this password hash.
    pub fn new(username: String, password_hash: String) -> (r: Self)
        ensures
            r.username == username,
            r.password_hash == password_hash,
    {
        User { username, password_hash }
    }
}

/// The user named `name` among `records`.
pub open spec fn user_by_name(records: Seq<UserView>, name: Seq<char>) -> Option<UserView> {
    first_match(records, |u: UserView| u.username == name)
}

/// What creating a user returns, given how the store's put-if-absent ended.
pub fn create_user_outcome(put: PutOutcome, username: String) -> (r: Result<
    CreateUserResponse,
    CreateUserError,
>)
    ensures
        match put {
            PutOutcome::Written => r is Ok,
            PutOutcome::ConditionFailed => r matches Err(CreateUserError::DuplicateUsername(u))
                && u == username,
            PutOutcome::Failed => r matches Err(CreateUserError::DatabaseWriteError),
        },
{
    match put {
        PutOutcome::Written => Ok(CreateUserResponse),
        PutOutcome::ConditionFailed => Err(CreateUserError::DuplicateUsername(username)),
        PutOutcome::Failed => Err(CreateUserError::DatabaseWriteError),
    }
}

/// The user table, held in memory.
#[derive(Debug)]
pub struct AtrisAuthDBClient {
    users: Vec<User>,
}

impl AtrisAuthDBClient {
    /// The users in the table, oldest first.
    pub closed spec fn records(&self) -> Seq<UserView> {
        self.users@.map_values(|u: User| u@)
    }

    /// An empty table.
    pub fn new() -> (r: Self)
        ensures
            r.records() == Seq::<UserView>::empty(),
    {
        let r = AtrisAuthDBClient { users: Vec::new() };
        assert(r.records() =~= Seq::<UserView>::empty());
        r
    }

    /// The position of the user named `username`, if there is one.
    fn position_of(&self, username: &String) -> (r: Option<usize>)
        ensures
            match r {
                Some(i) => i < self.users@.len() && user_by_name(self.records(), username@) == Some(
                    self.users@[i as int]@,
                ),
                None => user_by_name(self.records(), username@) is None,
            },
    {
        let ghost p = |u: UserView| u.username == username@;
        let mut i: usize = 0;
        while i < self.users.len()
            invariant
                i <= self.users@.len(),
                p == (|u: UserView| u.username == username@),
                forall|j: int| 0 <= j < i ==> !p(#[trigger] self.records()[j]),
            decreases self.users@.len() - i,
        {
            if self.users[i].username == *username {
                proof {
                    lemma_first_index_is(self.records(), p, i as int);
                }
                return Some(i);
            }
            i += 1;
        }
        proof {
            lemma_first_index_none(self.records(), p);
        }
        None
    }

    /// Registers a user unless the name is taken.
    ///
    /// Succeeds exactly where the name is free, and then appends the user
    /// with the given password hash. Where it is taken, the table stays as
    /// it was and the error carries the name back.
    pub fn create_user(&mut self, username: String, password: String) -> (r: Result<
        CreateUserResponse,
        CreateUserError,
    >)
        ensures
            match user_by_name(old(self).records(), username@) {
                None => r is Ok && final(self).records() == old(self).records().push(
                    UserView { username: username@, password_hash: password@ },
                ),
                Some(_) => final(self).records() == old(self).records() && (r matches Err(
                    CreateUserError::DuplicateUsername(u),
                ) && u == username),
            },
    {
        let ghost before = self.records();
        let put = match self.position_of(&username) {
            Some(_) => PutOutcome::ConditionFailed,
            None => {
                let user = User::new(username.clone(), password);
                assert(before.push(user@) =~= self.users@.push(user).map_values(|u: User| u@));
                self.users.push(user);
                PutOutcome::Written
            },
        };
        create_user_outcome(put, username)
    }

    /// The user with this name, if there is one.
    pub fn get_user(&self, username: String) -> (r: Result<Option<User>, AuthenticateUserError>)
        ensures
            r matches Ok(found) && found_user(found) == user_by_name(self.records(), username@),
    {
        match self.position_of(&username) {
            Some(i) => Ok(Some(self.users[i].clone())),
            None => Ok(None),
        }
    }
}

} // verus!
