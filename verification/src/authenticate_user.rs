//! Logging in: from a name and a password to a session.
use crate::auth_table::{user_by_name, AtrisAuthDBClient, User, UserView};
use crate::key::{CipherKey, KEY_LEN};
use crate::password::{check_attempt, password_check, PasswordCheck};
use crate::session_table::{session_by_id, AtrisSessionDBClient, CreateSessionError, CreateSessionResponse, SessionView};
use vstd::prelude::*;
use vstd::string::StringExecFns;

verus! {

/// A request to log in.
#[derive(Debug)]
pub struct AuthenticateUserRequest {
    /// The user who logs in.
    pub username: String,
    /// The password as the user typed it.
    pub password_attempt: String,
    /// The user's transport offer, which is handed to users who open a room
    /// with this one.
    pub initiator: String,
}

/// A login succeeded.
#[derive(Debug)]
pub struct AuthenticateUserResponse {
    /// The bearer token of the new session.
    pub session_id: CipherKey,
}

/// Why a login failed.
#[derive(Debug)]
pub enum AuthenticateUserError {
    /// No user has this name.
    UnknownUsername(String),
    /// The user's record holds no readable password hash.
    MissingPassword,
    /// The password does not match.
    WrongPassword,
    /// The store failed while reading.
    DatabaseRead,
    /// The session could not be written.
    DatabaseWrite,
}

/// An error as plain values.
pub enum AuthenticateUserErrorView {
    UnknownUsername(Seq<char>),
    MissingPassword,
    WrongPassword,
    DatabaseRead,
    DatabaseWrite,
}

impl View for AuthenticateUserError {
    type V = AuthenticateUserErrorView;

    open spec fn view(&self) -> AuthenticateUserErrorView {
        match self {
            AuthenticateUserError::UnknownUsername(u) => AuthenticateUserErrorView::UnknownUsername(
                u@,
            ),
            AuthenticateUserError::MissingPassword => AuthenticateUserErrorView::MissingPassword,
            AuthenticateUserError::WrongPassword => AuthenticateUserErrorView::WrongPassword,
            AuthenticateUserError::DatabaseRead => AuthenticateUserErrorView::DatabaseRead,
            AuthenticateUserError::DatabaseWrite => AuthenticateUserErrorView::DatabaseWrite,
        }
    }
}

/// The view of what a handler returned: the new session's identifier, or the
/// error.
pub open spec fn authenticate_user_result(
    r: Result<AuthenticateUserResponse, AuthenticateUserError>,
) -> Result<Seq<u8>, AuthenticateUserErrorView> {
    match r {
        Ok(response) => Ok(response.session_id@),
        Err(e) => Err(e@),
    }
}

/// What a login returns when `session_id` is the identifier drawn for it and
/// `check` is what the user's stored hash says of the attempt.
pub open spec fn authenticate_user_spec(
    users: Seq<UserView>,
    sessions: Seq<SessionView>,
    username: Seq<char>,
    check: PasswordCheck,
    session_id: Seq<u8>,
) -> Result<Seq<u8>, AuthenticateUserErrorView> {
    match user_by_name(users, username) {
        None => Err(AuthenticateUserErrorView::UnknownUsername(username)),
        Some(_) => match check {
            PasswordCheck::Unreadable => Err(AuthenticateUserErrorView::MissingPassword),
            PasswordCheck::Mismatch => Err(AuthenticateUserErrorView::WrongPassword),
            PasswordCheck::Match => if session_by_id(sessions, session_id) is Some {
                Err(AuthenticateUserErrorView::DatabaseWrite)
            } else {
                Ok(session_id)
            },
        },
    }
}

/// Decides from the user lookup whether there is a user to check the
/// password against.
pub fn authenticate_user_check(user: Option<User>, username: String) -> (r: Result<
    User,
    AuthenticateUserError,
>)
    ensures
        match user {
            None => r matches Err(AuthenticateUserError::UnknownUsername(u)) && u == username,
            Some(found) => r matches Ok(u) && u == found,
        },
{
    match user {
        None => Err(AuthenticateUserError::UnknownUsername(username)),
        Some(found) => Ok(found),
    }
}

/// What a login makes of the password check.
pub fn password_outcome(check: PasswordCheck) -> (r: Result<(), AuthenticateUserError>)
    ensures
        match check {
            PasswordCheck::Match => r is Ok,
            PasswordCheck::Mismatch => r matches Err(AuthenticateUserError::WrongPassword),
            PasswordCheck::Unreadable => r matches Err(AuthenticateUserError::MissingPassword),
        },
{
    match check {
        PasswordCheck::Match => Ok(()),
        PasswordCheck::Mismatch => Err(AuthenticateUserError::WrongPassword),
        PasswordCheck::Unreadable => Err(AuthenticateUserError::MissingPassword),
    }
}

/// What a login returns, given how storing its session ended. A session
/// identifier that is taken is a failed write: the login is not retried.
pub fn session_outcome(stored: Result<CreateSessionResponse, CreateSessionError>, session_id: CipherKey) -> (r:
    Result<AuthenticateUserResponse, AuthenticateUserError>)
    ensures
        match stored {
            Ok(_) => r matches Ok(response) && response.session_id == session_id,
            Err(_) => r matches Err(AuthenticateUserError::DatabaseWrite),
        },
{
    match stored {
        Ok(_) => Ok(AuthenticateUserResponse { session_id }),
        Err(_) => Err(AuthenticateUserError::DatabaseWrite),
    }
}

/// Logs a user in under the given session identifier, once the password
/// check is known.
///
/// `check` is what the stored hash of the user says of the attempt; it is
/// not looked at where no user has the name. Fails with `UnknownUsername`
/// where no user has the name, else with `MissingPassword` or
/// `WrongPassword` as the check says, else with `DatabaseWrite` where the
/// identifier is taken. Otherwise a session of the user, with the request's
/// transport offer, is appended. On every failure the sessions stay as they
/// were.
pub fn authenticate_user_checked(
    users: &AtrisAuthDBClient,
    sessions: &mut AtrisSessionDBClient,
    username: String,
    initiator: String,
    check: PasswordCheck,
    session_id: CipherKey,
) -> (r: Result<AuthenticateUserResponse, AuthenticateUserError>)
    ensures
        authenticate_user_result(r) == authenticate_user_spec(
            users.records(),
            old(sessions).records(),
            username@,
            check,
            session_id@,
        ),
        r is Err ==> final(sessions).records() == old(sessions).records(),
        r is Ok ==> final(sessions).records() == old(sessions).records().push(
            SessionView { session_id: session_id@, username: username@, initiator: initiator@ },
        ),
{
    let found = match users.get_user(username.clone()) {
        Ok(found) => found,
        Err(e) => { return Err(e); },
    };
    match authenticate_user_check(found, username.clone()) {
        Err(e) => { return Err(e); },
        Ok(_) => {},
    }
    match password_outcome(check) {
        Err(e) => { return Err(e); },
        Ok(()) => {},
    }
    let stored = sessions.create_session(session_id.clone(), username, initiator);
    session_outcome(stored, session_id)
}

/// The check that [`authenticate_user_with`] hands on: what the stored hash
/// of the user says of the attempt. Where no user has the name, the check is
/// of no account.
pub open spec fn check_for(users: Seq<UserView>, username: Seq<char>, attempt: Seq<char>) -> PasswordCheck {
    match user_by_name(users, username) {
        Some(user) => password_check(user.password_hash, attempt),
        None => PasswordCheck::Unreadable,
    }
}

/// Logs a user in under the given session identifier.
///
/// Checks the attempt against the user's stored hash and goes on as
/// [`authenticate_user_checked`] does with that check.
pub fn authenticate_user_with(
    users: &AtrisAuthDBClient,
    sessions: &mut AtrisSessionDBClient,
    request: AuthenticateUserRequest,
    session_id: CipherKey,
) -> (r: Result<AuthenticateUserResponse, AuthenticateUserError>)
    ensures
        authenticate_user_result(r) == authenticate_user_spec(
            users.records(),
            old(sessions).records(),
            request.username@,
            check_for(users.records(), request.username@, request.password_attempt@),
            session_id@,
        ),
        r is Err ==> final(sessions).records() == old(sessions).records(),
        r is Ok ==> final(sessions).records() == old(sessions).records().push(
            SessionView {
                session_id: session_id@,
                username: request.username@,
                initiator: request.initiator@,
            },
        ),
{
    let found = match users.get_user(request.username.clone()) {
        Ok(found) => found,
        Err(e) => { return Err(e); },
    };
    let user = match authenticate_user_check(found, request.username.clone()) {
        Err(e) => { return Err(e); },
        Ok(user) => user,
    };
    let check = check_attempt(user.password_hash.as_str(), request.password_attempt.as_str());
    authenticate_user_checked(
        users,
        sessions,
        request.username,
        request.initiator,
        check,
        session_id,
    )
}

/// Logs a user in under a fresh random session identifier.
///
/// Whatever identifier is drawn, the call is a call of
/// [`authenticate_user_with`] for some identifier of a key's length: for
/// the one returned on success, and on failure for one on which the error
/// comes. The errors that do not depend on the identifier come on the same
/// inputs, and `DatabaseWrite` comes only where the identifier drawn is
/// taken.
pub fn authenticate_user(
    users: &AtrisAuthDBClient,
    sessions: &mut AtrisSessionDBClient,
    request: AuthenticateUserRequest,
) -> (r: Result<AuthenticateUserResponse, AuthenticateUserError>)
    ensures
        r is Err ==> final(sessions).records() == old(sessions).records(),
        r matches Ok(response) ==> {
            &&& authenticate_user_spec(
                users.records(),
                old(sessions).records(),
                request.username@,
                check_for(users.records(), request.username@, request.password_attempt@),
                response.session_id@,
            ) == Ok::<Seq<u8>, AuthenticateUserErrorView>(response.session_id@)
            &&& final(sessions).records() == old(sessions).records().push(
                SessionView {
                    session_id: response.session_id@,
                    username: request.username@,
                    initiator: request.initiator@,
                },
            )
        },
        r matches Err(e) ==> exists|session_id: Seq<u8>|
            session_id.len() == KEY_LEN && #[trigger] authenticate_user_spec(
                users.records(),
                old(sessions).records(),
                request.username@,
                check_for(users.records(), request.username@, request.password_attempt@),
                session_id,
            ) == Err::<Seq<u8>, AuthenticateUserErrorView>(e@),
        r matches Err(e) ==> e@ != AuthenticateUserErrorView::DatabaseRead && (e@
            != AuthenticateUserErrorView::DatabaseWrite ==> forall|session_id: Seq<u8>|
            #[trigger] authenticate_user_spec(
                users.records(),
                old(sessions).records(),
                request.username@,
                check_for(users.records(), request.username@, request.password_attempt@),
                session_id,
            ) == Err::<Seq<u8>, AuthenticateUserErrorView>(e@)),
{
    let session_id = CipherKey::generate();
    let ghost before = sessions.records();
    let r = authenticate_user_with(users, sessions, request, session_id);
    proof {
        session_id.lemma_len();
        if r is Err {
            assert(authenticate_user_spec(
                users.records(),
                before,
                request.username@,
                check_for(users.records(), request.username@, request.password_attempt@),
                session_id@,
            ) == Err::<Seq<u8>, AuthenticateUserErrorView>(r->Err_0@));
        }
    }
    r
}

impl AuthenticateUserError {
    /// What a user is told, word for word.
    pub open spec fn message_text(&self) -> Seq<char> {
        match self {
            AuthenticateUserError::UnknownUsername(username) => "Username "@ + username@
                + " is not registered"@,
            AuthenticateUserError::MissingPassword =>
                "The database did not have a password for this user"@,
            AuthenticateUserError::WrongPassword => "The password provided does not match"@,
            AuthenticateUserError::DatabaseRead =>
                "Failed to read user authentication details from the database"@,
            AuthenticateUserError::DatabaseWrite =>
                "Failed to write network information to the database"@,
        }
    }

    /// What a user is told.
    pub fn message(&self) -> (r: String)
        ensures
            r@ == self.message_text(),
    {
        match self {
            AuthenticateUserError::UnknownUsername(username) => crate::text::between("Username ", username.as_str(), " is not registered"),
            AuthenticateUserError::MissingPassword => String::from_str(
                "The database did not have a password for this user",
            ),
            AuthenticateUserError::WrongPassword => String::from_str(
                "The password provided does not match",
            ),
            AuthenticateUserError::DatabaseRead => String::from_str(
                "Failed to read user authentication details from the database",
            ),
            AuthenticateUserError::DatabaseWrite => String::from_str(
                "Failed to write network information to the database",
            ),
        }
    }
}

} // verus!
