//! Sessions: who is logged in, under which token, with which transport offer.
//!
//! A session is created once per successful login and never changed. It is
//! found by its identifier, exactly, or by its user's name, in which case the
//! session created first is the one found.
use crate::key::{CipherKey, KEY_LEN};
use crate::store::{bytes_attribute, first_match, lemma_attribute_push, lemma_first_index, lemma_first_index_is, lemma_first_index_none, text_attribute, AttributeValue, AttributeView, Item, PutOutcome};
use vstd::prelude::*;
use vstd::string::StringExecFns;

verus! {

/// A live login.
#[derive(Debug)]
pub struct Session {
    /// The bearer token of this login.
    pub session_id: CipherKey,
    /// The user who logged in. Names are compared exactly, case included.
    pub username: String,
    /// The user's transport offer at the time of login.
    pub initiator: String,
}

/// A session as plain values.
pub struct SessionView {
    pub session_id: Seq<u8>,
    pub username: Seq<char>,
    pub initiator: Seq<char>,
}

impl View for Session {
    type V = SessionView;

    open spec fn view(&self) -> SessionView {
        SessionView {
            session_id: self.session_id@,
            username: self.username@,
            initiator: self.initiator@,
        }
    }
}

impl Clone for Session {
    fn clone(&self) -> (r: Self)
        ensures
            r == *self,
    {
        Session {
            session_id: self.session_id.clone(),
            username: self.username.clone(),
            initiator: self.initiator.clone(),
        }
    }
}

/// The view of a session that was found, or of none.
pub open spec fn found_session(found: Option<Session>) -> Option<SessionView> {
    match found {
        Some(s) => Some(s@),
        None => None,
    }
}

/// The name of the attribute that holds a session's identifier.
pub const SESSION_ID_KEY: &'static str = "session_id";

/// The name of the attribute that holds a session's user.
pub const USERNAME_KEY: &'static str = "username";

/// The name of the attribute that holds a session's transport offer.
pub const INITIATOR_KEY: &'static str = "initiator";

/// The name of the table that holds the sessions.
pub const TABLE_NAME: &'static str = "atris_session";

/// The session that a stored record holds: its identifier as bytes of a
/// key's length, its user and its transport offer as text.
pub open spec fn session_of_item(entries: Seq<(Seq<char>, AttributeView)>) -> Option<SessionView> {
    match bytes_attribute(entries, SESSION_ID_KEY@) {
        Some(session_id) => match text_attribute(entries, USERNAME_KEY@) {
            Some(username) => match text_attribute(entries, INITIATOR_KEY@) {
                Some(initiator) => if session_id.len() == KEY_LEN {
                    Some(SessionView { session_id, username, initiator })
                } else {
                    None
                },
                None => None,
            },
            None => None,
        },
        None => None,
    }
}

impl Session {
    /// Reads a session from a stored record.
    pub fn from_map(map: &Item) -> (r: Option<Self>)
        ensures
            found_session(r) == session_of_item(map.entries()),
    {
        let session_id_bytes = match map.get_b(SESSION_ID_KEY) {
            Some(b) => b,
            None => { return None; },
        };
        let username = match map.get_s(USERNAME_KEY) {
            Some(s) => s,
            None => { return None; },
        };
        let initiator = match map.get_s(INITIATOR_KEY) {
            Some(s) => s,
            None => { return None; },
        };
        match CipherKey::from_slice(session_id_bytes.as_slice()) {
            Some(session_id) => Some(Session::new(session_id, username.clone(), initiator.clone())),
            None => None,
        }
    }

    /// The record under which this session is stored.
    pub fn to_item(&self) -> (r: Item)
        ensures
            r.entries() == seq![
                (SESSION_ID_KEY@, AttributeView::B(self.session_id@)),
                (USERNAME_KEY@, AttributeView::S(self.username@)),
                (INITIATOR_KEY@, AttributeView::S(self.initiator@)),
            ],
            session_of_item(r.entries()) == Some(self@),
    {
        let r = Item::new().item(SESSION_ID_KEY, AttributeValue::B(self.session_id.to_vec())).item(
            USERNAME_KEY,
            AttributeValue::S(self.username.clone()),
        ).item(INITIATOR_KEY, AttributeValue::S(self.initiator.clone()));
        proof {
            reveal_strlit("session_id");
            reveal_strlit("username");
            reveal_strlit("initiator");
            self.session_id.lemma_len();
            let e0 = Seq::<(Seq<char>, AttributeView)>::empty();
            let a = (SESSION_ID_KEY@, AttributeView::B(self.session_id@));
            let b = (USERNAME_KEY@, AttributeView::S(self.username@));
            let c = (INITIATOR_KEY@, AttributeView::S(self.initiator@));
            assert(r.entries() =~= seq![a, b, c]);
            assert(SESSION_ID_KEY@.len() == 10 && USERNAME_KEY@.len() == 8 && INITIATOR_KEY@.len()
                == 9);
            lemma_attribute_push(e0, a.0, a.1, SESSION_ID_KEY@);
            lemma_attribute_push(e0, a.0, a.1, USERNAME_KEY@);
            lemma_attribute_push(e0, a.0, a.1, INITIATOR_KEY@);
            lemma_attribute_push(e0.push(a), b.0, b.1, SESSION_ID_KEY@);
            lemma_attribute_push(e0.push(a), b.0, b.1, USERNAME_KEY@);
            lemma_attribute_push(e0.push(a), b.0, b.1, INITIATOR_KEY@);
            lemma_attribute_push(e0.push(a).push(b), c.0, c.1, SESSION_ID_KEY@);
            lemma_attribute_push(e0.push(a).push(b), c.0, c.1, USERNAME_KEY@);
            lemma_attribute_push(e0.push(a).push(b), c.0, c.1, INITIATOR_KEY@);
            assert(e0.push(a).push(b).push(c) =~= seq![a, b, c]);
        }
        r
    }

    /// The session with these three fields.
    pub fn new(session_id: CipherKey, username: String, initiator: String) -> (r: Self)
        ensures
            r.session_id == session_id,
            r.username == username,
            r.initiator == initiator,
    {
        Session { session_id, username, initiator }
    }
}

/// A session was stored.
#[derive(Debug, Clone, Copy, PartialEq, Eq, Structural)]
pub struct CreateSessionResponse;

/// Why a session was not stored.
#[derive(Debug)]
pub enum CreateSessionError {
    /// A session with this identifier exists already.
    DuplicateSession(CipherKey),
    /// The store failed while writing.
    DatabaseWriteError,
}

/// Why a session could not be looked up.
#[derive(Debug)]
pub enum AuthenticateSessionError {
    /// No session has this identifier.
    UnknownSession(String),
    /// The store failed while reading.
    DatabaseRead,
    /// The store failed while writing.
    DatabaseWrite,
}

impl CreateSessionError {
    /// What a user is told, word for word.
    pub open spec fn message_text(&self) -> Seq<char> {
        match self {
            CreateSessionError::DuplicateSession(session_id) => "Session '"@ + CipherKey::debug_text(session_id@)
                + "' already exists"@,
            CreateSessionError::DatabaseWriteError => "Failed to write to the database"@,
        }
    }

    /// What a user is told.
    pub fn message(&self) -> (r: String)
        ensures
            r@ == self.message_text(),
    {
        match self {
            CreateSessionError::DuplicateSession(session_id) => {
                let shown = session_id.to_debug_string();
                crate::text::between("Session '", shown.as_str(), "' already exists")
            },
            CreateSessionError::DatabaseWriteError => String::from_str(
                "Failed to write to the database",
            ),
        }
    }
}

impl AuthenticateSessionError {
    /// What a user is told, word for word.
    pub open spec fn message_text(&self) -> Seq<char> {
        match self {
            AuthenticateSessionError::UnknownSession(session_id) => "Session "@ + session_id@
                + " doesn't exist"@,
            AuthenticateSessionError::DatabaseRead =>
                "Failed to read user authentication details from the database"@,
            AuthenticateSessionError::DatabaseWrite =>
                "Failed to write network information to the database"@,
        }
    }

    /// What a user is told.
    pub fn message(&self) -> (r: String)
        ensures
            r@ == self.message_text(),
    {
        match self {
            AuthenticateSessionError::UnknownSession(session_id) => crate::text::between("Session ", session_id.as_str(), " doesn't exist"),
            AuthenticateSessionError::DatabaseRead => String::from_str(
                "Failed to read user authentication details from the database",
            ),
            AuthenticateSessionError::DatabaseWrite => String::from_str(
                "Failed to write network information to the database",
            ),
        }
    }
}

/// What creating a session returns, given how the store's put-if-absent
/// ended.
pub fn create_session_outcome(put: PutOutcome, session_id: CipherKey) -> (r: Result<
    CreateSessionResponse,
    CreateSessionError,
>)
    ensures
        match put {
            PutOutcome::Written => r is Ok,
            PutOutcome::ConditionFailed => r matches Err(CreateSessionError::DuplicateSession(k))
                && k == session_id,
            PutOutcome::Failed => r matches Err(CreateSessionError::DatabaseWriteError),
        },
{
    match put {
        PutOutcome::Written => Ok(CreateSessionResponse),
        PutOutcome::ConditionFailed => Err(CreateSessionError::DuplicateSession(session_id)),
        PutOutcome::Failed => Err(CreateSessionError::DatabaseWriteError),
    }
}

/// The session with identifier `id` among `records`.
pub open spec fn session_by_id(records: Seq<SessionView>, id: Seq<u8>) -> Option<SessionView> {
    first_match(records, |s: SessionView| s.session_id == id)
}

/// The first session of user `name` among `records`.
pub open spec fn session_by_username(records: Seq<SessionView>, name: Seq<char>) -> Option<
    SessionView,
> {
    first_match(records, |s: SessionView| s.username == name)
}

/// No two of `records` share an identifier.
pub open spec fn distinct_ids(records: Seq<SessionView>) -> bool {
    forall|i: int, j: int|
        0 <= i < j < records.len() ==> (#[trigger] records[i]).session_id != (
        #[trigger] records[j]).session_id
}

/// Appending a session whose identifier is unused keeps identifiers distinct.
pub proof fn lemma_fresh_id_keeps_ids_distinct(records: Seq<SessionView>, session: SessionView)
    requires
        session_by_id(records, session.session_id) is None,
    ensures
        distinct_ids(records) ==> distinct_ids(records.push(session)),
{
    let p = |s: SessionView| s.session_id == session.session_id;
    lemma_first_index(records, p);
    let after = records.push(session);
    if distinct_ids(records) {
        assert forall|i: int, j: int| 0 <= i < j < after.len() implies (#[trigger] after[i]).session_id
            != (#[trigger] after[j]).session_id by {
            if j < records.len() {
                assert(after[i] == records[i] && after[j] == records[j]);
            } else {
                assert(after[i] == records[i]);
                assert(!p(records[i]));
            }
        }
    }
}

/// The session table, held in memory.
#[derive(Debug)]
pub struct AtrisSessionDBClient {
    sessions: Vec<Session>,
}

impl AtrisSessionDBClient {
    /// The sessions in the table, oldest first.
    pub closed spec fn records(&self) -> Seq<SessionView> {
        self.sessions@.map_values(|s: Session| s@)
    }

    /// An empty table.
    pub fn new() -> (r: Self)
        ensures
            r.records() == Seq::<SessionView>::empty(),
    {
        let r = AtrisSessionDBClient { sessions: Vec::new() };
        assert(r.records() =~= Seq::<SessionView>::empty());
        r
    }

    /// The position of the session with identifier `id`, if there is one.
    fn position_of_id(&self, id: &CipherKey) -> (r: Option<usize>)
        ensures
            match r {
                Some(i) => i < self.sessions@.len() && session_by_id(self.records(), id@) == Some(
                    self.sessions@[i as int]@,
                ),
                None => session_by_id(self.records(), id@) is None,
            },
    {
        let ghost p = |s: SessionView| s.session_id == id@;
        let mut i: usize = 0;
        while i < self.sessions.len()
            invariant
                i <= self.sessions@.len(),
                p == (|s: SessionView| s.session_id == id@),
                forall|j: int| 0 <= j < i ==> !p(#[trigger] self.records()[j]),
            decreases self.sessions@.len() - i,
        {
            if self.sessions[i].session_id.same_as(id) {
                proof {
                    lemma_first_index_is(self.records(), p, i as int);
                }
                return Some(i);
            }
            i += 1;
        }
        proof {
            lemma_first_index_none(self.records(), p);
        }
        None
    }

    /// Stores a new session unless one with this identifier exists.
    ///
    /// Succeeds exactly where the identifier is unused, and then appends the
    /// session. Where it is used, the table stays as it was and the error
    /// carries the identifier back.
    pub fn create_session(&mut self, session_id: CipherKey, username: String, initiator: String) -> (r:
        Result<CreateSessionResponse, CreateSessionError>)
        ensures
            distinct_ids(old(self).records()) ==> distinct_ids(final(self).records()),
            match session_by_id(old(self).records(), session_id@) {
                None => r is Ok && final(self).records() == old(self).records().push(
                    SessionView {
                        session_id: session_id@,
                        username: username@,
                        initiator: initiator@,
                    },
                ),
                Some(_) => final(self).records() == old(self).records() && (r matches Err(
                    CreateSessionError::DuplicateSession(k),
                ) && k == session_id),
            },
    {
        let ghost before = self.records();
        let ghost p = |s: SessionView| s.session_id == session_id@;
        let put = match self.position_of_id(&session_id) {
            Some(_) => PutOutcome::ConditionFailed,
            None => {
                let session = Session::new(session_id.clone(), username, initiator);
                proof {
                    assert(before.push(session@) =~= self.sessions@.push(session).map_values(
                        |s: Session| s@,
                    ));
                    lemma_fresh_id_keeps_ids_distinct(before, session@);
                }
                self.sessions.push(session);
                PutOutcome::Written
            },
        };
        create_session_outcome(put, session_id)
    }

    /// The session with this identifier, if there is one.
    pub fn get_session(&self, session_id: CipherKey) -> (r: Result<
        Option<Session>,
        AuthenticateSessionError,
    >)
        ensures
            r matches Ok(found) && found_session(found) == session_by_id(
                self.records(),
                session_id@,
            ),
    {
        match self.position_of_id(&session_id) {
            Some(i) => Ok(Some(self.sessions[i].clone())),
            None => Ok(None),
        }
    }

    /// The oldest session of this user, if the user has one.
    pub fn get_session_for_username(&self, username: String) -> (r: Result<
        Option<Session>,
        AuthenticateSessionError,
    >)
        ensures
            r matches Ok(found) && found_session(found) == session_by_username(
                self.records(),
                username@,
            ),
    {
        let ghost p = |s: SessionView| s.username == username@;
        let mut i: usize = 0;
        while i < self.sessions.len()
            invariant
                i <= self.sessions@.len(),
                p == (|s: SessionView| s.username == username@),
                forall|j: int| 0 <= j < i ==> !p(#[trigger] self.records()[j]),
            decreases self.sessions@.len() - i,
        {
            if self.sessions[i].username == username {
                proof {
                    lemma_first_index_is(self.records(), p, i as int);
                }
                return Ok(Some(self.sessions[i].clone()));
            }
            i += 1;
        }
        proof {
            lemma_first_index_none(self.records(), p);
        }
        Ok(None)
    }

    /// How many sessions the table holds.
    pub fn len(&self) -> (r: usize)
        ensures
            r == self.records().len(),
    {
        self.sessions.len()
    }
}

} // verus!
