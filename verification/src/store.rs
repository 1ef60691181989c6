//! In-memory session store: a map from session identifiers to conversation
//! histories.
//!
//! Shared-state plumbing (reference counting, the lock, the agent handle)
//! lives outside the library; this type is the store itself, and every
//! operation is specified as a transformation of its map view.

use vstd::prelude::*;

use crate::history::assistant_turn;
use crate::history::history_add;
use crate::history::history_new;
use crate::history::user_turn;
use crate::history::ConversationHistory;
use crate::history::HistoryModel;
use crate::history::DEFAULT_MAX_TURNS;
use crate::table::AssocTable;

verus! {

/// Relies on uuid::Uuid::new_v4 and its hyphenated `to_string` form: a
/// freshly drawn random identifier, rendered as 36 characters.  Nothing more
/// is promised: the draw is random.
#[verifier::external_body]
fn mint_session_id() -> (r: String)
    ensures
        r@.len() == 36,
{
    uuid::Uuid::new_v4().to_string()
}

/// The map after upserting a user message: append to the existing history,
/// or to a fresh default-bounded one when the id is unknown.
pub open spec fn upsert_user(
    m: Map<Seq<char>, HistoryModel>,
    id: Seq<char>,
    text: Seq<char>,
) -> Map<Seq<char>, HistoryModel> {
    if m.contains_key(id) {
        m.insert(id, history_add(m[id], user_turn(text)))
    } else {
        m.insert(id, history_add(history_new(DEFAULT_MAX_TURNS as nat), user_turn(text)))
    }
}

/// The map after appending an assistant message to an existing session.
pub open spec fn append_assistant(
    m: Map<Seq<char>, HistoryModel>,
    id: Seq<char>,
    text: Seq<char>,
) -> Map<Seq<char>, HistoryModel> {
    m.insert(id, history_add(m[id], assistant_turn(text)))
}

/// The session store: session id to conversation history.
pub struct AppState {
    sessions: AssocTable<ConversationHistory>,
}

impl View for AppState {
    type V = Map<Seq<char>, HistoryModel>;

    closed spec fn view(&self) -> Map<Seq<char>, HistoryModel> {
        self.sessions@
    }
}

impl AppState {
    /// Every stored history is within its bound, and the table is sound.
    pub closed spec fn wf(&self) -> bool {
        &&& self.sessions.wf()
        &&& forall|k: Seq<char>| #[trigger]
            self.sessions@.contains_key(k) ==> self.sessions@[k].wf()
    }

    /// An empty store.
    pub fn new() -> (r: Self)
        ensures
            r.wf(),
            r@ == Map::<Seq<char>, HistoryModel>::empty(),
    {
        Self { sessions: AssocTable::new() }
    }

    /// Create a new session under a freshly minted identifier and return the
    /// identifier.  The new session starts with an empty history.
    pub fn create_session(&mut self) -> (id: String)
        requires
            old(self).wf(),
        ensures
            final(self).wf(),
            final(self)@ == old(self)@.insert(id@, history_new(DEFAULT_MAX_TURNS as nat)),
            id@.len() == 36,
    {
        let id = mint_session_id();
        let history = ConversationHistory::new(DEFAULT_MAX_TURNS);
        self.sessions.insert(id.clone(), history);
        id
    }

    /// Get an independent copy of the conversation history for a session, or
    /// `None` if the session is unknown.  The store itself is not touched, so
    /// whatever the caller later does to the returned copy cannot reach the
    /// stored history.
    pub fn get_session(&self, session_id: &str) -> (r: Option<ConversationHistory>)
        requires
            self.wf(),
        ensures
            r.is_some() == self@.contains_key(session_id@),
            match r {
                Some(h) => self@.contains_key(session_id@) && h@ == self@[session_id@]
                    && h@.wf(),
                None => !self@.contains_key(session_id@),
            },
    {
        match self.sessions.get(session_id) {
            Some(h) => Some(h.to_snapshot()),
            None => None,
        }
    }

    /// Add a user message to a session's history, creating the session first
    /// when the id is unknown (upsert).
    pub fn add_user_message(&mut self, session_id: &str, message: &str)
        requires
            old(self).wf(),
        ensures
            final(self).wf(),
            final(self)@ == upsert_user(old(self)@, session_id@, message@),
            final(self)@.contains_key(session_id@),
    {
        let mut history = match self.sessions.get(session_id) {
            Some(h) => h.to_snapshot(),
            None => ConversationHistory::new(DEFAULT_MAX_TURNS),
        };
        history.add_user(message);
        self.sessions.insert(session_id.to_owned(), history);
    }

    /// Add an assistant message to a session's history.  The session must
    /// already exist: this is only ever reached after `add_user_message` has
    /// established it, and calling it with an unknown id is a logic error
    /// that fails loudly at run time rather than creating a session.
    pub fn add_assistant_message(&mut self, session_id: &str, message: &str)
        requires
            old(self).wf(),
            old(self)@.contains_key(session_id@),
        ensures
            final(self).wf(),
            final(self)@ == append_assistant(old(self)@, session_id@, message@),
    {
        let mut history = match self.sessions.get(session_id) {
            Some(h) => h.to_snapshot(),
            None => vstd::pervasive::unreached(),
        };
        history.add_assistant(message);
        self.sessions.insert(session_id.to_owned(), history);
    }

    /// The number of sessions in the store.
    pub fn session_count(&self) -> (r: usize)
        requires
            self.wf(),
        ensures
            r == self@.dom().len(),
    {
        self.sessions.len()
    }
}

/// Session isolation: adding a user message under one id neither adds to,
/// removes from, nor alters any other session's history.
pub proof fn lemma_session_isolation(
    m: Map<Seq<char>, HistoryModel>,
    a: Seq<char>,
    b: Seq<char>,
    text: Seq<char>,
)
    requires
        a != b,
    ensures
        upsert_user(m, a, text).contains_key(b) == m.contains_key(b),
        m.contains_key(b) ==> upsert_user(m, a, text)[b] == m[b],
        append_assistant(m, a, text).contains_key(b) == m.contains_key(b),
        m.contains_key(b) ==> append_assistant(m, a, text)[b] == m[b],
{
}

/// Upsert semantics: adding a user message under an unknown id creates
/// exactly one new session, holding exactly that one message.
pub proof fn lemma_upsert_creates(m: Map<Seq<char>, HistoryModel>, id: Seq<char>, text: Seq<char>)
    requires
        !m.contains_key(id),
    ensures
        upsert_user(m, id, text).contains_key(id),
        upsert_user(m, id, text)[id].turns =~= seq![user_turn(text)],
        upsert_user(m, id, text).dom() =~= m.dom().insert(id),
{
    assert(history_add(history_new(DEFAULT_MAX_TURNS as nat), user_turn(text)).turns =~= seq![
        user_turn(text),
    ]);
}

} // verus!
