//! The SQLite store's rules: how roles are written, and how stored rows are
//! read back into messages. Opening the file and running statements is the
//! caller's part.
use vstd::prelude::*;

use crate::deps::{parse_rfc3339, parse_uuid, rfc3339_instant, uuid_parse, Timestamp};
use crate::models::chat::role_name;
use crate::models::{ChatMessage, ChatRole, Session};
use crate::text::owned;

verus! {

/// Whether the store has been opened. It is opened by the first `init`
/// that succeeds and stays open for the rest of the process.
pub struct DatabaseState {
    opened: bool,
}

/// The store is open.
pub closed spec fn is_open(s: DatabaseState) -> bool {
    s.opened
}

/// Whether the store is open after `init` calls with these outcomes (true
/// for one that succeeded), made in order from a fresh start.
pub open spec fn open_after(outcomes: Seq<bool>) -> bool
    decreases outcomes.len(),
{
    if outcomes.len() == 0 {
        false
    } else {
        open_after(outcomes.drop_last()) || outcomes.last()
    }
}

impl DatabaseState {
    /// No store opened yet.
    pub fn new() -> (s: Self)
        ensures
            !is_open(s),
    {
        DatabaseState { opened: false }
    }

    /// Record how an `init` ended: one that succeeded opens the store; one
    /// that failed leaves it as it was.
    pub fn record_init(&mut self, succeeded: bool)
        ensures
            is_open(*final(self)) == (is_open(*old(self)) || succeeded),
    {
        if succeeded {
            self.opened = true;
        }
    }
}

/// Check if database is initialized: some `init` has succeeded.
pub fn is_initialized(state: &DatabaseState) -> (b: bool)
    ensures
        b == is_open(*state),
{
    state.opened
}

/// The store is open exactly when some `init` call succeeded, and once
/// open it stays open whatever later calls give.
pub proof fn lemma_open_iff_some_init_succeeded(outcomes: Seq<bool>, later: Seq<bool>)
    ensures
        open_after(outcomes) <==> exists|i: int| 0 <= i < outcomes.len() && outcomes[i],
        open_after(outcomes) ==> open_after(outcomes + later),
    decreases outcomes.len() + later.len(),
{
    if outcomes.len() > 0 {
        lemma_open_iff_some_init_succeeded(outcomes.drop_last(), Seq::empty());
        let p = outcomes.drop_last();
        if open_after(outcomes) {
            if open_after(p) {
                let i = choose|i: int| 0 <= i < p.len() && p[i];
                assert(outcomes[i] == p[i]);
            } else {
                assert(outcomes[outcomes.len() - 1]);
            }
        }
        if exists|i: int| 0 <= i < outcomes.len() && outcomes[i] {
            let i = choose|i: int| 0 <= i < outcomes.len() && outcomes[i];
            if i < outcomes.len() - 1 {
                assert(p[i] == outcomes[i]);
            }
        }
    }
    if later.len() > 0 {
        lemma_open_iff_some_init_succeeded(outcomes, later.drop_last());
        assert((outcomes + later).drop_last() =~= outcomes + later.drop_last());
    } else {
        assert(outcomes + later =~= outcomes);
    }
}

/// The text a role is stored as.
pub fn role_text(role: ChatRole) -> (s: &'static str)
    ensures
        s@ == role_name(role),
{
    match role {
        ChatRole::User => "user",
        ChatRole::Assistant => "assistant",
        ChatRole::System => "system",
    }
}

/// The role a stored text names, if any.
pub open spec fn role_of_text(s: Seq<char>) -> Option<ChatRole> {
    if s == "user"@ {
        Some(ChatRole::User)
    } else if s == "assistant"@ {
        Some(ChatRole::Assistant)
    } else if s == "system"@ {
        Some(ChatRole::System)
    } else {
        None
    }
}

/// Read a stored role.
pub fn role_from_text(s: &str) -> (r: Option<ChatRole>)
    ensures
        r == role_of_text(s@),
{
    let t = owned(s);
    if t == owned("user") {
        Some(ChatRole::User)
    } else if t == owned("assistant") {
        Some(ChatRole::Assistant)
    } else if t == owned("system") {
        Some(ChatRole::System)
    } else {
        None
    }
}

/// A role read back from the text it is stored as is the same role.
pub proof fn lemma_role_round_trip(r: ChatRole)
    ensures
        role_of_text(role_name(r)) == Some(r),
{
    reveal_strlit("user");
    reveal_strlit("assistant");
    reveal_strlit("system");
    assert("user"@.len() == 4 && "assistant"@.len() == 9 && "system"@.len() == 6);
}

/// A stored message row: id, session id, role, content, creation time.
pub type MessageRow = (String, String, String, String, String);

/// The message a row holds, as its parts, if every part reads back.
pub open spec fn row_message(row: (Seq<char>, Seq<char>, Seq<char>, Seq<char>, Seq<char>)) -> Option<(uuid::Uuid, uuid::Uuid, ChatRole, Seq<char>, Timestamp)> {
    match (uuid_parse(row.0), uuid_parse(row.1), role_of_text(row.2), rfc3339_instant(row.4)) {
        (Some(id), Some(sid), Some(role), Some(t)) => Some((id, sid, role, row.3, t)),
        _ => None,
    }
}

/// A row as plain values.
pub open spec fn row_view(row: MessageRow) -> (Seq<char>, Seq<char>, Seq<char>, Seq<char>, Seq<char>) {
    (row.0@, row.1@, row.2@, row.3@, row.4@)
}

/// A message as its parts.
pub open spec fn message_parts(m: ChatMessage) -> (uuid::Uuid, uuid::Uuid, ChatRole, Seq<char>, Timestamp) {
    (m.id, m.session_id, m.role, m.content@, m.created_at)
}

/// Read a stored row back into a message; `None` when its id, session id,
/// role or time does not read back.
pub fn message_from_row(row: MessageRow) -> (m: Option<ChatMessage>)
    ensures
        match row_message(row_view(row)) {
            Some(p) => m matches Some(msg) && message_parts(msg) == p,
            None => m is None,
        },
{
    let (id_s, sid_s, role_s, content, time_s) = row;
    let id = parse_uuid(id_s.as_str());
    let sid = parse_uuid(sid_s.as_str());
    let role = role_from_text(role_s.as_str());
    let t = parse_rfc3339(time_s.as_str());
    match (id, sid, role, t) {
        (Some(id), Some(session_id), Some(role), Some(created_at)) => Some(ChatMessage { id, session_id, role, content, created_at }),
        _ => None,
    }
}

/// The messages that a list of rows holds, in order, skipping rows that do
/// not read back.
pub open spec fn rows_messages(rows: Seq<(Seq<char>, Seq<char>, Seq<char>, Seq<char>, Seq<char>)>) -> Seq<(uuid::Uuid, uuid::Uuid, ChatRole, Seq<char>, Timestamp)>
    decreases rows.len(),
{
    if rows.len() == 0 {
        Seq::empty()
    } else {
        let rest = rows_messages(rows.drop_last());
        match row_message(rows.last()) {
            Some(p) => rest.push(p),
            None => rest,
        }
    }
}

/// Read stored rows back into messages, in order, skipping rows that do not
/// read back.
pub fn messages_from_rows(rows: Vec<MessageRow>) -> (ms: Vec<ChatMessage>)
    ensures
        ms@.map_values(|m: ChatMessage| message_parts(m)) == rows_messages(
            rows@.map_values(|r: MessageRow| row_view(r)),
        ),
{
    let ghost views = rows@.map_values(|r: MessageRow| row_view(r));
    let mut ms: Vec<ChatMessage> = Vec::new();
    let mut i: usize = 0;
    while i < rows.len()
        invariant
            i <= rows@.len(),
            views == rows@.map_values(|r: MessageRow| row_view(r)),
            ms@.map_values(|m: ChatMessage| message_parts(m)) == rows_messages(views.take(i as int)),
        decreases rows@.len() - i,
    {
        assert(views.take(i + 1).drop_last() == views.take(i as int));
        assert(views.take(i + 1).last() == row_view(rows@[i as int]));
        let r = &rows[i];
        let row = (r.0.clone(), r.1.clone(), r.2.clone(), r.3.clone(), r.4.clone());
        let ghost before = ms@;
        match message_from_row(row) {
            Some(m) => {
                ms.push(m);
                assert(ms@.map_values(|m: ChatMessage| message_parts(m)) =~= before.map_values(
                    |m: ChatMessage| message_parts(m),
                ).push(message_parts(ms@.last())));
            },
            None => {},
        }
        i += 1;
    }
    assert(views.take(views.len() as int) == views);
    ms
}

/// A stored session row: id, title, creation time, update time.
pub type SessionRow = (String, String, String, String);

/// The session a row holds, as its parts, if its id and times read back.
pub open spec fn row_session(row: (Seq<char>, Seq<char>, Seq<char>, Seq<char>)) -> Option<(uuid::Uuid, Seq<char>, Timestamp, Timestamp)> {
    match (uuid_parse(row.0), rfc3339_instant(row.2), rfc3339_instant(row.3)) {
        (Some(id), Some(c), Some(u)) => Some((id, row.1, c, u)),
        _ => None,
    }
}

/// A session row as plain values.
pub open spec fn session_row_view(row: SessionRow) -> (Seq<char>, Seq<char>, Seq<char>, Seq<char>) {
    (row.0@, row.1@, row.2@, row.3@)
}

/// A session as its parts.
pub open spec fn session_parts(s: Session) -> (uuid::Uuid, Seq<char>, Timestamp, Timestamp) {
    (s.id, s.title@, s.created_at, s.updated_at)
}

/// Read a stored row back into a session; `None` when its id or one of its
/// times does not read back.
pub fn session_from_row(row: SessionRow) -> (s: Option<Session>)
    ensures
        match row_session(session_row_view(row)) {
            Some(p) => s matches Some(x) && session_parts(x) == p,
            None => s is None,
        },
{
    let (id_s, title, created_s, updated_s) = row;
    let id = parse_uuid(id_s.as_str());
    let created = parse_rfc3339(created_s.as_str());
    let updated = parse_rfc3339(updated_s.as_str());
    match (id, created, updated) {
        (Some(id), Some(created_at), Some(updated_at)) => Some(Session { id, title, created_at, updated_at }),
        _ => None,
    }
}

/// The sessions that a list of rows holds, in order, skipping rows that do
/// not read back.
pub open spec fn rows_sessions(rows: Seq<(Seq<char>, Seq<char>, Seq<char>, Seq<char>)>) -> Seq<(uuid::Uuid, Seq<char>, Timestamp, Timestamp)>
    decreases rows.len(),
{
    if rows.len() == 0 {
        Seq::empty()
    } else {
        let rest = rows_sessions(rows.drop_last());
        match row_session(rows.last()) {
            Some(p) => rest.push(p),
            None => rest,
        }
    }
}

/// Read stored rows back into sessions, in order (the store lists them
/// most recently updated first), skipping rows that do not read back.
pub fn sessions_from_rows(rows: Vec<SessionRow>) -> (ss: Vec<Session>)
    ensures
        ss@.map_values(|s: Session| session_parts(s)) == rows_sessions(
            rows@.map_values(|r: SessionRow| session_row_view(r)),
        ),
{
    let ghost views = rows@.map_values(|r: SessionRow| session_row_view(r));
    let mut ss: Vec<Session> = Vec::new();
    let mut i: usize = 0;
    while i < rows.len()
        invariant
            i <= rows@.len(),
            views == rows@.map_values(|r: SessionRow| session_row_view(r)),
            ss@.map_values(|s: Session| session_parts(s)) == rows_sessions(views.take(i as int)),
        decreases rows@.len() - i,
    {
        assert(views.take(i + 1).drop_last() == views.take(i as int));
        assert(views.take(i + 1).last() == session_row_view(rows@[i as int]));
        let r = &rows[i];
        let row = (r.0.clone(), r.1.clone(), r.2.clone(), r.3.clone());
        let ghost before = ss@;
        match session_from_row(row) {
            Some(x) => {
                ss.push(x);
                assert(ss@.map_values(|s: Session| session_parts(s)) =~= before.map_values(
                    |s: Session| session_parts(s),
                ).push(session_parts(ss@.last())));
            },
            None => {},
        }
        i += 1;
    }
    assert(views.take(views.len() as int) == views);
    ss
}

} // verus!
