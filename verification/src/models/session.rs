//! Chat session model.
use vstd::prelude::*;
use crate::deps::{new_uuid, now, parse_uuid, uuid_eq, uuid_parse, Timestamp};
use crate::text::owned;

verus! {

/// A chat session: its id, title, and when it was created and last
/// updated.
#[derive(Clone, Debug)]
pub struct Session {
    pub id: uuid::Uuid,
    pub title: String,
    pub created_at: Timestamp,
    pub updated_at: Timestamp,
}

impl Session {
    /// A new session titled `title`, with a new id, created and updated
    /// now.
    pub fn new(title: String) -> (s: Self)
        ensures
            s.title == title,
            s.created_at == s.updated_at,
    {
        let t = now();
        Session { id: new_uuid(), title, created_at: t, updated_at: t }
    }
}

/// A new session for a chat, titled `New Chat` when no title is given.
pub fn create_session(title: Option<String>) -> (s: Session)
    ensures
        s.title@ == (match title {
            Some(t) => t@,
            None => "New Chat"@,
        }),
        s.created_at == s.updated_at,
{
    match title {
        Some(t) => Session::new(t),
        None => Session::new(owned("New Chat")),
    }
}

/// The first of `sessions` whose id is `id`, if any.
pub open spec fn first_with_id(sessions: Seq<Session>, id: uuid::Uuid) -> Option<Session>
    decreases sessions.len(),
{
    if sessions.len() == 0 {
        None
    } else if sessions[0].id == id {
        Some(sessions[0])
    } else {
        first_with_id(sessions.drop_first(), id)
    }
}

/// The session with the id written as `id` among the stored `sessions`:
/// `None` when `id` is not a UUID or no session has it.
pub fn get_session(id: &str, sessions: Vec<Session>) -> (r: Option<Session>)
    ensures
        r == (match uuid_parse(id@) {
            Some(u) => first_with_id(sessions@, u),
            None => None,
        }),
{
    let wanted = match parse_uuid(id) {
        Some(u) => u,
        None => return None,
    };
    let ghost all = sessions@;
    let mut rest = sessions;
    while rest.len() > 0
        invariant
            uuid_parse(id@) == Some(wanted),
            all == sessions@,
            first_with_id(all, wanted) == first_with_id(rest@, wanted),
        decreases rest@.len(),
    {
        let ghost before = rest@;
        let s = rest.remove(0);
        assert(s == before[0]);
        if uuid_eq(&s.id, &wanted) {
            assert(first_with_id(before, wanted) == Some(before[0]));
            return Some(s);
        }
        assert(rest@ =~= before.drop_first());
    }
    None
}

} // verus!
