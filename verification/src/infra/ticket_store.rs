//! One-time tickets.
//!
//! A ticket stands for a user until it is consumed; consuming it twice
//! fails the second time.

use vstd::prelude::*;
use dashmap::DashMap;
use crate::error::WsPrismError;
use crate::strings::opt_text;

verus! {

/// A table of users keyed by ticket.
pub type TicketTable = DashMap<String, String>;

/// What a ticket table holds.
pub uninterp spec fn tickets(t: TicketTable) -> Map<Seq<char>, Seq<char>>;

/// The value bound to `key`, if any.
pub open spec fn bound(m: Map<Seq<char>, Seq<char>>, key: Seq<char>) -> Option<Seq<char>> {
    if m.contains_key(key) {
        Some(m[key])
    } else {
        None
    }
}

/// `DashMap::new`: an empty table.
#[verifier::external_body]
fn tickets_new() -> (t: TicketTable)
    ensures
        (tickets(t) == Map::<Seq<char>, Seq<char>>::empty()),
{
    DashMap::new()
}

/// `DashMap::insert`: binds `ticket` to `user`, replacing what was bound.
#[verifier::external_body]
fn tickets_insert(t: &mut TicketTable, ticket: String, user: String)
    ensures
        tickets(*final(t)) == tickets(*old(t)).insert(ticket@, user@),
{
    t.insert(ticket, user);
}

/// `DashMap::remove`: unbinds `ticket` and hands out the user that was
/// bound, if any.
#[verifier::external_body]
fn tickets_remove(t: &mut TicketTable, ticket: &str) -> (user: Option<String>)
    ensures
        tickets(*final(t)) == tickets(*old(t)).remove(ticket@),
        opt_text(user) == bound(tickets(*old(t)), ticket@),
{
    t.remove(ticket).map(|(_, u)| u)
}

/// A store of one-time tickets.
pub trait TicketStore {
    /// The user that `ticket` stands for, if it stands for one.
    spec fn ticket_user(&self, ticket: Seq<char>) -> Option<Seq<char>>;

    /// Consume `ticket`: hand out its user and forget the ticket. A ticket
    /// that stands for nobody fails authentication.
    fn consume_ticket(&mut self, ticket: &str) -> (res: Result<String, WsPrismError>)
        ensures
            match old(self).ticket_user(ticket@) {
                Some(u) => res matches Ok(x) && x@ == u,
                None => res matches Err(WsPrismError::AuthFailed),
            },
            final(self).ticket_user(ticket@) is None,
            forall|t: Seq<char>|
                t != ticket@ ==> final(self).ticket_user(t) == old(self).ticket_user(t),
    ;
}

/// Tickets held in memory.
pub struct InMemoryTicketStore {
    table: TicketTable,
}

impl InMemoryTicketStore {
    /// The users by ticket.
    pub closed spec fn users(&self) -> Map<Seq<char>, Seq<char>> {
        tickets(self.table)
    }

    /// A store that holds the ticket `dev` for the user `user:dev`.
    pub fn new() -> (s: InMemoryTicketStore)
        ensures
            s.ticket_user("dev"@) == Some("user:dev"@),
            forall|t: Seq<char>| t != "dev"@ ==> s.ticket_user(t) is None,
    {
        let mut s = InMemoryTicketStore { table: tickets_new() };
        s.insert("dev", "user:dev");
        s
    }

    /// Let `ticket` stand for `user_id`, replacing what it stood for.
    pub fn insert(&mut self, ticket: &str, user_id: &str)
        ensures
            final(self).ticket_user(ticket@) == Some(user_id@),
            forall|t: Seq<char>|
                t != ticket@ ==> final(self).ticket_user(t) == old(self).ticket_user(t),
    {
        tickets_insert(&mut self.table, ticket.to_owned(), user_id.to_owned());
    }
}

impl TicketStore for InMemoryTicketStore {
    open spec fn ticket_user(&self, ticket: Seq<char>) -> Option<Seq<char>> {
        bound(self.users(), ticket)
    }

    fn consume_ticket(&mut self, ticket: &str) -> (res: Result<String, WsPrismError>) {
        match tickets_remove(&mut self.table, ticket) {
            Some(user) => Ok(user),
            None => Err(WsPrismError::AuthFailed),
        }
    }
}

} // verus!
