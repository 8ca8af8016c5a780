//! Service directory.
//!
//! Services are registered at startup, Ext services under their name and
//! Hot services under their id, each with the slot in which the caller
//! keeps the handler. A lookup names the slot; it checks no policy.

use vstd::prelude::*;
use vstd::string::StringExecFns;
use dashmap::DashMap;
use crate::error::{fails_bad_request, WsPrismError};
use crate::realtime::keyset::{distinct, holds};
use crate::realtime::store::{
    counters,
    counters_get,
    counters_insert,
    counters_keys,
    counters_new,
    CounterTable,
};
use crate::strings::{decimal_repr, decimal_text};

verus! {

/// A table of slots keyed by a Hot service id.
pub type SlotTable = DashMap<u8, u64>;

/// What a slot table holds.
pub uninterp spec fn slots(t: SlotTable) -> Map<u8, u64>;

/// `DashMap::new`: an empty table.
#[verifier::external_body]
fn slots_new() -> (t: SlotTable)
    ensures
        (slots(t) == Map::<u8, u64>::empty()),
{
    DashMap::new()
}

/// `DashMap::get`, copying the value out: the slot under `id`, if any.
#[verifier::external_body]
fn slots_get(t: &SlotTable, id: u8) -> (v: Option<u64>)
    ensures
        v == (if slots(*t).contains_key(id) {
            Some(slots(*t)[id])
        } else {
            None
        }),
{
    t.get(&id).map(|r| *r.value())
}

/// `DashMap::insert`: binds `id` to `slot`, replacing what was bound.
#[verifier::external_body]
fn slots_insert(t: &mut SlotTable, id: u8, slot: u64)
    ensures
        slots(*final(t)) == slots(*old(t)).insert(id, slot),
{
    t.insert(id, slot);
}

/// `DashMap::iter`, copying each key out: the ids of the table, each once,
/// in the order in which the map happens to be walked.
#[verifier::external_body]
fn slots_keys(t: &SlotTable) -> (v: Vec<u8>)
    ensures
        v@.no_duplicates(),
        forall|id: u8| v@.contains(id) == slots(*t).contains_key(id),
{
    t.iter().map(|e| *e.key()).collect()
}

/// Registry of services by Ext name and by Hot id.
pub struct Dispatcher {
    text: CounterTable,
    hot: SlotTable,
}

impl Dispatcher {
    /// Slots of the Ext services, by name.
    pub closed spec fn text_slots(&self) -> Map<Seq<char>, u64> {
        counters(self.text)
    }

    /// Slots of the Hot services, by id.
    pub closed spec fn hot_slots(&self) -> Map<u8, u64> {
        slots(self.hot)
    }

    /// An empty directory.
    pub fn new() -> (d: Dispatcher)
        ensures
            (d.text_slots() == Map::<Seq<char>, u64>::empty()),
            (d.hot_slots() == Map::<u8, u64>::empty()),
    {
        Dispatcher { text: counters_new(), hot: slots_new() }
    }

    /// Register the Ext service `svc`, replacing an earlier one of that
    /// name.
    pub fn register_text(&mut self, svc: &str, slot: u64)
        ensures
            final(self).text_slots() == old(self).text_slots().insert(svc@, slot),
            final(self).hot_slots() == old(self).hot_slots(),
    {
        counters_insert(&mut self.text, svc.to_owned(), slot);
    }

    /// Register the Hot service `svc_id`, replacing an earlier one of that
    /// id.
    pub fn register_hot(&mut self, svc_id: u8, slot: u64)
        ensures
            final(self).hot_slots() == old(self).hot_slots().insert(svc_id, slot),
            final(self).text_slots() == old(self).text_slots(),
    {
        slots_insert(&mut self.hot, svc_id, slot);
    }

    /// The names of the registered Ext services, each once, in no
    /// particular order.
    pub fn registered_text_svcs(&self) -> (v: Vec<String>)
        ensures
            distinct(v@),
            forall|n: Seq<char>| holds(v@, n) == self.text_slots().contains_key(n),
    {
        counters_keys(&self.text)
    }

    /// The ids of the registered Hot services, each once, in no particular
    /// order.
    pub fn registered_hot_svcs(&self) -> (v: Vec<u8>)
        ensures
            v@.no_duplicates(),
            forall|id: u8| v@.contains(id) == self.hot_slots().contains_key(id),
    {
        slots_keys(&self.hot)
    }

    /// The slot of the Ext service `svc`; an unknown name is a bad
    /// request.
    pub fn dispatch_text(&self, svc: &str) -> (res: Result<u64, WsPrismError>)
        ensures
            self.text_slots().contains_key(svc@) ==> res == Ok::<u64, WsPrismError>(
                self.text_slots()[svc@],
            ),
            !self.text_slots().contains_key(svc@) ==> fails_bad_request(res, "unknown svc: "@ + svc@),
    {
        match counters_get(&self.text, svc) {
            Some(slot) => Ok(slot),
            None => {
                let mut m = "unknown svc: ".to_owned();
                m.append(svc);
                Err(WsPrismError::BadRequest(m))
            },
        }
    }

    /// The slot of the Hot service `svc_id`; an unknown id is a bad
    /// request.
    pub fn dispatch_hot(&self, svc_id: u8) -> (res: Result<u64, WsPrismError>)
        ensures
            self.hot_slots().contains_key(svc_id) ==> res == Ok::<u64, WsPrismError>(
                self.hot_slots()[svc_id],
            ),
            !self.hot_slots().contains_key(svc_id) ==> fails_bad_request(
                res,
                "unknown hot svc_id: "@ + decimal_repr(svc_id as int),
            ),
    {
        match slots_get(&self.hot, svc_id) {
            Some(slot) => Ok(slot),
            None => {
                let mut m = "unknown hot svc_id: ".to_owned();
                m.append(decimal_text(svc_id as u64).as_str());
                Err(WsPrismError::BadRequest(m))
            },
        }
    }
}

} // verus!
