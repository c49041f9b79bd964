//! The bookkeeping of one newline-delimited JSON-RPC connection shared by
//! concurrent callers, and the selection of confirmed transactions from an
//! address history.
use vstd::prelude::*;

use std::collections::HashMap;

verus! {

broadcast use vstd::std_specs::hash::group_hash_axioms;

/// The verbose answer to `blockchain.transaction.get`: confirmations and raw bytes.
#[derive(Clone, Debug)]
pub struct TxInfo0 {
    pub confirmations: i64,
    pub hex: Vec<u8>,
}

/// The envelope of a `blockchain.transaction.get` response.
#[derive(Clone, Debug)]
pub struct TxInfo {
    pub result: TxInfo0,
}

/// One entry of `blockchain.address.get_history`: the height of its block
/// (0 or -1 while in the mempool) and the transaction's hash.
#[derive(Clone, Debug)]
pub struct HistoryEntry {
    pub height: i64,
    pub tx_hash: String,
}

/// The hashes of the mined entries of a history, in order.
pub open spec fn mined_hashes(s: Seq<HistoryEntry>) -> Seq<Seq<char>>
    decreases s.len(),
{
    if s.len() == 0 {
        Seq::empty()
    } else if s.last().height > 0 {
        mined_hashes(s.drop_last()).push(s.last().tx_hash@)
    } else {
        mined_hashes(s.drop_last())
    }
}

/// The raw transactions and confirmation counts of the answers that have at
/// least `min_conf` confirmations, in order.
pub open spec fn confirmed_txs(s: Seq<TxInfo>, min_conf: int) -> Seq<(Seq<u8>, int)>
    decreases s.len(),
{
    if s.len() == 0 {
        Seq::empty()
    } else if s.last().result.confirmations >= min_conf {
        confirmed_txs(s.drop_last(), min_conf).push(
            (s.last().result.hex@, s.last().result.confirmations as int),
        )
    } else {
        confirmed_txs(s.drop_last(), min_conf)
    }
}

/// Nothing still in the mempool is kept: every hash that `mined_hashes`
/// keeps is the hash of an entry with a positive height.
pub proof fn lemma_mined_hashes_are_mined(s: Seq<HistoryEntry>)
    ensures
        forall|k: int|
            0 <= k < mined_hashes(s).len() ==> exists|j: int|
                0 <= j < s.len() && s[j].height > 0 && #[trigger] mined_hashes(s)[k] == s[j].tx_hash@,
    decreases s.len(),
{
    if s.len() > 0 {
        let prev = s.drop_last();
        lemma_mined_hashes_are_mined(prev);
        assert forall|k: int| 0 <= k < mined_hashes(s).len() implies exists|j: int|
            0 <= j < s.len() && s[j].height > 0 && #[trigger] mined_hashes(s)[k] == s[j].tx_hash@ by {
            if k < mined_hashes(prev).len() {
                let j = choose|j: int|
                    0 <= j < prev.len() && prev[j].height > 0 && #[trigger] mined_hashes(prev)[k] == prev[j].tx_hash@;
                assert(s[j] == prev[j]);
                assert(mined_hashes(s)[k] == mined_hashes(prev)[k]);
            } else {
                assert(s[s.len() - 1] == s.last());
            }
        }
    }
}

pub open spec fn hash_views(r: Seq<String>) -> Seq<Seq<char>> {
    r.map_values(|h: String| h@)
}

pub open spec fn tx_views(r: Seq<(Vec<u8>, u64)>) -> Seq<(Seq<u8>, int)> {
    r.map_values(|t: (Vec<u8>, u64)| (t.0@, t.1 as int))
}

/// The hashes of the history entries that are mined, leaving out those
/// still in the mempool.
pub fn drop_mempool(history: &Vec<HistoryEntry>) -> (r: Vec<String>)
    ensures
        hash_views(r@) == mined_hashes(history@),
{
    let mut r: Vec<String> = Vec::new();
    let mut i: usize = 0;
    while i < history.len()
        invariant
            i <= history@.len(),
            hash_views(r@) == mined_hashes(history@.take(i as int)),
        decreases history@.len() - i,
    {
        assert(history@.take(i as int + 1).drop_last() =~= history@.take(i as int));
        if history[i].height > 0 {
            let h = history[i].tx_hash.clone();
            r.push(h);
            assert(hash_views(r@) =~= mined_hashes(history@.take(i as int)).push(h@));
        }
        i = i + 1;
    }
    assert(history@.take(history@.len() as int) =~= history@);
    r
}

/// The raw transactions, with their confirmation counts, of the answers
/// that have at least `min_conf` confirmations.
pub fn keep_confirmed(infos: &Vec<TxInfo>, min_conf: u32) -> (r: Vec<(Vec<u8>, u64)>)
    ensures
        tx_views(r@) == confirmed_txs(infos@, min_conf as int),
        forall|k: int| 0 <= k < r@.len() ==> r@[k].1 >= min_conf,
{
    let mut r: Vec<(Vec<u8>, u64)> = Vec::new();
    let mut i: usize = 0;
    while i < infos.len()
        invariant
            i <= infos@.len(),
            tx_views(r@) == confirmed_txs(infos@.take(i as int), min_conf as int),
            forall|k: int| 0 <= k < r@.len() ==> r@[k].1 >= min_conf,
        decreases infos@.len() - i,
    {
        assert(infos@.take(i as int + 1).drop_last() =~= infos@.take(i as int));
        let conf = infos[i].result.confirmations;
        if conf >= min_conf as i64 {
            let hex = infos[i].result.hex.clone();
            r.push((hex, conf as u64));
            assert(tx_views(r@) =~= confirmed_txs(infos@.take(i as int), min_conf as int).push(
                (hex@, conf as int),
            ));
        }
        i = i + 1;
    }
    assert(infos@.take(infos@.len() as int) =~= infos@);
    r
}

/// The integer `id` of a line read from the connection, when the line is a
/// JSON object with such a field.
pub uninterp spec fn response_id_of(line: Seq<char>) -> Option<u64>;

/// Relies on serde_json's `from_str` into a `Value`, `Value::get` and
/// `Value::as_u64`.
#[verifier::external_body]
fn response_id(line: &str) -> (r: Option<u64>)
    ensures
        r == response_id_of(line@),
{
    serde_json::from_str::<serde_json::Value>(line).ok().and_then(|v| v.get("id").and_then(|i| i.as_u64()))
}

/// Where a line read from the connection goes.
pub enum Delivery<T> {
    /// The answer to the pending request whose slot this is.
    Response(T, String),
    /// A line without an id, for every current subscriber.
    Notification(String),
    /// An answer that no pending request waits for.
    Dropped(String),
}

/// The requests in flight on one connection: the next id to hand out and,
/// for each id in flight, the slot that its answer is delivered to.
pub struct Pending<T> {
    pub next_id: u64,
    pub slots: HashMap<u64, T>,
}

impl<T> Pending<T> {
    /// Every id in flight was handed out before.
    pub open spec fn wf(&self) -> bool {
        forall|id: u64| #[trigger] self.slots@.contains_key(id) ==> id < self.next_id
    }

    /// No request in flight.
    pub fn new() -> (r: Pending<T>)
        ensures
            r.wf(),
            r.next_id == 0,
            r.slots@ == Map::<u64, T>::empty(),
    {
        Pending { next_id: 0, slots: HashMap::new() }
    }

    /// Hands out the next id and registers `slot` under it, before the
    /// request is written. `None` once every id has been used.
    pub fn register(&mut self, slot: T) -> (r: Option<u64>)
        requires
            old(self).wf(),
        ensures
            final(self).wf(),
            old(self).next_id == u64::MAX ==> r is None && final(self).next_id == old(self).next_id
                && final(self).slots@ == old(self).slots@,
            old(self).next_id < u64::MAX ==> r == Some(old(self).next_id) && final(self).next_id
                == old(self).next_id + 1 && final(self).slots@ == old(self).slots@.insert(
                old(self).next_id,
                slot,
            ),
    {
        if self.next_id == u64::MAX {
            return None;
        }
        let id = self.next_id;
        self.slots.insert(id, slot);
        self.next_id = id + 1;
        Some(id)
    }

    /// Removes and returns the slot of `id`, so that each id is answered once.
    pub fn take(&mut self, id: u64) -> (r: Option<T>)
        requires
            old(self).wf(),
        ensures
            final(self).wf(),
            final(self).next_id == old(self).next_id,
            final(self).slots@ == old(self).slots@.remove(id),
            r == (if old(self).slots@.contains_key(id) {
                Some(old(self).slots@[id])
            } else {
                None
            }),
    {
        let r = self.slots.remove(&id);
        assert(self.slots@ =~= old(self).slots@.remove(id));
        r
    }

    /// Drops every slot in flight, once the connection can no longer answer
    /// them; their callers then see their wait cancelled. Ids stay used.
    pub fn abandon_all(&mut self)
        requires
            old(self).wf(),
        ensures
            final(self).wf(),
            final(self).next_id == old(self).next_id,
            final(self).slots@ == Map::<u64, T>::empty(),
    {
        self.slots.clear();
    }

    /// Routes a line read from the connection: an answer goes to the slot of
    /// its id, which is removed; a line without an id is a notification; an
    /// answer that nothing waits for is dropped.
    pub fn route(&mut self, line: String) -> (r: Delivery<T>)
        requires
            old(self).wf(),
        ensures
            final(self).wf(),
            final(self).next_id == old(self).next_id,
            match response_id_of(line@) {
                None => r == Delivery::<T>::Notification(line) && final(self).slots@ == old(
                    self,
                ).slots@,
                Some(id) => final(self).slots@ == old(self).slots@.remove(id) && if old(
                    self,
                ).slots@.contains_key(id) {
                    r == Delivery::Response(old(self).slots@[id], line)
                } else {
                    r == Delivery::<T>::Dropped(line)
                },
            },
    {
        match response_id(line.as_str()) {
            None => Delivery::Notification(line),
            Some(id) => match self.take(id) {
                Some(slot) => Delivery::Response(slot, line),
                None => Delivery::Dropped(line),
            },
        }
    }
}

/// Concurrent requests each get their own answer, whatever order the
/// answers come in: two requests registered one after the other get
/// distinct ids that were not in flight, and taking either id first leaves
/// the other one's slot in place.
pub proof fn lemma_answers_reach_their_own_slot<T>(p: Pending<T>, a: T, b: T)
    requires
        p.wf(),
        p.next_id < u64::MAX - 1,
    ensures
        ({
            let ida = p.next_id;
            let idb = (p.next_id + 1) as u64;
            let m = p.slots@.insert(ida, a).insert(idb, b);
            &&& ida != idb
            &&& !p.slots@.contains_key(ida) && !p.slots@.contains_key(idb)
            &&& m.contains_key(ida) && m[ida] == a
            &&& m.contains_key(idb) && m[idb] == b
            &&& m.remove(idb).contains_key(ida) && m.remove(idb)[ida] == a
            &&& m.remove(ida).contains_key(idb) && m.remove(ida)[idb] == b
            &&& m.remove(ida).remove(idb) == p.slots@
        }),
{
    let ida = p.next_id;
    let idb = (p.next_id + 1) as u64;
    let m = p.slots@.insert(ida, a).insert(idb, b);
    assert(m.remove(ida).remove(idb) =~= p.slots@);
}

} // verus!
