//! `MessageStore`: a keyed store whose items move through the states
//! Pending -> InFlight -> (InDoubt | Acked | back to Pending).
//!
//! Each state has its own map from key to that state's data. A handle names
//! one item in one state, gives read access to its fields and offers exactly
//! the transitions that leave that state. A handle that is dropped without a
//! transition leaves the item where it was.
use vstd::prelude::*;
use std::collections::HashMap;
use vstd::std_specs::iter::IteratorSpec;

verus! {

broadcast use vstd::std_specs::hash::group_hash_axioms;

/// Data of an item in state `Pending`.
#[derive(Debug, Clone, Copy, PartialEq, Eq, Default)]
pub struct MessagesPending;

/// Data of an item in state `InFlight`.
#[derive(Debug, Clone, Copy, PartialEq, Eq, Default)]
pub struct MessagesInFlight {
    pub leader: u64,
    pub term: u64,
}

/// Data of an item in state `InDoubt`.
#[derive(Debug, Clone, Copy, PartialEq, Eq, Default)]
pub struct MessagesInDoubt {
    pub prev_leader: u64,
    pub prev_term: u64,
}

/// Data of an item in state `Acked`.
#[derive(Debug, Clone, Copy, PartialEq, Eq, Default)]
pub struct MessagesAcked;

/// Why a store operation did not happen.
#[derive(Debug, Clone, Copy, PartialEq, Eq, Structural)]
pub enum MessageStoreError {
    /// Item not found in the expected state.
    NotFound,
    /// The transition's guard condition failed.
    GuardFailed,
}

/// The state of one item, with that state's data: the model of an entry of the store.
pub enum MessageState {
    Pending,
    InFlight { leader: u64, term: u64 },
    InDoubt { prev_leader: u64, prev_term: u64 },
    Acked,
}

/// Keys whose item is `Pending`.
pub open spec fn pending_keys(m: Map<u64, MessageState>) -> Set<u64> {
    m.dom().filter(|k: u64| m[k] is Pending)
}

/// Keys whose item is `InFlight`.
pub open spec fn in_flight_keys(m: Map<u64, MessageState>) -> Set<u64> {
    m.dom().filter(|k: u64| m[k] is InFlight)
}

/// Keys whose item is `InDoubt`.
pub open spec fn in_doubt_keys(m: Map<u64, MessageState>) -> Set<u64> {
    m.dom().filter(|k: u64| m[k] is InDoubt)
}

/// Keys whose item is `Acked`.
pub open spec fn acked_keys(m: Map<u64, MessageState>) -> Set<u64> {
    m.dom().filter(|k: u64| m[k] is Acked)
}

/// Every item is in exactly one state, so the items of the four states
/// together are all the items.
pub proof fn law_total_is_sum_of_states(m: Map<u64, MessageState>)
    requires
        m.dom().finite(),
    ensures
        m.dom().len() == pending_keys(m).len() + in_flight_keys(m).len() + in_doubt_keys(m).len()
            + acked_keys(m).len(),
{
    let (p, f, d, a) = (pending_keys(m), in_flight_keys(m), in_doubt_keys(m), acked_keys(m));
    vstd::set_lib::lemma_len_subset(p, m.dom());
    vstd::set_lib::lemma_len_subset(f, m.dom());
    vstd::set_lib::lemma_len_subset(d, m.dom());
    vstd::set_lib::lemma_len_subset(a, m.dom());
    vstd::set_lib::lemma_set_disjoint_lens(p, f);
    vstd::set_lib::lemma_set_disjoint_lens(p + f, d);
    vstd::set_lib::lemma_set_disjoint_lens(p + f + d, a);
    assert(m.dom() =~= p + f + d + a);
}

/// Inserting a key that is not in the store and then removing it gives the
/// store back; a transition (an update of a present key) keeps the set of keys.
pub proof fn law_insert_remove_and_transition_keys(m: Map<u64, MessageState>, k: u64, s: MessageState)
    ensures
        !m.contains_key(k) ==> m.insert(k, MessageState::Pending).remove(k) == m,
        m.contains_key(k) ==> m.insert(k, s).dom() == m.dom(),
{
    if !m.contains_key(k) {
        assert(m.insert(k, MessageState::Pending).remove(k) =~= m);
    }
    if m.contains_key(k) {
        assert(m.insert(k, s).dom() =~= m.dom());
    }
}

/// Inserting a new key counts one more item, and removing a present key
/// one fewer.
pub proof fn law_insert_and_remove_count(m: Map<u64, MessageState>, k: u64)
    requires
        m.dom().finite(),
    ensures
        !m.contains_key(k) ==> m.insert(k, MessageState::Pending).dom().len() == m.dom().len() + 1,
        m.contains_key(k) ==> m.remove(k).dom().len() == m.dom().len() - 1,
{
}

/// The guard of `mark_in_doubt`: the leadership named by the caller differs
/// from the one the item is in flight with.
pub open spec fn leadership_changed(leader: u64, term: u64, new_leader: u64, new_term: u64) -> bool {
    new_leader != leader || new_term != term
}

/// The keys of a map, each once, in the map's own order.
fn keys_of<V>(m: &HashMap<u64, V>) -> (keys: Vec<u64>)
    ensures
        keys@.to_set() == m@.dom(),
        keys@.no_duplicates(),
{
    let ghost all = vstd::std_specs::hash::spec_keys_iter(m).remaining().unref();
    let mut keys: Vec<u64> = Vec::new();
    for k in it: m.keys()
        invariant
            it.seq().unref() == all,
            all.to_set() == m@.dom(),
            all.no_duplicates(),
            keys@ == all.take(it.index()),
    {
        keys.push(*k);
        proof {
            assert(all.take(it.index() + 1) =~= all.take(it.index()).push(*k));
        }
    }
    proof {
        assert(keys@ =~= all);
    }
    keys
}

/// Per-state collections of messages keyed by `u64`.
#[derive(Debug)]
pub struct MessageStore {
    messages_pending: HashMap<u64, MessagesPending>,
    messages_in_flight: HashMap<u64, MessagesInFlight>,
    messages_in_doubt: HashMap<u64, MessagesInDoubt>,
    messages_acked: HashMap<u64, MessagesAcked>,
}

impl View for MessageStore {
    type V = Map<u64, MessageState>;

    /// Every item with its state; an item lives in exactly one state's map.
    closed spec fn view(&self) -> Map<u64, MessageState> {
        Map::new(
            |k: u64|
                self.messages_pending@.contains_key(k) || self.messages_in_flight@.contains_key(k)
                    || self.messages_in_doubt@.contains_key(k) || self.messages_acked@.contains_key(k),
            |k: u64|
                if self.messages_pending@.contains_key(k) {
                    MessageState::Pending
                } else if self.messages_in_flight@.contains_key(k) {
                    MessageState::InFlight {
                        leader: self.messages_in_flight@[k].leader,
                        term: self.messages_in_flight@[k].term,
                    }
                } else if self.messages_in_doubt@.contains_key(k) {
                    MessageState::InDoubt {
                        prev_leader: self.messages_in_doubt@[k].prev_leader,
                        prev_term: self.messages_in_doubt@[k].prev_term,
                    }
                } else {
                    MessageState::Acked
                },
        )
    }
}

impl MessageStore {
    /// No key is in two states' maps at once.
    pub closed spec fn wf(&self) -> bool {
        &&& self.messages_pending@.dom().disjoint(self.messages_in_flight@.dom())
        &&& self.messages_pending@.dom().disjoint(self.messages_in_doubt@.dom())
        &&& self.messages_pending@.dom().disjoint(self.messages_acked@.dom())
        &&& self.messages_in_flight@.dom().disjoint(self.messages_in_doubt@.dom())
        &&& self.messages_in_flight@.dom().disjoint(self.messages_acked@.dom())
        &&& self.messages_in_doubt@.dom().disjoint(self.messages_acked@.dom())
    }

    proof fn lemma_state_sets(&self)
        requires
            self.wf(),
        ensures
            pending_keys(self@) == self.messages_pending@.dom(),
            in_flight_keys(self@) == self.messages_in_flight@.dom(),
            in_doubt_keys(self@) == self.messages_in_doubt@.dom(),
            acked_keys(self@) == self.messages_acked@.dom(),
            self@.dom() == self.messages_pending@.dom() + self.messages_in_flight@.dom()
                + self.messages_in_doubt@.dom() + self.messages_acked@.dom(),
    {
        assert(pending_keys(self@) =~= self.messages_pending@.dom());
        assert(in_flight_keys(self@) =~= self.messages_in_flight@.dom());
        assert(in_doubt_keys(self@) =~= self.messages_in_doubt@.dom());
        assert(acked_keys(self@) =~= self.messages_acked@.dom());
        assert(self@.dom() =~= self.messages_pending@.dom() + self.messages_in_flight@.dom()
            + self.messages_in_doubt@.dom() + self.messages_acked@.dom());
    }

    /// Creates an empty store.
    pub fn new() -> (s: Self)
        ensures
            s.wf(),
            s@ == Map::<u64, MessageState>::empty(),
    {
        let s = MessageStore {
            messages_pending: HashMap::new(),
            messages_in_flight: HashMap::new(),
            messages_in_doubt: HashMap::new(),
            messages_acked: HashMap::new(),
        };
        assert(s@ =~= Map::<u64, MessageState>::empty());
        s
    }

    /// Inserts a new item in the initial state `Pending`; a key that is
    /// already present, in any state, is refused and nothing changes.
    pub fn messages_insert(&mut self, key: u64) -> (inserted: bool)
        requires
            old(self).wf(),
        ensures
            final(self).wf(),
            inserted == !old(self)@.contains_key(key),
            inserted ==> final(self)@ == old(self)@.insert(key, MessageState::Pending),
            !inserted ==> final(self)@ == old(self)@,
    {
        if self.messages_contains(&key) {
            return false;
        }
        self.messages_pending.insert(key, MessagesPending);
        assert(self@ =~= old(self)@.insert(key, MessageState::Pending));
        true
    }

    /// Whether an item with this key exists, in any state.
    pub fn messages_contains(&self, key: &u64) -> (found: bool)
        ensures
            found == self@.contains_key(*key),
    {
        self.messages_pending.contains_key(key) || self.messages_in_flight.contains_key(key)
            || self.messages_in_doubt.contains_key(key) || self.messages_acked.contains_key(key)
    }

    /// Removes the item with this key from whatever state it is in.
    pub fn messages_remove(&mut self, key: &u64) -> (removed: bool)
        requires
            old(self).wf(),
        ensures
            final(self).wf(),
            removed == old(self)@.contains_key(*key),
            final(self)@ == old(self)@.remove(*key),
    {
        if self.messages_pending.remove(key).is_some() {
            assert(self@ =~= old(self)@.remove(*key));
            return true;
        }
        if self.messages_in_flight.remove(key).is_some() {
            assert(self@ =~= old(self)@.remove(*key));
            return true;
        }
        if self.messages_in_doubt.remove(key).is_some() {
            assert(self@ =~= old(self)@.remove(*key));
            return true;
        }
        if self.messages_acked.remove(key).is_some() {
            assert(self@ =~= old(self)@.remove(*key));
            return true;
        }
        assert(self@ =~= old(self)@.remove(*key));
        false
    }

    /// A well-formed store holds finitely many items, so its item count is
    /// the sum of the counts of its states and grows or shrinks by one with
    /// each insert or remove.
    pub broadcast proof fn lemma_keys_finite(&self)
        requires
            self.wf(),
        ensures
            #[trigger] self@.dom().finite(),
    {
        self.lemma_state_sets();
    }

    /// Number of items over all states.
    pub fn messages_len(&self) -> (n: usize)
        requires
            self.wf(),
            self@.dom().len() <= usize::MAX,
        ensures
            n == self@.dom().len(),
    {
        proof {
            self.lemma_state_sets();
            vstd::set_lib::lemma_set_disjoint_lens(self.messages_pending@.dom(), self.messages_in_flight@.dom());
            vstd::set_lib::lemma_set_disjoint_lens(
                self.messages_pending@.dom() + self.messages_in_flight@.dom(),
                self.messages_in_doubt@.dom(),
            );
            vstd::set_lib::lemma_set_disjoint_lens(
                self.messages_pending@.dom() + self.messages_in_flight@.dom() + self.messages_in_doubt@.dom(),
                self.messages_acked@.dom(),
            );
        }
        self.messages_pending.len() + self.messages_in_flight.len() + self.messages_in_doubt.len()
            + self.messages_acked.len()
    }

    /// A handle to the item with this key if it is in state `Pending`; the
    /// store is left as it is until a transition of the handle is taken.
    pub fn messages_pending(&mut self, key: &u64) -> (handle: Option<MessagesPendingHandle<'_>>)
        requires
            old(self).wf(),
        ensures
            handle is Some <==> old(self)@.contains_key(*key) && old(self)@[*key] is Pending,
            handle matches Some(h) ==> {
                &&& h.wf()
                &&& h.handle_key() == *key
                &&& h.before() == *old(self)
                &&& *final(self) == *final(h.store_ref())
            },
            handle is None ==> *final(self) == *old(self),
    {
        if self.messages_pending.contains_key(key) {
            Some(MessagesPendingHandle { store: self, key: *key })
        } else {
            None
        }
    }

    /// A handle to the item with this key if it is in state `InFlight`; the
    /// store is left as it is until a transition of the handle is taken.
    pub fn messages_in_flight(&mut self, key: &u64) -> (handle: Option<MessagesInFlightHandle<'_>>)
        requires
            old(self).wf(),
        ensures
            handle is Some <==> old(self)@.contains_key(*key) && old(self)@[*key] is InFlight,
            handle matches Some(h) ==> {
                &&& h.wf()
                &&& h.handle_key() == *key
                &&& h.before() == *old(self)
                &&& *final(self) == *final(h.store_ref())
            },
            handle is None ==> *final(self) == *old(self),
    {
        if self.messages_in_flight.contains_key(key) {
            Some(MessagesInFlightHandle { store: self, key: *key })
        } else {
            None
        }
    }

    /// A handle to the item with this key if it is in state `InDoubt`; the
    /// store is left as it is until a transition of the handle is taken.
    pub fn messages_in_doubt(&mut self, key: &u64) -> (handle: Option<MessagesInDoubtHandle<'_>>)
        requires
            old(self).wf(),
        ensures
            handle is Some <==> old(self)@.contains_key(*key) && old(self)@[*key] is InDoubt,
            handle matches Some(h) ==> {
                &&& h.wf()
                &&& h.handle_key() == *key
                &&& h.before() == *old(self)
                &&& *final(self) == *final(h.store_ref())
            },
            handle is None ==> *final(self) == *old(self),
    {
        if self.messages_in_doubt.contains_key(key) {
            Some(MessagesInDoubtHandle { store: self, key: *key })
        } else {
            None
        }
    }

    /// A handle to the item with this key if it is in state `Acked`; the
    /// store is left as it is until a transition of the handle is taken.
    pub fn messages_acked(&mut self, key: &u64) -> (handle: Option<MessagesAckedHandle<'_>>)
        requires
            old(self).wf(),
        ensures
            handle is Some <==> old(self)@.contains_key(*key) && old(self)@[*key] is Acked,
            handle matches Some(h) ==> {
                &&& h.wf()
                &&& h.handle_key() == *key
                &&& h.before() == *old(self)
                &&& *final(self) == *final(h.store_ref())
            },
            handle is None ==> *final(self) == *old(self),
    {
        if self.messages_acked.contains_key(key) {
            Some(MessagesAckedHandle { store: self, key: *key })
        } else {
            None
        }
    }

    /// Number of items in state `Pending`.
    pub fn messages_pending_len(&self) -> (n: usize)
        requires
            self.wf(),
        ensures
            n == pending_keys(self@).len(),
    {
        proof { self.lemma_state_sets(); }
        self.messages_pending.len()
    }

    /// Number of items in state `InFlight`.
    pub fn messages_in_flight_len(&self) -> (n: usize)
        requires
            self.wf(),
        ensures
            n == in_flight_keys(self@).len(),
    {
        proof { self.lemma_state_sets(); }
        self.messages_in_flight.len()
    }

    /// Number of items in state `InDoubt`.
    pub fn messages_in_doubt_len(&self) -> (n: usize)
        requires
            self.wf(),
        ensures
            n == in_doubt_keys(self@).len(),
    {
        proof { self.lemma_state_sets(); }
        self.messages_in_doubt.len()
    }

    /// Keys of the items in state `Pending`, each once.
    pub fn messages_pending_keys(&self) -> (keys: Vec<u64>)
        requires
            self.wf(),
        ensures
            keys@.to_set() == pending_keys(self@),
            keys@.no_duplicates(),
    {
        proof { self.lemma_state_sets(); }
        keys_of(&self.messages_pending)
    }

    /// Keys of the items in state `InFlight`, each once.
    pub fn messages_in_flight_keys(&self) -> (keys: Vec<u64>)
        requires
            self.wf(),
        ensures
            keys@.to_set() == in_flight_keys(self@),
            keys@.no_duplicates(),
    {
        proof { self.lemma_state_sets(); }
        keys_of(&self.messages_in_flight)
    }

    /// Keys of the items in state `InDoubt`, each once.
    pub fn messages_in_doubt_keys(&self) -> (keys: Vec<u64>)
        requires
            self.wf(),
        ensures
            keys@.to_set() == in_doubt_keys(self@),
            keys@.no_duplicates(),
    {
        proof { self.lemma_state_sets(); }
        keys_of(&self.messages_in_doubt)
    }

    /// Keys of the items in state `Acked`, each once.
    pub fn messages_acked_keys(&self) -> (keys: Vec<u64>)
        requires
            self.wf(),
        ensures
            keys@.to_set() == acked_keys(self@),
            keys@.no_duplicates(),
    {
        proof { self.lemma_state_sets(); }
        keys_of(&self.messages_acked)
    }

    /// Number of items in state `Acked`.
    pub fn messages_acked_len(&self) -> (n: usize)
        requires
            self.wf(),
        ensures
            n == acked_keys(self@).len(),
    {
        proof { self.lemma_state_sets(); }
        self.messages_acked.len()
    }
}

/// A handle to one item in state `Pending` of a [`MessageStore`].
pub struct MessagesPendingHandle<'a> {
    store: &'a mut MessageStore,
    key: u64,
}

impl<'a> MessagesPendingHandle<'a> {
    /// The store the handle points into.
    pub closed spec fn store_ref(&self) -> &'a mut MessageStore {
        self.store
    }

    /// The store as it is while the handle is held.
    pub closed spec fn before(&self) -> MessageStore {
        *self.store
    }

    /// The key of the item.
    pub closed spec fn handle_key(&self) -> u64 {
        self.key
    }

    /// The item is in state `Pending` of a well-formed store.
    pub open spec fn wf(&self) -> bool {
        &&& self.before().wf()
        &&& self.before()@.contains_key(self.handle_key())
        &&& self.before()@[self.handle_key()] is Pending
    }

    /// A handle that is given up without a transition leaves the store as it was.
    pub broadcast proof fn lemma_released(self)
        requires
            has_resolved(self),
        ensures
            #[trigger] has_resolved(self) ==> *final(self.store_ref()) == self.before(),
    {
    }

    /// The key of the item.
    pub fn key(&self) -> (k: &u64)
        ensures
            *k == self.handle_key(),
    {
        &self.key
    }

    /// Pending -> InFlight, with the given leader and term.
    pub fn mark_in_flight(self, leader: u64, term: u64) -> (r: Result<(), MessageStoreError>)
        requires
            self.wf(),
        ensures
            r is Ok,
            final(self.store_ref()).wf(),
            final(self.store_ref())@ == self.before()@.insert(self.handle_key(), MessageState::InFlight { leader, term }),
    {
        let key = self.key;
        let store = self.store;
        let ghost pre = store@;
        store.messages_pending.remove(&key);
        store.messages_in_flight.insert(key, MessagesInFlight { leader, term });
        assert(store@ =~= pre.insert(key, MessageState::InFlight { leader, term }));
        Ok(())
    }
}

/// A handle to one item in state `InFlight` of a [`MessageStore`].
pub struct MessagesInFlightHandle<'a> {
    store: &'a mut MessageStore,
    key: u64,
}

impl<'a> MessagesInFlightHandle<'a> {
    /// The store the handle points into.
    pub closed spec fn store_ref(&self) -> &'a mut MessageStore {
        self.store
    }

    /// The store as it is while the handle is held.
    pub closed spec fn before(&self) -> MessageStore {
        *self.store
    }

    /// The key of the item.
    pub closed spec fn handle_key(&self) -> u64 {
        self.key
    }

    /// The item is in state `InFlight` of a well-formed store.
    pub open spec fn wf(&self) -> bool {
        &&& self.before().wf()
        &&& self.before()@.contains_key(self.handle_key())
        &&& self.before()@[self.handle_key()] is InFlight
    }

    /// A handle that is given up without a transition leaves the store as it was.
    pub broadcast proof fn lemma_released(self)
        requires
            has_resolved(self),
        ensures
            #[trigger] has_resolved(self) ==> *final(self.store_ref()) == self.before(),
    {
    }

    /// The key of the item.
    pub fn key(&self) -> (k: &u64)
        ensures
            *k == self.handle_key(),
    {
        &self.key
    }

    /// Field `leader` of the item.
    pub fn leader(&self) -> (v: &u64)
        requires
            self.wf(),
        ensures
            *v == self.before()@[self.handle_key()]->leader,
    {
        &self.store.messages_in_flight.get(&self.key).unwrap().leader
    }

    /// Field `term` of the item.
    pub fn term(&self) -> (v: &u64)
        requires
            self.wf(),
        ensures
            *v == self.before()@[self.handle_key()]->term,
    {
        &self.store.messages_in_flight.get(&self.key).unwrap().term
    }

    /// InFlight -> InDoubt, recording the leadership the item was in flight
    /// with; refused with `GuardFailed`, and nothing changes, unless the given
    /// leader or term differs from the item's.
    pub fn mark_in_doubt(self, new_leader: u64, new_term: u64) -> (r: Result<(), MessageStoreError>)
        requires
            self.wf(),
        ensures
            ({
                let cur = self.before()@[self.handle_key()];
                &&& final(self.store_ref()).wf()
                &&& r is Ok <==> leadership_changed(cur->leader, cur->term, new_leader, new_term)
                &&& r is Err ==> r == Err::<(), MessageStoreError>(MessageStoreError::GuardFailed)
                &&& r is Ok ==> final(self.store_ref())@ == self.before()@.insert(
                    self.handle_key(),
                    MessageState::InDoubt { prev_leader: cur->leader, prev_term: cur->term },
                )
                &&& r is Err ==> final(self.store_ref())@ == self.before()@
            }),
    {
        let key = self.key;
        let store = self.store;
        let ghost pre = store@;
        let item = *store.messages_in_flight.get(&key).unwrap();
        if !(new_leader != item.leader || new_term != item.term) {
            return Err(MessageStoreError::GuardFailed);
        }
        store.messages_in_flight.remove(&key);
        store.messages_in_doubt.insert(
            key,
            MessagesInDoubt { prev_leader: item.leader, prev_term: item.term },
        );
        assert(store@ =~= pre.insert(
            key,
            MessageState::InDoubt { prev_leader: item.leader, prev_term: item.term },
        ));
        Ok(())
    }

    /// InFlight -> Acked.
    pub fn ack(self) -> (r: Result<(), MessageStoreError>)
        requires
            self.wf(),
        ensures
            r is Ok,
            final(self.store_ref()).wf(),
            final(self.store_ref())@ == self.before()@.insert(self.handle_key(), MessageState::Acked),
    {
        let key = self.key;
        let store = self.store;
        let ghost pre = store@;
        store.messages_in_flight.remove(&key);
        store.messages_acked.insert(key, MessagesAcked);
        assert(store@ =~= pre.insert(key, MessageState::Acked));
        Ok(())
    }

    /// InFlight -> Pending: the item goes back to be sent again.
    pub fn nack(self) -> (r: Result<(), MessageStoreError>)
        requires
            self.wf(),
        ensures
            r is Ok,
            final(self.store_ref()).wf(),
            final(self.store_ref())@ == self.before()@.insert(self.handle_key(), MessageState::Pending),
    {
        let key = self.key;
        let store = self.store;
        let ghost pre = store@;
        store.messages_in_flight.remove(&key);
        store.messages_pending.insert(key, MessagesPending);
        assert(store@ =~= pre.insert(key, MessageState::Pending));
        Ok(())
    }
}

/// A handle to one item in state `InDoubt` of a [`MessageStore`].
pub struct MessagesInDoubtHandle<'a> {
    store: &'a mut MessageStore,
    key: u64,
}

impl<'a> MessagesInDoubtHandle<'a> {
    /// The store the handle points into.
    pub closed spec fn store_ref(&self) -> &'a mut MessageStore {
        self.store
    }

    /// The store as it is while the handle is held.
    pub closed spec fn before(&self) -> MessageStore {
        *self.store
    }

    /// The key of the item.
    pub closed spec fn handle_key(&self) -> u64 {
        self.key
    }

    /// The item is in state `InDoubt` of a well-formed store.
    pub open spec fn wf(&self) -> bool {
        &&& self.before().wf()
        &&& self.before()@.contains_key(self.handle_key())
        &&& self.before()@[self.handle_key()] is InDoubt
    }

    /// A handle that is given up without a transition leaves the store as it was.
    pub broadcast proof fn lemma_released(self)
        requires
            has_resolved(self),
        ensures
            #[trigger] has_resolved(self) ==> *final(self.store_ref()) == self.before(),
    {
    }

    /// The key of the item.
    pub fn key(&self) -> (k: &u64)
        ensures
            *k == self.handle_key(),
    {
        &self.key
    }

    /// Field `prev_leader` of the item.
    pub fn prev_leader(&self) -> (v: &u64)
        requires
            self.wf(),
        ensures
            *v == self.before()@[self.handle_key()]->prev_leader,
    {
        &self.store.messages_in_doubt.get(&self.key).unwrap().prev_leader
    }

    /// Field `prev_term` of the item.
    pub fn prev_term(&self) -> (v: &u64)
        requires
            self.wf(),
        ensures
            *v == self.before()@[self.handle_key()]->prev_term,
    {
        &self.store.messages_in_doubt.get(&self.key).unwrap().prev_term
    }
}

/// A handle to one item in state `Acked` of a [`MessageStore`].
pub struct MessagesAckedHandle<'a> {
    store: &'a mut MessageStore,
    key: u64,
}

impl<'a> MessagesAckedHandle<'a> {
    /// The store the handle points into.
    pub closed spec fn store_ref(&self) -> &'a mut MessageStore {
        self.store
    }

    /// The store as it is while the handle is held.
    pub closed spec fn before(&self) -> MessageStore {
        *self.store
    }

    /// The key of the item.
    pub closed spec fn handle_key(&self) -> u64 {
        self.key
    }

    /// The item is in state `Acked` of a well-formed store.
    pub open spec fn wf(&self) -> bool {
        &&& self.before().wf()
        &&& self.before()@.contains_key(self.handle_key())
        &&& self.before()@[self.handle_key()] is Acked
    }

    /// A handle that is given up without a transition leaves the store as it was.
    pub broadcast proof fn lemma_released(self)
        requires
            has_resolved(self),
        ensures
            #[trigger] has_resolved(self) ==> *final(self.store_ref()) == self.before(),
    {
    }

    /// The key of the item.
    pub fn key(&self) -> (k: &u64)
        ensures
            *k == self.handle_key(),
    {
        &self.key
    }
}

/// Brings into scope that a handle given up without a transition leaves the
/// store as it was, and that a store holds finitely many items.
pub broadcast group group_message_store_handles {
    MessageStore::lemma_keys_finite,
    MessagesPendingHandle::lemma_released,
    MessagesInFlightHandle::lemma_released,
    MessagesInDoubtHandle::lemma_released,
    MessagesAckedHandle::lemma_released,
}

impl Default for MessageStore {
    /// An empty store.
    fn default() -> (s: Self)
        ensures
            s.wf(),
            s@ == Map::<u64, MessageState>::empty(),
    {
        MessageStore::new()
    }
}

} // verus!
