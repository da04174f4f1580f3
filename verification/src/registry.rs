//! The session registry: a map from session identifier to session record.

use vstd::prelude::*;
use vstd::string::*;
use crate::errors::SessionError;

verus! {

/// One connected remote shell.
///
/// `C` is the channel handle of the transport in use. The registry never looks
/// inside it; it only hands it out and takes it back.
pub struct SshSession<C> {
    /// Identifier that the caller chose.
    pub id: String,
    /// The channel, owned by this record alone.
    pub channel: Option<C>,
    /// Connectivity flag. Once `false` it is never set again.
    pub is_connected: bool,
    /// Whether an output-streaming task has been started for this record.
    pub streaming: bool,
}

/// Whether `k` is one of `keys`.
pub open spec fn holds(keys: Seq<String>, k: Seq<char>) -> bool {
    exists|i: int| 0 <= i < keys.len() && (#[trigger] keys[i])@ == k
}

spec fn position(keys: Seq<String>, k: Seq<char>) -> int {
    choose|i: int| 0 <= i < keys.len() && (#[trigger] keys[i])@ == k
}

/// No two of `keys` are the same.
pub open spec fn distinct(keys: Seq<String>) -> bool {
    forall|i: int, j: int| 0 <= i < j < keys.len() ==> (#[trigger] keys[i])@ != (#[trigger] keys[j])@
}

spec fn keyed<C>(keys: Seq<String>, records: Seq<SshSession<C>>) -> Map<
    Seq<char>,
    SshSession<C>,
> {
    Map::new(|k: Seq<char>| holds(keys, k), |k: Seq<char>| records[position(keys, k)])
}

proof fn lemma_keyed_at<C>(keys: Seq<String>, records: Seq<SshSession<C>>, i: int)
    requires
        distinct(keys),
        0 <= i < keys.len(),
    ensures
        holds(keys, keys[i]@),
        position(keys, keys[i]@) == i,
        keyed(keys, records).contains_key(keys[i]@),
        keyed(keys, records)[keys[i]@] == records[i],
{
    let p = position(keys, keys[i]@);
    assert(0 <= p < keys.len() && keys[p]@ == keys[i]@);
}

proof fn lemma_keyed_push<C>(
    keys: Seq<String>,
    records: Seq<SshSession<C>>,
    key: String,
    record: SshSession<C>,
)
    requires
        distinct(keys),
        keys.len() == records.len(),
        !holds(keys, key@),
    ensures
        distinct(keys.push(key)),
        keyed(keys.push(key), records.push(record)) == keyed(keys, records).insert(key@, record),
{
    let grown = keys.push(key);
    assert forall|i: int, j: int| 0 <= i < j < grown.len() implies (#[trigger] grown[i])@ != (
    #[trigger] grown[j])@ by {
        if j == keys.len() {
            assert(keys[i]@ != key@);
        }
    }
    assert forall|k: Seq<char>| holds(grown, k) <==> (k == key@ || holds(keys, k)) by {
        if holds(grown, k) {
            let p = position(grown, k);
            assert(p < keys.len() ==> keys[p]@ == k);
        }
        if holds(keys, k) {
            let p = position(keys, k);
            assert(grown[p]@ == k);
        }
        if k == key@ {
            assert(grown[keys.len() as int]@ == k);
        }
    }
    assert forall|k: Seq<char>| holds(grown, k) implies #[trigger] keyed(
        grown,
        records.push(record),
    )[k] == keyed(keys, records).insert(key@, record)[k] by {
        let p = position(grown, k);
        lemma_keyed_at(grown, records.push(record), p);
        if p < keys.len() {
            lemma_keyed_at(keys, records, p);
        }
    }
}

proof fn lemma_keyed_update<C>(
    keys: Seq<String>,
    records: Seq<SshSession<C>>,
    i: int,
    record: SshSession<C>,
)
    requires
        distinct(keys),
        keys.len() == records.len(),
        0 <= i < keys.len(),
    ensures
        keyed(keys, records.update(i, record)) == keyed(keys, records).insert(keys[i]@, record),
{
    lemma_keyed_at(keys, records, i);
    assert forall|k: Seq<char>| holds(keys, k) implies #[trigger] keyed(
        keys,
        records.update(i, record),
    )[k] == keyed(keys, records).insert(keys[i]@, record)[k] by {
        let p = position(keys, k);
        lemma_keyed_at(keys, records, p);
    }
    assert(keyed(keys, records.update(i, record)) =~= keyed(keys, records).insert(
        keys[i]@,
        record,
    ));
}

proof fn lemma_keyed_remove<C>(keys: Seq<String>, records: Seq<SshSession<C>>, i: int)
    requires
        distinct(keys),
        keys.len() == records.len(),
        0 <= i < keys.len(),
    ensures
        distinct(keys.remove(i)),
        keyed(keys.remove(i), records.remove(i)) == keyed(keys, records).remove(keys[i]@),
{
    let fewer = keys.remove(i);
    let gone = keys[i]@;
    assert forall|a: int, b: int| 0 <= a < b < fewer.len() implies (#[trigger] fewer[a])@ != (
    #[trigger] fewer[b])@ by {
        let a0 = if a < i { a } else { a + 1 };
        let b0 = if b < i { b } else { b + 1 };
        assert(keys[a0]@ != keys[b0]@);
    }
    assert forall|k: Seq<char>| holds(fewer, k) <==> (k != gone && holds(keys, k)) by {
        if holds(fewer, k) {
            let p = position(fewer, k);
            let p0 = if p < i { p } else { p + 1 };
            assert(keys[p0]@ == k && p0 != i);
        }
        if k != gone && holds(keys, k) {
            let p = position(keys, k);
            let q = if p < i { p } else { p - 1 };
            assert(fewer[q]@ == k);
        }
    }
    assert forall|k: Seq<char>| holds(fewer, k) implies #[trigger] keyed(
        fewer,
        records.remove(i),
    )[k] == keyed(keys, records).remove(gone)[k] by {
        let p = position(fewer, k);
        let p0 = if p < i { p } else { p + 1 };
        lemma_keyed_at(fewer, records.remove(i), p);
        lemma_keyed_at(keys, records, p0);
    }
}

/// The registry of sessions.
///
/// It maps each identifier to at most one record. Callers share one registry
/// behind a lock of their own; every operation here runs to completion on the
/// registry it was given and never waits on the network.
pub struct SshManager<C> {
    keys: Vec<String>,
    records: Vec<SshSession<C>>,
}

impl<C> View for SshManager<C> {
    type V = Map<Seq<char>, SshSession<C>>;

    /// The registry as a map from identifier to record.
    closed spec fn view(&self) -> Map<Seq<char>, SshSession<C>> {
        keyed(self.keys@, self.records@)
    }
}

impl<C> SshManager<C> {
    #[verifier::type_invariant]
    spec fn well_formed(self) -> bool {
        distinct(self.keys@) && self.keys@.len() == self.records@.len()
    }

    /// An empty registry.
    pub fn new() -> (manager: Self)
        ensures
            manager@ == Map::<Seq<char>, SshSession<C>>::empty(),
    {
        let manager = SshManager { keys: Vec::new(), records: Vec::new() };
        manager
    }

    fn find(&self, key: &String) -> (found: Option<usize>)
        ensures
            match found {
                Some(i) => i < self.keys@.len() && self.keys@[i as int]@ == key@,
                None => !holds(self.keys@, key@),
            },
    {
        let mut i: usize = 0;
        while i < self.keys.len()
            invariant
                i <= self.keys@.len(),
                forall|k: int| 0 <= k < i ==> (#[trigger] self.keys@[k])@ != key@,
            decreases self.keys@.len() - i,
        {
            if self.keys[i] == *key {
                return Some(i);
            }
            i += 1;
        }
        None
    }

    /// Whether a record exists under `session_id`.
    pub fn contains(&self, session_id: &str) -> (found: bool)
        ensures
            found == self@.contains_key(session_id@),
    {
        let key = String::from_str(session_id);
        self.find(&key).is_some()
    }

    /// The record under `session_id`.
    pub fn get(&self, session_id: &str) -> (found: Result<&SshSession<C>, SessionError>)
        ensures
            found == if self@.contains_key(session_id@) {
                Ok::<&SshSession<C>, SessionError>(&self@[session_id@])
            } else {
                Err(SessionError::NotFound)
            },
    {
        let key = String::from_str(session_id);
        match self.find(&key) {
            Some(i) => {
                proof {
                    use_type_invariant(self);
                    lemma_keyed_at(self.keys@, self.records@, i as int);
                }
                Ok(&self.records[i])
            },
            None => Err(SessionError::NotFound),
        }
    }

    /// The record under `session_id`, for the caller to change in place.
    /// Whatever the caller leaves in it is what the registry holds under
    /// `session_id` afterwards; no other entry changes.
    pub fn get_mut(&mut self, session_id: &str) -> (found: Result<
        &mut SshSession<C>,
        SessionError,
    >)
        ensures
            match found {
                Ok(record) => old(self)@.contains_key(session_id@) && *record == old(
                    self,
                )@[session_id@] && final(self)@ == old(self)@.insert(session_id@, *final(record)),
                Err(e) => e == SessionError::NotFound && !old(self)@.contains_key(session_id@)
                    && final(self)@ == old(self)@,
            },
    {
        proof {
            use_type_invariant(&*self);
        }
        let key = String::from_str(session_id);
        match self.find(&key) {
            Some(i) => {
                proof {
                    lemma_keyed_at(self.keys@, self.records@, i as int);
                }
                let record = &mut self.records[i];
                proof {
                    lemma_keyed_update(
                        old(self).keys@,
                        old(self).records@,
                        i as int,
                        *final(record),
                    );
                }
                Ok(record)
            },
            None => Err(SessionError::NotFound),
        }
    }

    /// Whether a record exists under `session_id` and is connected.
    pub fn is_connected(&self, session_id: &str) -> (connected: bool)
        ensures
            connected == (self@.contains_key(session_id@) && self@[session_id@].is_connected),
    {
        match self.get(session_id) {
            Ok(record) => record.is_connected,
            Err(_) => false,
        }
    }

    /// Stores `record` under `session_id`, replacing any record that was
    /// there. The replaced record is handed back so that its channel can be
    /// closed.
    pub fn insert(&mut self, session_id: String, record: SshSession<C>) -> (replaced: Option<
        SshSession<C>,
    >)
        ensures
            final(self)@ == old(self)@.insert(session_id@, record),
            replaced == if old(self)@.contains_key(session_id@) {
                Some(old(self)@[session_id@])
            } else {
                None
            },
    {
        proof {
            use_type_invariant(&*self);
        }
        match self.find(&session_id) {
            Some(i) => {
                proof {
                    lemma_keyed_at(self.keys@, self.records@, i as int);
                    lemma_keyed_update(self.keys@, self.records@, i as int, record);
                }
                let mut slot = record;
                std::mem::swap(&mut self.records[i], &mut slot);
                Some(slot)
            },
            None => {
                proof {
                    lemma_keyed_push(self.keys@, self.records@, session_id, record);
                }
                let mut taken = SshManager { keys: Vec::new(), records: Vec::new() };
                std::mem::swap(self, &mut taken);
                let SshManager { mut keys, mut records } = taken;
                keys.push(session_id);
                records.push(record);
                *self = SshManager { keys, records };
                None
            },
        }
    }

    /// The identifiers of the connected sessions, each once, in no
    /// particular order.
    pub fn active_sessions(&self) -> (ids: Vec<String>)
        ensures
            distinct(ids@),
            forall|k: Seq<char>|
                holds(ids@, k) <==> (self@.contains_key(k) && self@[k].is_connected),
    {
        proof {
            use_type_invariant(self);
        }
        let mut ids: Vec<String> = Vec::new();
        let ghost mut picked: Seq<int> = Seq::empty();
        let mut i: usize = 0;
        while i < self.keys.len()
            invariant
                i <= self.keys@.len(),
                self.keys@.len() == self.records@.len(),
                distinct(self.keys@),
                picked.len() == ids@.len(),
                forall|j: int|
                    0 <= j < picked.len() ==> 0 <= (#[trigger] picked[j]) < i
                        && self.records@[picked[j]].is_connected && ids@[j]@
                        == self.keys@[picked[j]]@,
                forall|a: int, b: int|
                    0 <= a < b < picked.len() ==> (#[trigger] picked[a]) < (#[trigger] picked[b]),
                forall|n: int|
                    0 <= n < i && (#[trigger] self.records@[n]).is_connected ==> exists|j: int|
                        0 <= j < picked.len() && #[trigger] picked[j] == n,
            decreases self.keys@.len() - i,
        {
            if self.records[i].is_connected {
                let id = self.keys[i].clone();
                ids.push(id);
                proof {
                    let earlier = picked;
                    picked = picked.push(i as int);
                    assert forall|n: int|
                        0 <= n < i + 1 && (#[trigger] self.records@[n]).is_connected implies exists|
                        j: int,
                    |
                        0 <= j < picked.len() && #[trigger] picked[j] == n by {
                        if n < i {
                            let j = choose|j: int| 0 <= j < earlier.len() && #[trigger] earlier[j] == n;
                            assert(picked[j] == n);
                        } else {
                            assert(picked[earlier.len() as int] == n);
                        }
                    }
                }
            }
            i += 1;
        }
        proof {
            assert forall|a: int, b: int| 0 <= a < b < ids@.len() implies (#[trigger] ids@[a])@ != (
            #[trigger] ids@[b])@ by {
                assert(self.keys@[picked[a]]@ != self.keys@[picked[b]]@);
            }
            assert forall|k: Seq<char>|
                holds(ids@, k) <==> (self@.contains_key(k) && self@[k].is_connected) by {
                if holds(ids@, k) {
                    let j = choose|j: int| 0 <= j < ids@.len() && (#[trigger] ids@[j])@ == k;
                    lemma_keyed_at(self.keys@, self.records@, picked[j]);
                }
                if self@.contains_key(k) && self@[k].is_connected {
                    let n = position(self.keys@, k);
                    lemma_keyed_at(self.keys@, self.records@, n);
                    let j = choose|j: int| 0 <= j < picked.len() && #[trigger] picked[j] == n;
                    assert(ids@[j]@ == k);
                }
            }
        }
        ids
    }

    /// Ends the session under `session_id`: its record leaves the registry,
    /// marked as disconnected, and is handed to the caller, who closes the
    /// channel. Where no record exists nothing happens.
    pub fn disconnect(&mut self, session_id: &str) -> (released: Option<SshSession<C>>)
        ensures
            final(self)@ == old(self)@.remove(session_id@),
            released == if old(self)@.contains_key(session_id@) {
                Some(SshSession { is_connected: false, ..old(self)@[session_id@] })
            } else {
                None
            },
    {
        match self.remove(session_id) {
            Some(record) => {
                let mut record = record;
                record.is_connected = false;
                Some(record)
            },
            None => None,
        }
    }

    /// Takes the record under `session_id` out of the registry.
    pub fn remove(&mut self, session_id: &str) -> (removed: Option<SshSession<C>>)
        ensures
            final(self)@ == old(self)@.remove(session_id@),
            removed == if old(self)@.contains_key(session_id@) {
                Some(old(self)@[session_id@])
            } else {
                None
            },
    {
        proof {
            use_type_invariant(&*self);
        }
        let key = String::from_str(session_id);
        match self.find(&key) {
            Some(i) => {
                proof {
                    lemma_keyed_at(self.keys@, self.records@, i as int);
                    lemma_keyed_remove(self.keys@, self.records@, i as int);
                }
                let mut taken = SshManager { keys: Vec::new(), records: Vec::new() };
                std::mem::swap(self, &mut taken);
                let SshManager { mut keys, mut records } = taken;
                keys.remove(i);
                let record = records.remove(i);
                *self = SshManager { keys, records };
                Some(record)
            },
            None => {
                None
            },
        }
    }
}

} // verus!
