use vstd::prelude::*;

use crate::assoc::{
    distinct_names, lemma_lookup_at, lemma_with_entry, lemma_without_entry, lookup, with_entry,
    without_entry,
};
use crate::json::object_members;
use crate::record::{object_text, Record};

verus! {

/// Why reading a session failed. A failed read is never reported as "no session".
#[derive(PartialEq, Eq, Structural, Clone, Copy, Debug)]
pub enum StoreError {
    /// The persistent backend could not be reached or answered with an error.
    Backend,
    /// The stored text is not a JSON object.
    Deserialization,
}

/// The persistent backend could not be reached or answered with an error.
#[derive(PartialEq, Eq, Structural, Clone, Copy, Debug)]
pub struct BackendError;

/// A write for the persistent backend: store `text` under `key` and evict it
/// after `ttl_secs` seconds.
pub struct BackendWrite {
    pub key: String,
    pub text: String,
    pub ttl_secs: u64,
}

/// A record as the store models it: its members, in stored order.
pub type Members = Seq<(Seq<char>, Seq<char>)>;

/// The session store's process-local side: the last known record of each key.
///
/// Reads consult this cache first; writes update it before the backend sees
/// them, so this process reads its own writes at once.
pub struct SessionStore {
    cache: Vec<(String, Record)>,
}

impl SessionStore {
    /// The cached records by key, in stored order.
    pub closed spec fn entries(&self) -> Seq<(Seq<char>, Members)> {
        self.cache@.map_values(|e: (String, Record)| (e.0@, e.1.entries()))
    }

    /// Keys are unique and every cached record is well formed.
    pub closed spec fn wf(&self) -> bool {
        &&& distinct_names(self.entries())
        &&& forall|i: int| 0 <= i < self.cache@.len() ==> (#[trigger] self.cache@[i]).1.wf()
    }

    /// The cached record of `key`, if any.
    pub open spec fn cached(&self, key: Seq<char>) -> Option<Members> {
        lookup(self.entries(), key)
    }

    /// A store with an empty cache.
    pub fn new() -> (r: SessionStore)
        ensures
            r.wf(),
            r.entries() == Seq::<(Seq<char>, Members)>::empty(),
    {
        let r = SessionStore { cache: Vec::new() };
        assert(r.entries() =~= Seq::<(Seq<char>, Members)>::empty());
        r
    }

    fn position(&self, key: &String) -> (r: Option<usize>)
        ensures
            match r {
                Some(i) => i < self.entries().len() && self.entries()[i as int].0 == key@,
                None => forall|j: int|
                    0 <= j < self.entries().len() ==> (#[trigger] self.entries()[j]).0 != key@,
            },
    {
        let mut i: usize = 0;
        while i < self.cache.len()
            invariant
                i <= self.cache@.len(),
                self.entries().len() == self.cache@.len(),
                forall|j: int| 0 <= j < i ==> (#[trigger] self.entries()[j]).0 != key@,
            decreases self.cache@.len() - i,
        {
            if self.cache[i].0 == *key {
                return Some(i);
            }
            i = i + 1;
        }
        None
    }

    /// The cached record of `key`: the first step of a read. Where it is `None`
    /// the caller asks the backend and hands its answer to `load`.
    pub fn get(&self, key: &str) -> (r: Option<Record>)
        requires
            self.wf(),
        ensures
            match r {
                Some(rec) => rec.wf() && self.cached(key@) == Some(rec.entries()),
                None => self.cached(key@) is None,
            },
    {
        let k = key.to_owned();
        match self.position(&k) {
            Some(i) => {
                proof {
                    lemma_lookup_at(self.entries(), i as int);
                }
                let rec = self.cache[i].1.duplicate();
                assert(rec.entries() == self.entries()[i as int].1);
                Some(rec)
            },
            None => None,
        }
    }

    /// Completes a read that missed the cache with the backend's answer: the
    /// stored text, `None` where the key is absent or expired, or an error.
    /// A record read successfully is cached; otherwise the cache is unchanged.
    pub fn load(&mut self, key: &str, reply: Result<Option<String>, BackendError>) -> (r: Result<
        Option<Record>,
        StoreError,
    >)
        requires
            old(self).wf(),
        ensures
            final(self).wf(),
            match reply {
                Err(_) => r == Err::<Option<Record>, StoreError>(StoreError::Backend)
                    && final(self).entries() == old(self).entries(),
                Ok(None) => r == Ok::<Option<Record>, StoreError>(None) && final(self).entries()
                    == old(self).entries(),
                Ok(Some(text)) => match object_members(text@) {
                    None => r == Err::<Option<Record>, StoreError>(StoreError::Deserialization)
                        && final(self).entries() == old(self).entries(),
                    Some(m) => match r {
                        Ok(Some(rec)) => rec.wf() && rec.entries() == m && final(self).entries()
                            == with_entry(old(self).entries(), key@, m),
                        _ => false,
                    },
                },
            },
    {
        match reply {
            Err(_) => Err(StoreError::Backend),
            Ok(None) => Ok(None),
            Ok(Some(text)) => match Record::parse(text.as_str()) {
                None => Err(StoreError::Deserialization),
                Some(rec) => {
                    let copy = rec.duplicate();
                    self.put(key.to_owned(), copy);
                    Ok(Some(rec))
                },
            },
        }
    }

    /// Caches `record` under `key`, replacing what was there.
    fn put(&mut self, key: String, record: Record)
        requires
            old(self).wf(),
            record.wf(),
        ensures
            final(self).wf(),
            final(self).entries() == with_entry(old(self).entries(), key@, record.entries()),
    {
        let ghost before = self.entries();
        let ghost kv = key@;
        let ghost rv = record.entries();
        match self.position(&key) {
            Some(i) => {
                proof {
                    lemma_lookup_at(before, i as int);
                }
                self.cache.set(i, (key, record));
            },
            None => {
                self.cache.push((key, record));
            },
        }
        assert(self.entries() =~= with_entry(before, kv, rv));
        proof {
            lemma_with_entry(before, kv, rv);
        }
    }

    /// Writes `record` under `key`: the cache is updated at once, and the write
    /// that the backend is to perform is returned, with the record's JSON text
    /// and the time-to-live `ttl_secs`.
    pub fn set(&mut self, key: String, record: Record, ttl_secs: u64) -> (w: BackendWrite)
        requires
            old(self).wf(),
            record.wf(),
        ensures
            final(self).wf(),
            final(self).entries() == with_entry(old(self).entries(), key@, record.entries()),
            w.key@ == key@,
            w.text@ == object_text(record.entries()),
            w.ttl_secs == ttl_secs,
    {
        let text = record.to_json();
        let k = key.clone();
        self.put(key, record);
        BackendWrite { key: k, text, ttl_secs }
    }

    /// Drops `key` from the cache; the caller then deletes it from the backend.
    /// Removing an absent key changes nothing.
    pub fn remove(&mut self, key: &str)
        requires
            old(self).wf(),
        ensures
            final(self).wf(),
            final(self).entries() == without_entry(old(self).entries(), key@),
    {
        let ghost before = self.entries();
        let k = key.to_owned();
        match self.position(&k) {
            Some(i) => {
                proof {
                    lemma_lookup_at(before, i as int);
                }
                self.cache.remove(i);
                assert(self.entries() =~= without_entry(before, key@));
            },
            None => {
                assert(self.entries() =~= without_entry(before, key@));
            },
        }
        proof {
            lemma_without_entry(before, key@);
        }
    }
}

/// A write followed by a read of the same key gives back the record written,
/// whatever its time-to-live: `set` leaves the cache as `with_entry` of the
/// record, and `get` then finds that record under the key.
pub proof fn set_then_get(store: SessionStore, key: Seq<char>, record: Record)
    requires
        store.wf(),
        record.wf(),
    ensures
        lookup(with_entry(store.entries(), key, record.entries()), key) == Some(record.entries()),
{
    lemma_with_entry(store.entries(), key, record.entries());
}

/// After a key is removed, a read of it finds nothing, whatever was there before.
pub proof fn remove_then_get(store: SessionStore, key: Seq<char>)
    requires
        store.wf(),
    ensures
        lookup(without_entry(store.entries(), key), key) is None,
{
    lemma_without_entry(store.entries(), key);
}

} // verus!
