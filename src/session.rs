use vstd::prelude::*;

use crate::random::{now_unix_seconds, random_session_id};
use crate::search::{first_index, lemma_first_index_absent, lemma_first_index_found, lemma_first_index_spec};
use crate::text::all_lower_hex;
use crate::verification::expiry;

verus! {

/// What a session records: whose it is and when it began.
#[derive(Debug, Clone, Copy, PartialEq, Eq, Structural)]
pub struct SessionData {
    pub account_uid: u128,
    pub created_at: i64,
}

/// One key of the session cache, with the moment it expires.
#[derive(Debug)]
pub struct SessionEntry {
    pub key: String,
    pub data: SessionData,
    pub expires_at: i64,
}

/// The session cache: keys under a prefix, each with a time to live. A key
/// that is missing or expired means "not authenticated".
#[derive(Debug)]
pub struct SessionStore {
    pub entries: Vec<SessionEntry>,
    pub ttl_seconds: u64,
    pub key_prefix: String,
}

/// The cache key of a session id.
pub open spec fn session_key(prefix: Seq<char>, session_id: Seq<char>) -> Seq<char> {
    prefix + ":session:"@ + session_id
}

pub open spec fn with_key(key: Seq<char>) -> spec_fn(SessionEntry) -> bool {
    |e: SessionEntry| e.key@ == key
}

/// What a read of `key` at time `now` gives.
pub open spec fn session_at(es: Seq<SessionEntry>, key: Seq<char>, now: i64) -> Option<SessionData> {
    match first_index(es, with_key(key)) {
        Some(i) => if now < es[i].expires_at {
            Some(es[i].data)
        } else {
            None
        },
        None => None,
    }
}

/// The entries once `key` is removed.
pub open spec fn without_key(es: Seq<SessionEntry>, key: Seq<char>) -> Seq<SessionEntry> {
    match first_index(es, with_key(key)) {
        Some(i) => es.remove(i),
        None => es,
    }
}

/// `after` is `before` with `key` replaced by a session of `account_uid` begun at
/// `now` and living `ttl` seconds.
pub open spec fn created(
    before: Seq<SessionEntry>,
    after: Seq<SessionEntry>,
    key: Seq<char>,
    account_uid: u128,
    now: i64,
    ttl: u64,
) -> bool {
    let rest = without_key(before, key);
    &&& after.len() == rest.len() + 1
    &&& after.drop_last() == rest
    &&& after.last().key@ == key
    &&& after.last().data == SessionData { account_uid, created_at: now }
    &&& after.last().expires_at == expiry(now, ttl)
}

pub open spec fn keys_unique(es: Seq<SessionEntry>) -> bool {
    forall|i: int, j: int| 0 <= i < j < es.len() ==> #[trigger] es[i].key@ != #[trigger] es[j].key@
}

proof fn lemma_without_key(es: Seq<SessionEntry>, key: Seq<char>)
    requires
        keys_unique(es),
    ensures
        keys_unique(without_key(es, key)),
        forall|j: int| 0 <= j < without_key(es, key).len() ==> #[trigger] without_key(es, key)[j].key@ != key,
        forall|k: Seq<char>| k != key ==> first_index(without_key(es, key), with_key(k)) == {
            match first_index(es, with_key(k)) {
                Some(i) => match first_index(es, with_key(key)) {
                    Some(d) => if i < d { Some(i) } else { Some(i - 1) },
                    None => Some(i),
                },
                None => None,
            }
        },
{
    lemma_first_index_spec(es, with_key(key));
    let w = without_key(es, key);
    assert forall|k: Seq<char>| k != key implies first_index(w, with_key(k)) == {
        match first_index(es, with_key(k)) {
            Some(i) => match first_index(es, with_key(key)) {
                Some(d) => if i < d { Some(i) } else { Some(i - 1) },
                None => Some(i),
            },
            None => None,
        }
    } by {
        lemma_first_index_spec(es, with_key(k));
        lemma_first_index_spec(w, with_key(k));
        match first_index(es, with_key(key)) {
            Some(d) => {
                match first_index(es, with_key(k)) {
                    Some(i) => {
                        if i < d {
                            lemma_first_index_found(w, with_key(k), i);
                        } else {
                            assert(i != d);
                            lemma_first_index_found(w, with_key(k), i - 1);
                        }
                    },
                    None => {
                        lemma_first_index_absent(w, with_key(k));
                    },
                }
            },
            None => {},
        }
    }
}

impl SessionStore {
    pub open spec fn wf(&self) -> bool {
        keys_unique(self.entries@)
    }

    /// An empty cache whose sessions live `ttl_seconds` under `key_prefix`.
    pub fn new(ttl_seconds: u64, key_prefix: String) -> (r: SessionStore)
        ensures
            r.wf(),
            r.entries@.len() == 0,
            r.ttl_seconds == ttl_seconds,
            r.key_prefix == key_prefix,
    {
        SessionStore { entries: Vec::new(), ttl_seconds, key_prefix }
    }

    /// The namespaced cache key of a session id.
    pub fn key(&self, session_id: &str) -> (r: String)
        ensures
            r@ == session_key(self.key_prefix@, session_id@),
    {
        let mut k = self.key_prefix.clone();
        k.append(":session:");
        k.append(session_id);
        k
    }

    fn position(&self, key: &String) -> (r: Option<usize>)
        ensures
            r matches Some(i) ==> first_index(self.entries@, with_key(key@)) == Some(i as int),
            r is None ==> first_index(self.entries@, with_key(key@)) is None,
    {
        let ghost p = with_key(key@);
        let mut i: usize = 0;
        while i < self.entries.len()
            invariant
                i <= self.entries@.len(),
                p == with_key(key@),
                forall|j: int| 0 <= j < i ==> !p(#[trigger] self.entries@[j]),
            decreases self.entries@.len() - i,
        {
            if self.entries[i].key == *key {
                proof {
                    lemma_first_index_found(self.entries@, p, i as int);
                }
                return Some(i);
            }
            i = i + 1;
        }
        proof {
            lemma_first_index_absent(self.entries@, p);
        }
        None
    }

    fn remove_key(&mut self, key: &String)
        requires
            old(self).wf(),
        ensures
            final(self).wf(),
            final(self).entries@ == without_key(old(self).entries@, key@),
            final(self).ttl_seconds == old(self).ttl_seconds,
            final(self).key_prefix == old(self).key_prefix,
    {
        proof {
            lemma_without_key(self.entries@, key@);
        }
        match self.position(key) {
            Some(i) => {
                self.entries.remove(i);
            },
            None => {},
        }
    }

    /// Stores a session under the given id at time `now`; it expires after the
    /// cache's time to live. The id is returned for use as a bearer token.
    pub fn create_at(&mut self, session_id: &str, account_uid: u128, now: i64) -> (r: String)
        requires
            old(self).wf(),
        ensures
            final(self).wf(),
            r@ == session_id@,
            final(self).ttl_seconds == old(self).ttl_seconds,
            final(self).key_prefix == old(self).key_prefix,
            created(
                old(self).entries@,
                final(self).entries@,
                session_key(old(self).key_prefix@, session_id@),
                account_uid,
                now,
                old(self).ttl_seconds,
            ),
    {
        let key = self.key(session_id);
        proof {
            lemma_without_key(self.entries@, key@);
        }
        self.remove_key(&key);
        let ghost rest = self.entries@;
        let sum: i128 = now as i128 + self.ttl_seconds as i128;
        let expires_at: i64 = if sum > i64::MAX as i128 {
            i64::MAX
        } else {
            sum as i64
        };
        self.entries.push(
            SessionEntry { key, data: SessionData { account_uid, created_at: now }, expires_at },
        );
        assert(self.entries@.drop_last() =~= rest);
        session_id.to_string()
    }

    /// Starts a session for an account now, under a fresh random id.
    pub fn create(&mut self, account_uid: u128) -> (r: String)
        requires
            old(self).wf(),
        ensures
            final(self).wf(),
            final(self).ttl_seconds == old(self).ttl_seconds,
            final(self).key_prefix == old(self).key_prefix,
            r@.len() == 32,
            all_lower_hex(r@),
            exists|now: i64|
                #[trigger] created(
                    old(self).entries@,
                    final(self).entries@,
                    session_key(old(self).key_prefix@, r@),
                    account_uid,
                    now,
                    old(self).ttl_seconds,
                ),
    {
        let id = random_session_id();
        let now = now_unix_seconds();
        self.create_at(id.as_str(), account_uid, now)
    }

    /// The session under this id at time `now`; a missing or expired key
    /// gives `None`.
    pub fn get_at(&self, session_id: &str, now: i64) -> (r: Option<SessionData>)
        ensures
            r == session_at(self.entries@, session_key(self.key_prefix@, session_id@), now),
    {
        let key = self.key(session_id);
        match self.position(&key) {
            Some(i) => {
                if now < self.entries[i].expires_at {
                    Some(self.entries[i].data)
                } else {
                    None
                }
            },
            None => None,
        }
    }

    /// The session under this id now.
    pub fn get(&self, session_id: &str) -> (r: Option<SessionData>)
        ensures
            exists|now: i64|
                r == session_at(self.entries@, session_key(self.key_prefix@, session_id@), now),
    {
        let now = now_unix_seconds();
        self.get_at(session_id, now)
    }

    /// Removes the session under this id; removing a missing one is no error.
    pub fn delete(&mut self, session_id: &str)
        requires
            old(self).wf(),
        ensures
            final(self).wf(),
            final(self).entries@ == without_key(
                old(self).entries@,
                session_key(old(self).key_prefix@, session_id@),
            ),
            final(self).ttl_seconds == old(self).ttl_seconds,
            final(self).key_prefix == old(self).key_prefix,
    {
        let key = self.key(session_id);
        self.remove_key(&key);
    }
}

} // verus!
