//! The ETag cache that guards conditional fetches.
use vstd::prelude::*;

use crate::client::{
    cache_key, cache_key_spec, check_response, response_outcome_ok, status_class, StatusClass,
};
use crate::error::ApiError;
use crate::node_type::NodeType;

verus! {

/// The validator cached under `key` in `m`, if any.
pub open spec fn lookup(m: Map<Seq<char>, Seq<char>>, key: Seq<char>) -> Option<Seq<char>> {
    if m.contains_key(key) {
        Some(m[key])
    } else {
        None
    }
}

/// The cache `m` after a response with `status` and ETag header `etag` to a
/// conditional request under `key`: a 2xx response that carries an ETag
/// overwrites the entry; anything else, 304 included, leaves the cache as it
/// was.
pub open spec fn after_response(
    m: Map<Seq<char>, Seq<char>>,
    key: Seq<char>,
    status: u16,
    etag: Option<Seq<char>>,
) -> Map<Seq<char>, Seq<char>> {
    match etag {
        Some(e) => if status_class(status) == StatusClass::Success {
            m.insert(key, e)
        } else {
            m
        },
        None => m,
    }
}

/// A conditional fetch attaches the cached validator exactly when the key has
/// one; a 304 response is reported as not modified and leaves the cache as it
/// was; a 2xx response with an ETag makes that ETag the key's validator and
/// leaves every other key alone.
pub proof fn lemma_conditional_fetch(
    m: Map<Seq<char>, Seq<char>>,
    key: Seq<char>,
    status: u16,
    etag: Option<Seq<char>>,
)
    ensures
        !m.contains_key(key) ==> lookup(m, key) is None,
        m.contains_key(key) ==> lookup(m, key) == Some(m[key]),
        status == 304 ==> status_class(status) == StatusClass::NotModified && after_response(
            m,
            key,
            status,
            etag,
        ) == m,
        status_class(status) == StatusClass::Success && etag is Some ==> lookup(
            after_response(m, key, status, etag),
            key,
        ) == etag,
        forall|other: Seq<char>|
            other != key ==> lookup(#[trigger] after_response(m, key, status, etag), other)
                == lookup(m, other),
{
    assert forall|other: Seq<char>| other != key implies lookup(
        #[trigger] after_response(m, key, status, etag),
        other,
    ) == lookup(m, other) by {
        if etag is Some && status_class(status) == StatusClass::Success {
            assert(after_response(m, key, status, etag) == m.insert(key, etag->0));
        }
    }
}

/// Once the cache is cleared no key has a validator, whatever it held.
pub proof fn lemma_cleared_cache_forgets(key: Seq<char>)
    ensures
        lookup(Map::<Seq<char>, Seq<char>>::empty(), key) is None,
{
}

/// A mapping from cache key to the last validator seen for it. Entries are
/// created or overwritten by successful responses and dropped only by
/// `clear`.
pub struct EtagCache {
    entries: Vec<(String, String)>,
    contents: Ghost<Map<Seq<char>, Seq<char>>>,
}

impl View for EtagCache {
    type V = Map<Seq<char>, Seq<char>>;

    closed spec fn view(&self) -> Map<Seq<char>, Seq<char>> {
        self.contents@
    }
}

impl EtagCache {
    /// The entries hold each key once, and exactly the keys and validators of
    /// the view.
    pub closed spec fn wf(&self) -> bool {
        &&& forall|i: int, j: int|
            0 <= i < j < self.entries@.len() ==> #[trigger] self.entries@[i].0@
                != #[trigger] self.entries@[j].0@
        &&& forall|i: int|
            0 <= i < self.entries@.len() ==> self.contents@.contains_key(
                #[trigger] self.entries@[i].0@,
            ) && self.contents@[self.entries@[i].0@] == self.entries@[i].1@
        &&& forall|k: Seq<char>|
            #[trigger] self.contents@.contains_key(k) ==> exists|i: int|
                0 <= i < self.entries@.len() && #[trigger] self.entries@[i].0@ == k
    }

    /// An empty cache.
    pub fn new() -> (r: EtagCache)
        ensures
            r.wf(),
            r@ == Map::<Seq<char>, Seq<char>>::empty(),
    {
        EtagCache { entries: Vec::new(), contents: Ghost(Map::empty()) }
    }

    /// Position of `key` among the entries, if it is cached.
    fn position(&self, key: &String) -> (r: Option<usize>)
        requires
            self.wf(),
        ensures
            match r {
                Some(i) => i < self.entries@.len() && self.entries@[i as int].0@ == key@,
                None => !self@.contains_key(key@),
            },
    {
        let mut i: usize = 0;
        while i < self.entries.len()
            invariant
                self.wf(),
                i <= self.entries@.len(),
                forall|j: int| 0 <= j < i ==> #[trigger] self.entries@[j].0@ != key@,
            decreases self.entries@.len() - i,
        {
            if self.entries[i].0 == *key {
                return Some(i);
            }
            i = i + 1;
        }
        None
    }

    /// The validator cached under `key`, if any.
    pub fn get(&self, key: &str) -> (r: Option<String>)
        requires
            self.wf(),
        ensures
            match r {
                Some(v) => lookup(self@, key@) == Some(v@),
                None => lookup(self@, key@) is None,
            },
    {
        let key = key.to_owned();
        match self.position(&key) {
            Some(i) => Some(self.entries[i].1.clone()),
            None => None,
        }
    }

    /// Cache `value` under `key`, replacing any earlier validator.
    pub fn set(&mut self, key: &str, value: &str)
        requires
            old(self).wf(),
        ensures
            final(self).wf(),
            final(self)@ == old(self)@.insert(key@, value@),
    {
        let key = key.to_owned();
        let ghost before = self.entries@;
        match self.position(&key) {
            Some(i) => {
                self.entries.set(i, (key, value.to_owned()));
                proof {
                    self.contents@ = self.contents@.insert(key@, value@);
                    assert forall|k: Seq<char>| #[trigger]
                        self.contents@.contains_key(k) implies exists|j: int|
                        0 <= j < self.entries@.len() && #[trigger] self.entries@[j].0@ == k by {
                        if k != key@ {
                            let j = choose|j: int| 0 <= j < before.len() && #[trigger] before[j].0@ == k;
                            assert(self.entries@[j].0@ == k);
                        } else {
                            assert(self.entries@[i as int].0@ == k);
                        }
                    }
                }
            },
            None => {
                self.entries.push((key, value.to_owned()));
                proof {
                    self.contents@ = self.contents@.insert(key@, value@);
                    let n = before.len() as int;
                    assert(self.entries@[n].0@ == key@);
                    assert forall|k: Seq<char>| #[trigger]
                        self.contents@.contains_key(k) implies exists|j: int|
                        0 <= j < self.entries@.len() && #[trigger] self.entries@[j].0@ == k by {
                        if k != key@ {
                            let j = choose|j: int| 0 <= j < before.len() && #[trigger] before[j].0@ == k;
                            assert(self.entries@[j].0@ == k);
                        } else {
                            assert(self.entries@[n].0@ == k);
                        }
                    }
                }
            },
        }
    }

    /// Drop every entry.
    pub fn clear(&mut self)
        ensures
            final(self).wf(),
            final(self)@ == Map::<Seq<char>, Seq<char>>::empty(),
    {
        self.entries = Vec::new();
        self.contents = Ghost(Map::empty());
    }

    /// Number of cached keys.
    pub fn len(&self) -> (r: usize)
        requires
            self.wf(),
        ensures
            r == self@.len(),
    {
        proof {
            self.lemma_len();
        }
        self.entries.len()
    }

    proof fn lemma_len(&self)
        requires
            self.wf(),
        ensures
            self@.dom().finite(),
            self.entries@.len() == self@.len(),
    {
        let keys = self.entries@.map_values(|e: (String, String)| e.0@);
        assert(keys.no_duplicates()) by {
            assert forall|i: int, j: int|
                0 <= i < keys.len() && 0 <= j < keys.len() && i != j implies keys[i] != keys[j] by {
                if i < j {
                    assert(self.entries@[i].0@ != self.entries@[j].0@);
                } else {
                    assert(self.entries@[j].0@ != self.entries@[i].0@);
                }
            }
        }
        assert(keys.to_set() =~= self@.dom()) by {
            assert forall|k: Seq<char>| keys.to_set().contains(k) implies self@.dom().contains(k) by {
                let i = choose|i: int| 0 <= i < keys.len() && keys[i] == k;
                assert(self.entries@[i].0@ == k);
            }
            assert forall|k: Seq<char>| self@.dom().contains(k) implies keys.to_set().contains(k) by {
                let i = choose|i: int| 0 <= i < self.entries@.len() && #[trigger] self.entries@[i].0@ == k;
                assert(keys[i] == k);
            }
        }
        keys.unique_seq_to_set();
    }

    /// The validator cached for `node_type` and `register_id`, if any.
    pub fn get_etag(&self, node_type: NodeType, register_id: &str) -> (r: Option<String>)
        requires
            self.wf(),
        ensures
            match r {
                Some(v) => lookup(self@, cache_key_spec(node_type, register_id@)) == Some(v@),
                None => lookup(self@, cache_key_spec(node_type, register_id@)) is None,
            },
    {
        let key = cache_key(node_type, register_id);
        self.get(key.as_str())
    }

    /// Finish a conditional request under `key` for `url`: take note of the
    /// response's ETag as `record_response` does, then check its status as
    /// `check_response` does, `body` being the response text when the status
    /// is a failure.
    pub fn finish_conditional(
        &mut self,
        key: &str,
        url: &str,
        status: u16,
        etag: Option<String>,
        body: Option<String>,
    ) -> (r: Result<(), ApiError>)
        requires
            old(self).wf(),
        ensures
            final(self).wf(),
            final(self)@ == after_response(old(self)@, key@, status, match etag {
                Some(e) => Some(e@),
                None => None,
            }),
            response_outcome_ok(r, status, url@, match body {
                Some(b) => Some(b@),
                None => None,
            }),
    {
        self.record_response(key, status, etag);
        check_response(status, url, body)
    }

    /// Take note of a response with `status` and ETag header `etag` (as
    /// text, when the header is present and readable) to a conditional
    /// request under `key`: a 2xx response that carries an ETag overwrites
    /// the entry, anything else leaves the cache untouched.
    pub fn record_response(&mut self, key: &str, status: u16, etag: Option<String>)
        requires
            old(self).wf(),
        ensures
            final(self).wf(),
            final(self)@ == after_response(old(self)@, key@, status, match etag {
                Some(e) => Some(e@),
                None => None,
            }),
    {
        match etag {
            Some(e) => {
                if 200 <= status && status <= 299 {
                    self.set(key, e.as_str());
                }
            },
            None => {},
        }
    }
}

} // verus!
