//! Users and the traffic records reported for them.
use std::collections::HashMap;
use vstd::prelude::*;

verus! {

broadcast use vstd::std_specs::hash::group_hash_axioms;

/// User information.
#[derive(Debug, Clone)]
pub struct User {
    pub id: i64,
    pub uuid: String,
}

/// User traffic data for submission; on the wire the fields are `user_id`,
/// `u`, `d` and `n`.
#[derive(Debug, Clone, PartialEq, Eq, Structural)]
pub struct UserTraffic {
    pub user_id: i64,
    /// Upload bytes
    pub u: u64,
    /// Download bytes
    pub d: u64,
    /// Count/connections
    pub n: u64,
}

impl UserTraffic {
    /// Create a new UserTraffic instance with a connection count of zero.
    pub fn new(user_id: i64, upload: u64, download: u64) -> (r: UserTraffic)
        ensures
            r == (UserTraffic { user_id, u: upload, d: download, n: 0 }),
    {
        UserTraffic { user_id, u: upload, d: download, n: 0 }
    }

    /// Create a new UserTraffic instance with a connection count.
    pub fn with_count(user_id: i64, upload: u64, download: u64, count: u64) -> (r: UserTraffic)
        ensures
            r == (UserTraffic { user_id, u: upload, d: download, n: count }),
    {
        UserTraffic { user_id, u: upload, d: download, n: count }
    }
}

/// Aggregated traffic statistics.
#[derive(Debug, Clone)]
pub struct TrafficStats {
    /// Total count
    pub count: i64,
    /// Total requests
    pub requests: i64,
    /// User IDs, in the order they were added
    pub user_ids: Vec<i64>,
    /// Per-user request counts
    pub user_requests: HashMap<i64, i64>,
}

impl TrafficStats {
    /// `self` holds no users and zero totals.
    pub open spec fn is_empty_stats(&self) -> bool {
        &&& self.count == 0
        &&& self.requests == 0
        &&& self.user_ids@ == Seq::<i64>::empty()
        &&& self.user_requests@ == Map::<i64, i64>::empty()
    }

    /// `after` is `before` with the user `user_id` added with `requests`
    /// requests: the ID appended, its count inserted or overwritten, and both
    /// totals advanced.
    pub open spec fn adds_user(before: TrafficStats, after: TrafficStats, user_id: i64, requests: i64) -> bool {
        &&& after.user_ids@ == before.user_ids@.push(user_id)
        &&& after.user_requests@ == before.user_requests@.insert(user_id, requests)
        &&& after.requests == before.requests + requests
        &&& after.count == before.count + 1
    }

    /// Create a new empty TrafficStats instance.
    pub fn new() -> (r: TrafficStats)
        ensures
            r.is_empty_stats(),
    {
        TrafficStats { count: 0, requests: 0, user_ids: Vec::new(), user_requests: HashMap::new() }
    }

    /// Add a user's request count.
    pub fn add_user(&mut self, user_id: i64, requests: i64)
        requires
            i64::MIN <= old(self).requests + requests <= i64::MAX,
            old(self).count < i64::MAX,
        ensures
            TrafficStats::adds_user(*old(self), *final(self), user_id, requests),
    {
        self.user_ids.push(user_id);
        self.user_requests.insert(user_id, requests);
        self.requests = self.requests + requests;
        self.count = self.count + 1;
    }
}

impl Default for TrafficStats {
    fn default() -> (r: TrafficStats)
        ensures
            r.is_empty_stats(),
    {
        TrafficStats::new()
    }
}

} // verus!
