//! Request payloads sent to the server.
use vstd::prelude::*;

use crate::user::{TrafficStats, UserTraffic};

verus! {

/// Node registration request; `node_ip` is left out of the payload when
/// absent.
#[derive(Debug, Clone)]
pub struct RegisterRequest {
    pub hostname: String,
    pub port: u16,
    pub node_ip: Option<String>,
}

impl RegisterRequest {
    /// A request for `hostname` and `port`, without a node IP.
    pub fn new(hostname: &str, port: u16) -> (r: RegisterRequest)
        ensures
            r.hostname@ == hostname@,
            r.port == port,
            r.node_ip is None,
    {
        RegisterRequest { hostname: hostname.to_owned(), port, node_ip: None }
    }

    /// The same request with its node IP set.
    pub fn with_node_ip(self, node_ip: &str) -> (r: RegisterRequest)
        ensures
            r.hostname == self.hostname,
            r.port == self.port,
            r.node_ip matches Some(ip) && ip@ == node_ip@,
    {
        RegisterRequest { hostname: self.hostname, port: self.port, node_ip: Some(node_ip.to_owned()) }
    }
}

/// Verify request.
#[derive(Debug, Clone)]
pub struct VerifyRequest {
    pub register_id: String,
}

impl VerifyRequest {
    /// A request to verify `register_id`.
    pub fn new(register_id: &str) -> (r: VerifyRequest)
        ensures
            r.register_id@ == register_id@,
    {
        VerifyRequest { register_id: register_id.to_owned() }
    }
}

/// Heartbeat request; `node_ip` is left out of the payload when absent.
#[derive(Debug, Clone)]
pub struct HeartbeatRequest {
    pub register_id: String,
    pub node_ip: Option<String>,
}

impl HeartbeatRequest {
    /// A heartbeat for `register_id`, without a node IP.
    pub fn new(register_id: &str) -> (r: HeartbeatRequest)
        ensures
            r.register_id@ == register_id@,
            r.node_ip is None,
    {
        HeartbeatRequest { register_id: register_id.to_owned(), node_ip: None }
    }

    /// The same heartbeat with its node IP set.
    pub fn with_node_ip(self, node_ip: &str) -> (r: HeartbeatRequest)
        ensures
            r.register_id == self.register_id,
            r.node_ip matches Some(ip) && ip@ == node_ip@,
    {
        HeartbeatRequest { register_id: self.register_id, node_ip: Some(node_ip.to_owned()) }
    }
}

/// Traffic submission request.
#[derive(Debug, Clone)]
pub struct SubmitRequest {
    pub register_id: String,
    pub data: Vec<UserTraffic>,
}

impl SubmitRequest {
    /// A submission of `data` for `register_id`.
    pub fn new(register_id: &str, data: Vec<UserTraffic>) -> (r: SubmitRequest)
        ensures
            r.register_id@ == register_id@,
            r.data@ == data@,
    {
        SubmitRequest { register_id: register_id.to_owned(), data }
    }
}

/// Traffic stats submission request.
#[derive(Debug, Clone)]
pub struct SubmitStatsRequest {
    pub register_id: String,
    pub data: TrafficStats,
}

impl SubmitStatsRequest {
    /// A submission of the aggregated `data` for `register_id`.
    pub fn new(register_id: &str, data: TrafficStats) -> (r: SubmitStatsRequest)
        ensures
            r.register_id@ == register_id@,
            r.data == data,
    {
        SubmitStatsRequest { register_id: register_id.to_owned(), data }
    }
}

} // verus!
