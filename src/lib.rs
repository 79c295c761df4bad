//! Typed client library for a proxy-node management API.
//!
//! The library holds the protocol's data model (node types, per-protocol
//! configurations, request and response records, traffic statistics), the
//! rules that build request URLs, the ETag cache that guards conditional
//! fetches, and the classification of server responses into typed errors.
//! Transport and JSON decoding happen around it: they hand it plain values
//! (status codes, header text, bodies) and take typed results back.

pub mod cache;
pub mod client;
pub mod config;
pub mod error;
pub mod node_type;
pub mod request;
pub mod response;
pub mod user;

pub use cache::EtagCache;
pub use client::{
    cache_key, check_response, classify_status, enhanced_path, raw_config_path, Config, Endpoint,
    HttpMethod, Operation, RequestPlan, StatusClass,
};
pub use config::{
    AnyTLSConfig, BoolOrInt, DnsConfig, DnsServer, GrpcConfig, HttpConfig, Hysteria2Config,
    HysteriaConfig, NodeConfig, NodeConfigEnum, RouterConfig, RouterRule, ShadowsocksConfig,
    TcpConfig, TcpHeader, TcpHeaderRequest, TcpHeaderResponse, TlsConfig, TrojanConfig, TuicConfig,
    VMessConfig, WebSocketConfig,
};
pub use error::{ApiError, ErrorType, Result};
pub use node_type::NodeType;
pub use request::{
    HeartbeatRequest, RegisterRequest, SubmitRequest, SubmitStatsRequest, VerifyRequest,
};
pub use response::{
    ApiResponse, EmptyData, EmptyResponse, RegisterResponse, RegisterResponseData, UsersResponse,
    VerifyResponse, VerifyResponseData,
};
pub use user::{TrafficStats, User, UserTraffic};
