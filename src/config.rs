//! Per-protocol node configurations and the tagged union over them.
use std::collections::HashMap;
use vstd::prelude::*;

use crate::error::ApiError;
use crate::node_type::NodeType;

verus! {

/// Normalizes a boolean that a server may send either as a JSON boolean or
/// as an integer (`0` / `1`).
#[derive(Debug, Clone, Copy, PartialEq, Eq, Structural)]
pub enum BoolOrInt {
    Bool(bool),
    Int(i64),
}

/// The boolean that a lenient flag denotes: a boolean as it is, an integer
/// by a nonzero test.
pub open spec fn lenient_bool(v: BoolOrInt) -> bool {
    match v {
        BoolOrInt::Bool(b) => b,
        BoolOrInt::Int(i) => i != 0,
    }
}

impl BoolOrInt {
    /// Decode the flag: `true`/`false` as given, an integer as `i != 0`.
    pub fn to_bool(self) -> (r: bool)
        ensures
            r == lenient_bool(self),
    {
        match self {
            BoolOrInt::Bool(b) => b,
            BoolOrInt::Int(i) => i != 0,
        }
    }
}

/// Common accessors of every node configuration.
pub trait NodeConfig {
    /// Protocol name of the configuration.
    spec fn spec_node_type_name(&self) -> Seq<char>;

    /// Node identifier of the configuration.
    spec fn spec_id(&self) -> i64;

    /// Server port of the configuration.
    spec fn spec_server_port(&self) -> u16;

    /// Get the node type name.
    fn node_type_name(&self) -> (r: &'static str)
        ensures
            r@ == self.spec_node_type_name(),
    ;

    /// Get the node ID.
    fn id(&self) -> (r: i64)
        ensures
            r == self.spec_id(),
    ;

    /// Get the server port.
    fn server_port(&self) -> (r: u16)
        ensures
            r == self.spec_server_port(),
    ;
}

/// Trojan configuration.
#[derive(Debug, Clone)]
pub struct TrojanConfig {
    pub id: i64,
    pub server_port: u16,
    pub allow_insecure: bool,
    pub server_name: Option<String>,
    pub network: Option<String>,
    pub websocket_config: Option<WebSocketConfig>,
    pub grpc_config: Option<GrpcConfig>,
}

impl NodeConfig for TrojanConfig {
    open spec fn spec_node_type_name(&self) -> Seq<char> {
        NodeType::Trojan.name()
    }

    open spec fn spec_id(&self) -> i64 {
        self.id
    }

    open spec fn spec_server_port(&self) -> u16 {
        self.server_port
    }

    fn node_type_name(&self) -> (r: &'static str) {
        NodeType::Trojan.as_str()
    }

    fn id(&self) -> (r: i64) {
        self.id
    }

    fn server_port(&self) -> (r: u16) {
        self.server_port
    }
}

/// ShadowSocks configuration.
#[derive(Debug, Clone)]
pub struct ShadowsocksConfig {
    pub id: i64,
    pub server_port: u16,
    pub method: Option<String>,
    pub network: Option<String>,
}

impl NodeConfig for ShadowsocksConfig {
    open spec fn spec_node_type_name(&self) -> Seq<char> {
        NodeType::ShadowSocks.name()
    }

    open spec fn spec_id(&self) -> i64 {
        self.id
    }

    open spec fn spec_server_port(&self) -> u16 {
        self.server_port
    }

    fn node_type_name(&self) -> (r: &'static str) {
        NodeType::ShadowSocks.as_str()
    }

    fn id(&self) -> (r: i64) {
        self.id
    }

    fn server_port(&self) -> (r: u16) {
        self.server_port
    }
}

/// Hysteria configuration.
#[derive(Debug, Clone)]
pub struct HysteriaConfig {
    pub id: i64,
    pub server_port: u16,
    pub protocol: Option<String>,
    pub obfs: Option<String>,
    pub up_mbps: Option<i32>,
    pub down_mbps: Option<i32>,
    pub disable_mtu_discovery: bool,
    pub disable_udp: bool,
}

impl NodeConfig for HysteriaConfig {
    open spec fn spec_node_type_name(&self) -> Seq<char> {
        NodeType::Hysteria.name()
    }

    open spec fn spec_id(&self) -> i64 {
        self.id
    }

    open spec fn spec_server_port(&self) -> u16 {
        self.server_port
    }

    fn node_type_name(&self) -> (r: &'static str) {
        NodeType::Hysteria.as_str()
    }

    fn id(&self) -> (r: i64) {
        self.id
    }

    fn server_port(&self) -> (r: u16) {
        self.server_port
    }
}

/// Hysteria2 configuration.
#[derive(Debug, Clone)]
pub struct Hysteria2Config {
    pub id: i64,
    pub server_port: u16,
    pub obfs: Option<String>,
    pub up_mbps: Option<i32>,
    pub down_mbps: Option<i32>,
    pub ignore_cli_bandwidth: bool,
    pub disable_udp: bool,
}

impl NodeConfig for Hysteria2Config {
    open spec fn spec_node_type_name(&self) -> Seq<char> {
        NodeType::Hysteria2.name()
    }

    open spec fn spec_id(&self) -> i64 {
        self.id
    }

    open spec fn spec_server_port(&self) -> u16 {
        self.server_port
    }

    fn node_type_name(&self) -> (r: &'static str) {
        NodeType::Hysteria2.as_str()
    }

    fn id(&self) -> (r: i64) {
        self.id
    }

    fn server_port(&self) -> (r: u16) {
        self.server_port
    }
}

/// VMess configuration.
#[derive(Debug, Clone)]
pub struct VMessConfig {
    pub id: i64,
    pub server_port: u16,
    pub tls: bool,
    pub network: Option<String>,
    pub tls_config: Option<TlsConfig>,
    pub websocket_config: Option<WebSocketConfig>,
    pub h2_config: Option<HttpConfig>,
    pub tcp_config: Option<TcpConfig>,
    pub grpc_config: Option<GrpcConfig>,
    pub router_settings: Option<RouterConfig>,
    pub dns_settings: Option<DnsConfig>,
}

impl NodeConfig for VMessConfig {
    open spec fn spec_node_type_name(&self) -> Seq<char> {
        NodeType::VMess.name()
    }

    open spec fn spec_id(&self) -> i64 {
        self.id
    }

    open spec fn spec_server_port(&self) -> u16 {
        self.server_port
    }

    fn node_type_name(&self) -> (r: &'static str) {
        NodeType::VMess.as_str()
    }

    fn id(&self) -> (r: i64) {
        self.id
    }

    fn server_port(&self) -> (r: u16) {
        self.server_port
    }
}

/// AnyTLS configuration.
#[derive(Debug, Clone)]
pub struct AnyTLSConfig {
    pub id: i64,
    pub server_port: u16,
    pub allow_insecure: bool,
    pub server_name: Option<String>,
    pub padding_rules: Option<Vec<String>>,
}

impl NodeConfig for AnyTLSConfig {
    open spec fn spec_node_type_name(&self) -> Seq<char> {
        NodeType::AnyTLS.name()
    }

    open spec fn spec_id(&self) -> i64 {
        self.id
    }

    open spec fn spec_server_port(&self) -> u16 {
        self.server_port
    }

    fn node_type_name(&self) -> (r: &'static str) {
        NodeType::AnyTLS.as_str()
    }

    fn id(&self) -> (r: i64) {
        self.id
    }

    fn server_port(&self) -> (r: u16) {
        self.server_port
    }
}

/// TUIC configuration.
#[derive(Debug, Clone)]
pub struct TuicConfig {
    pub id: i64,
    pub server_port: u16,
    pub server_name: Option<String>,
    /// Sent by some servers as `0` / `1`; see `BoolOrInt`.
    pub zero_rtt_handshake: bool,
}

impl NodeConfig for TuicConfig {
    open spec fn spec_node_type_name(&self) -> Seq<char> {
        NodeType::Tuic.name()
    }

    open spec fn spec_id(&self) -> i64 {
        self.id
    }

    open spec fn spec_server_port(&self) -> u16 {
        self.server_port
    }

    fn node_type_name(&self) -> (r: &'static str) {
        NodeType::Tuic.as_str()
    }

    fn id(&self) -> (r: i64) {
        self.id
    }

    fn server_port(&self) -> (r: u16) {
        self.server_port
    }
}

/// TLS configuration.
#[derive(Debug, Clone, Default)]
pub struct TlsConfig {
    pub server_name: Option<String>,
    pub certificate: Option<String>,
    pub private_key: Option<String>,
}

/// WebSocket configuration.
#[derive(Debug, Clone, Default)]
pub struct WebSocketConfig {
    pub path: Option<String>,
    pub headers: Option<HashMap<String, String>>,
}

/// HTTP/2 configuration.
#[derive(Debug, Clone, Default)]
pub struct HttpConfig {
    pub host: Option<Vec<String>>,
    pub path: Option<String>,
}

/// TCP configuration.
#[derive(Debug, Clone, Default)]
pub struct TcpConfig {
    pub header: Option<TcpHeader>,
}

/// TCP header obfuscation; `header_type` is the wire field `type`.
#[derive(Debug, Clone, Default)]
pub struct TcpHeader {
    pub header_type: Option<String>,
    pub request: Option<TcpHeaderRequest>,
    pub response: Option<TcpHeaderResponse>,
}

/// TCP header request configuration.
#[derive(Debug, Clone, Default)]
pub struct TcpHeaderRequest {
    pub version: Option<String>,
    pub method: Option<String>,
    pub path: Option<Vec<String>>,
    pub headers: Option<HashMap<String, Vec<String>>>,
}

/// TCP header response configuration.
#[derive(Debug, Clone, Default)]
pub struct TcpHeaderResponse {
    pub version: Option<String>,
    pub status: Option<String>,
    pub reason: Option<String>,
    pub headers: Option<HashMap<String, Vec<String>>>,
}

/// gRPC configuration.
#[derive(Debug, Clone, Default)]
pub struct GrpcConfig {
    pub service_name: Option<String>,
}

/// Router configuration.
#[derive(Debug, Clone, Default)]
pub struct RouterConfig {
    pub rules: Option<Vec<RouterRule>>,
}

/// Router rule; `rule_type` is the wire field `type`.
#[derive(Debug, Clone, Default)]
pub struct RouterRule {
    pub rule_type: Option<String>,
    pub domain: Option<Vec<String>>,
    pub ip: Option<Vec<String>>,
    pub outbound_tag: Option<String>,
}

/// DNS configuration.
#[derive(Debug, Clone, Default)]
pub struct DnsConfig {
    pub servers: Option<Vec<DnsServer>>,
}

/// DNS server: a bare address, or an address with port and domains.
#[derive(Debug, Clone)]
pub enum DnsServer {
    Simple(String),
    Complex { address: String, port: Option<u16>, domains: Option<Vec<String>> },
}

/// Enum wrapper for the different node configurations.
#[derive(Debug, Clone)]
pub enum NodeConfigEnum {
    Trojan(TrojanConfig),
    ShadowSocks(ShadowsocksConfig),
    Hysteria(HysteriaConfig),
    Hysteria2(Hysteria2Config),
    VMess(VMessConfig),
    AnyTLS(AnyTLSConfig),
    Tuic(TuicConfig),
}

/// `e` is the error that narrowing to the record named `expected` reports on
/// a configuration of protocol `actual`.
pub open spec fn is_conversion_error(e: ApiError, expected: Seq<char>, actual: Seq<char>) -> bool {
    e matches ApiError::TypeConversionError { expected: x, actual: a } && x@ == expected && a@
        == actual
}

impl NodeConfigEnum {
    /// The protocol of the active variant.
    pub open spec fn spec_node_type(self) -> NodeType {
        match self {
            NodeConfigEnum::Trojan(_) => NodeType::Trojan,
            NodeConfigEnum::ShadowSocks(_) => NodeType::ShadowSocks,
            NodeConfigEnum::Hysteria(_) => NodeType::Hysteria,
            NodeConfigEnum::Hysteria2(_) => NodeType::Hysteria2,
            NodeConfigEnum::VMess(_) => NodeType::VMess,
            NodeConfigEnum::AnyTLS(_) => NodeType::AnyTLS,
            NodeConfigEnum::Tuic(_) => NodeType::Tuic,
        }
    }

    /// The protocol of the active variant.
    pub fn node_type(&self) -> (r: NodeType)
        ensures
            r == self.spec_node_type(),
    {
        match self {
            NodeConfigEnum::Trojan(_) => NodeType::Trojan,
            NodeConfigEnum::ShadowSocks(_) => NodeType::ShadowSocks,
            NodeConfigEnum::Hysteria(_) => NodeType::Hysteria,
            NodeConfigEnum::Hysteria2(_) => NodeType::Hysteria2,
            NodeConfigEnum::VMess(_) => NodeType::VMess,
            NodeConfigEnum::AnyTLS(_) => NodeType::AnyTLS,
            NodeConfigEnum::Tuic(_) => NodeType::Tuic,
        }
    }

    /// Get the type name: the canonical name of the active protocol.
    pub fn node_type_name(&self) -> (r: &'static str)
        ensures
            r@ == self.spec_node_type().name(),
    {
        match self {
            NodeConfigEnum::Trojan(_) => "trojan",
            NodeConfigEnum::ShadowSocks(_) => "shadowsocks",
            NodeConfigEnum::Hysteria(_) => "hysteria",
            NodeConfigEnum::Hysteria2(_) => "hysteria2",
            NodeConfigEnum::VMess(_) => "vmess",
            NodeConfigEnum::AnyTLS(_) => "anytls",
            NodeConfigEnum::Tuic(_) => "tuic",
        }
    }

    /// Try to convert to TrojanConfig; any other variant yields a type conversion
    /// error naming `TrojanConfig` and the actual protocol.
    pub fn as_trojan(&self) -> (r: Result<&TrojanConfig, ApiError>)
        ensures
            match *self {
                NodeConfigEnum::Trojan(c) => r matches Ok(x) && *x == c,
                _ => r matches Err(e) && is_conversion_error(e, "TrojanConfig"@, self.spec_node_type().name()),
            },
    {
        match self {
            NodeConfigEnum::Trojan(config) => Ok(config),
            _ => Err(ApiError::type_conversion_error("TrojanConfig", self.node_type_name())),
        }
    }

    /// Try to convert to ShadowsocksConfig; any other variant yields a type conversion
    /// error naming `ShadowsocksConfig` and the actual protocol.
    pub fn as_shadowsocks(&self) -> (r: Result<&ShadowsocksConfig, ApiError>)
        ensures
            match *self {
                NodeConfigEnum::ShadowSocks(c) => r matches Ok(x) && *x == c,
                _ => r matches Err(e) && is_conversion_error(e, "ShadowsocksConfig"@, self.spec_node_type().name()),
            },
    {
        match self {
            NodeConfigEnum::ShadowSocks(config) => Ok(config),
            _ => Err(ApiError::type_conversion_error("ShadowsocksConfig", self.node_type_name())),
        }
    }

    /// Try to convert to HysteriaConfig; any other variant yields a type conversion
    /// error naming `HysteriaConfig` and the actual protocol.
    pub fn as_hysteria(&self) -> (r: Result<&HysteriaConfig, ApiError>)
        ensures
            match *self {
                NodeConfigEnum::Hysteria(c) => r matches Ok(x) && *x == c,
                _ => r matches Err(e) && is_conversion_error(e, "HysteriaConfig"@, self.spec_node_type().name()),
            },
    {
        match self {
            NodeConfigEnum::Hysteria(config) => Ok(config),
            _ => Err(ApiError::type_conversion_error("HysteriaConfig", self.node_type_name())),
        }
    }

    /// Try to convert to Hysteria2Config; any other variant yields a type conversion
    /// error naming `Hysteria2Config` and the actual protocol.
    pub fn as_hysteria2(&self) -> (r: Result<&Hysteria2Config, ApiError>)
        ensures
            match *self {
                NodeConfigEnum::Hysteria2(c) => r matches Ok(x) && *x == c,
                _ => r matches Err(e) && is_conversion_error(e, "Hysteria2Config"@, self.spec_node_type().name()),
            },
    {
        match self {
            NodeConfigEnum::Hysteria2(config) => Ok(config),
            _ => Err(ApiError::type_conversion_error("Hysteria2Config", self.node_type_name())),
        }
    }

    /// Try to convert to VMessConfig; any other variant yields a type conversion
    /// error naming `VMessConfig` and the actual protocol.
    pub fn as_vmess(&self) -> (r: Result<&VMessConfig, ApiError>)
        ensures
            match *self {
                NodeConfigEnum::VMess(c) => r matches Ok(x) && *x == c,
                _ => r matches Err(e) && is_conversion_error(e, "VMessConfig"@, self.spec_node_type().name()),
            },
    {
        match self {
            NodeConfigEnum::VMess(config) => Ok(config),
            _ => Err(ApiError::type_conversion_error("VMessConfig", self.node_type_name())),
        }
    }

    /// Try to convert to AnyTLSConfig; any other variant yields a type conversion
    /// error naming `AnyTLSConfig` and the actual protocol.
    pub fn as_anytls(&self) -> (r: Result<&AnyTLSConfig, ApiError>)
        ensures
            match *self {
                NodeConfigEnum::AnyTLS(c) => r matches Ok(x) && *x == c,
                _ => r matches Err(e) && is_conversion_error(e, "AnyTLSConfig"@, self.spec_node_type().name()),
            },
    {
        match self {
            NodeConfigEnum::AnyTLS(config) => Ok(config),
            _ => Err(ApiError::type_conversion_error("AnyTLSConfig", self.node_type_name())),
        }
    }

    /// Try to convert to TuicConfig; any other variant yields a type conversion
    /// error naming `TuicConfig` and the actual protocol.
    pub fn as_tuic(&self) -> (r: Result<&TuicConfig, ApiError>)
        ensures
            match *self {
                NodeConfigEnum::Tuic(c) => r matches Ok(x) && *x == c,
                _ => r matches Err(e) && is_conversion_error(e, "TuicConfig"@, self.spec_node_type().name()),
            },
    {
        match self {
            NodeConfigEnum::Tuic(config) => Ok(config),
            _ => Err(ApiError::type_conversion_error("TuicConfig", self.node_type_name())),
        }
    }
}

} // verus!
