use server_r_client::{
    ApiResponse, HeartbeatRequest, SubmitRequest, SubmitStatsRequest, UserTraffic, UsersResponse,
    VerifyRequest,
    cache_key, check_response, classify_status, enhanced_path, raw_config_path, ApiError,
    BoolOrInt, Config, Endpoint, ErrorType, EtagCache, HttpMethod, NodeConfig, NodeConfigEnum,
    NodeType, Operation, ShadowsocksConfig, StatusClass, TrafficStats, TuicConfig,
};

fn shadowsocks_config() -> NodeConfigEnum {
    NodeConfigEnum::ShadowSocks(ShadowsocksConfig {
        id: 2,
        server_port: 8388,
        method: Some("aes-256-gcm".to_string()),
        network: Some("tcp".to_string()),
    })
}

#[test]
fn parse_ignores_case_and_accepts_alias() {
    assert_eq!(NodeType::parse("TROJAN"), Ok(NodeType::Trojan));
    assert_eq!(NodeType::parse("ShadowSocks"), Ok(NodeType::ShadowSocks));
    assert_eq!(NodeType::parse("SS"), Ok(NodeType::ShadowSocks));
    assert_eq!(NodeType::parse("Hysteria2"), Ok(NodeType::Hysteria2));
    assert_eq!(NodeType::parse("VMess"), Ok(NodeType::VMess));
    assert_eq!(NodeType::parse("AnyTLS"), Ok(NodeType::AnyTLS));
    assert_eq!(NodeType::parse("tuic"), Ok(NodeType::Tuic));
}

#[test]
fn parse_round_trips_every_canonical_name() {
    let all = [
        NodeType::Trojan,
        NodeType::ShadowSocks,
        NodeType::Hysteria,
        NodeType::Hysteria2,
        NodeType::VMess,
        NodeType::AnyTLS,
        NodeType::Tuic,
    ];
    for t in all {
        assert_eq!(NodeType::parse(t.as_str()), Ok(t));
        assert_eq!(NodeType::parse(&t.to_string().to_uppercase()), Ok(t));
    }
    // The alias does not round-trip: it reads as ShadowSocks, named "shadowsocks".
    assert_eq!(NodeType::parse("ss").unwrap().to_string(), "shadowsocks");
}

#[test]
fn parse_reports_the_unknown_name() {
    assert_eq!(
        NodeType::parse("Invalid"),
        Err("Unknown node type: Invalid".to_string())
    );
    assert_eq!(NodeType::parse(""), Err("Unknown node type: ".to_string()));
}

#[test]
fn lowercase_name_lookup() {
    assert_eq!(NodeType::from_lowercase_name("ss"), Some(NodeType::ShadowSocks));
    assert_eq!(NodeType::from_lowercase_name("Trojan"), None);
}

#[test]
fn narrowing_a_shadowsocks_config() {
    let config = shadowsocks_config();
    let ss = config.as_shadowsocks().unwrap();
    assert_eq!(ss.server_port, 8388);
    assert_eq!(ss.method, Some("aes-256-gcm".to_string()));
    match config.as_trojan() {
        Err(ApiError::TypeConversionError { expected, actual }) => {
            assert_eq!(expected, "TrojanConfig");
            assert_eq!(actual, "shadowsocks");
        }
        _ => panic!("expected a type conversion error"),
    }
    match config.as_tuic() {
        Err(ApiError::TypeConversionError { expected, actual }) => {
            assert_eq!(expected, "TuicConfig");
            assert_eq!(actual, "shadowsocks");
        }
        _ => panic!("expected a type conversion error"),
    }
    assert!(config.as_hysteria().is_err());
    assert!(config.as_hysteria2().is_err());
    assert!(config.as_vmess().is_err());
    assert!(config.as_anytls().is_err());
    assert_eq!(config.node_type(), NodeType::ShadowSocks);
    assert_eq!(config.node_type_name(), "shadowsocks");
}

#[test]
fn node_config_accessors() {
    let tuic = TuicConfig {
        id: 7,
        server_port: 9443,
        server_name: None,
        zero_rtt_handshake: true,
    };
    assert_eq!(tuic.id(), 7);
    assert_eq!(tuic.server_port(), 9443);
    assert_eq!(NodeConfig::node_type_name(&tuic), "tuic");
}

#[test]
fn lenient_boolean_flag() {
    assert!(BoolOrInt::Int(1).to_bool());
    assert!(!BoolOrInt::Int(0).to_bool());
    assert!(BoolOrInt::Int(-3).to_bool());
    assert!(BoolOrInt::Bool(true).to_bool());
    assert!(!BoolOrInt::Bool(false).to_bool());
}

#[test]
fn traffic_stats_overwrites_repeated_user() {
    let mut stats = TrafficStats::new();
    stats.add_user(5, 10);
    stats.add_user(5, 30);
    assert_eq!(stats.count, 2);
    assert_eq!(stats.requests, 40);
    assert_eq!(stats.user_ids, vec![5, 5]);
    assert_eq!(stats.user_requests.len(), 1);
    assert_eq!(stats.user_requests.get(&5), Some(&30));
}

#[test]
fn error_kinds() {
    assert_eq!(
        ApiError::from_status_code(404, "x", "u").error_type(),
        ErrorType::ServerError
    );
    assert_eq!(
        ApiError::network_error("x", "u", None).error_type(),
        ErrorType::NetworkError
    );
    assert_eq!(
        ApiError::parse_error("x", "u", None).error_type(),
        ErrorType::ParseError
    );
    assert_eq!(ApiError::not_modified("u").error_type(), ErrorType::NotModified);
    assert_eq!(ApiError::config_error("x").error_type(), ErrorType::Unknown);
    assert_eq!(
        ApiError::type_conversion_error("a", "b").error_type(),
        ErrorType::Unknown
    );
}

#[test]
fn url_puts_token_first_and_encodes_values() {
    let config = Config::new("https://api.example.com//", "to ken&1");
    let url = config.build_url(
        "/api/v1/server/enhanced/trojan/users",
        &[("register_id", "a b/c"), ("x", "é*-._~")],
    );
    assert_eq!(
        url,
        "https://api.example.com/api/v1/server/enhanced/trojan/users?token=to+ken%261&register_id=a+b%2Fc&x=%C3%A9*-._%7E"
    );
    let plain = Config::new("http://h", "t").build_url("/p", &[]);
    assert_eq!(plain, "http://h/p?token=t");
}

#[test]
fn endpoint_paths() {
    assert_eq!(raw_config_path(NodeType::VMess), "/api/v1/server/vmess/config");
    assert_eq!(
        enhanced_path(NodeType::ShadowSocks, Endpoint::SubmitStatsWithAgent),
        "/api/v1/server/enhanced/shadowsocks/submitStatsWithAgent"
    );
    assert_eq!(
        enhanced_path(NodeType::Tuic, Endpoint::Heartbeat),
        "/api/v1/server/enhanced/tuic/heartbeat"
    );
    assert_eq!(cache_key(NodeType::Trojan, "r-1"), "trojan:r-1");
}

#[test]
fn status_classes() {
    assert_eq!(classify_status(200), StatusClass::Success);
    assert_eq!(classify_status(299), StatusClass::Success);
    assert_eq!(classify_status(304), StatusClass::NotModified);
    assert_eq!(classify_status(199), StatusClass::Failure);
    assert_eq!(classify_status(300), StatusClass::Failure);
    assert_eq!(classify_status(404), StatusClass::Failure);
}

#[test]
fn server_error_carries_status_body_and_url() {
    let url = "https://api.example.com/api/v1/server/trojan/config?token=t&node_id=9";
    match check_response(404, url, Some("Node not found".to_string())) {
        Err(ApiError::ServerError {
            status_code,
            message,
            url: u,
        }) => {
            assert_eq!(status_code, 404);
            assert_eq!(message, "Node not found");
            assert_eq!(u, url);
        }
        _ => panic!("expected a server error"),
    }
    match check_response(500, "u", None) {
        Err(ApiError::ServerError { message, .. }) => assert_eq!(message, "Unknown error"),
        _ => panic!("expected a server error"),
    }
    assert!(check_response(201, "u", None).is_ok());
    match check_response(304, "u", None) {
        Err(ApiError::NotModified { url }) => assert_eq!(url, "u"),
        _ => panic!("expected not modified"),
    }
}

#[test]
fn conditional_fetch_uses_and_updates_the_cache() {
    let mut cache = EtagCache::new();
    let key = cache_key(NodeType::Trojan, "r1");
    // No entry: no conditional header.
    assert_eq!(cache.get(&key), None);

    cache.set(&key, "abc");
    assert_eq!(cache.get(&key), Some("abc".to_string()));

    // 304 is reported as not modified and leaves the entry alone.
    let r = cache.finish_conditional(&key, "u", 304, Some("zzz".to_string()), None);
    assert!(matches!(r, Err(ApiError::NotModified { .. })));
    assert_eq!(cache.get(&key), Some("abc".to_string()));

    // A failure does not touch the entry either.
    let r = cache.finish_conditional(&key, "u", 500, Some("bad".to_string()), None);
    assert!(r.unwrap_err().is_server_error());
    assert_eq!(cache.get(&key), Some("abc".to_string()));

    // 200 with an ETag overwrites it.
    let r = cache.finish_conditional(&key, "u", 200, Some("xyz".to_string()), None);
    assert!(r.is_ok());
    assert_eq!(cache.get_etag(NodeType::Trojan, "r1"), Some("xyz".to_string()));

    // 200 without an ETag keeps it.
    cache.record_response(&key, 200, None);
    assert_eq!(cache.get(&key), Some("xyz".to_string()));
    assert_eq!(cache.len(), 1);
}

#[test]
fn clearing_the_cache_forgets_every_key() {
    let mut cache = EtagCache::new();
    cache.set("trojan:a", "1");
    cache.set("vmess:b", "2");
    cache.set("trojan:a", "3");
    assert_eq!(cache.len(), 2);
    cache.clear();
    assert_eq!(cache.len(), 0);
    assert_eq!(cache.get("trojan:a"), None);
    assert_eq!(cache.get_etag(NodeType::VMess, "b"), None);
}

#[test]
fn plans_of_the_operations() {
    let config = Config::new("https://api.example.com/", "tok");

    let raw = config.plan(Operation::RawConfig {
        node_type: NodeType::Trojan,
        node_id: -42,
    });
    assert_eq!(raw.method, HttpMethod::Get);
    assert_eq!(
        raw.url,
        "https://api.example.com/api/v1/server/trojan/config?token=tok&node_id=-42"
    );
    assert_eq!(raw.cache_key, None);

    let register = config.plan(Operation::Register {
        node_type: NodeType::Hysteria,
        node_id: 1007,
    });
    assert_eq!(register.method, HttpMethod::Post);
    assert_eq!(
        register.url,
        "https://api.example.com/api/v1/server/enhanced/hysteria/register?token=tok&node_id=1007"
    );

    let users = config.plan(Operation::Users {
        node_type: NodeType::VMess,
        register_id: "abc 1",
    });
    assert_eq!(users.method, HttpMethod::Get);
    assert_eq!(
        users.url,
        "https://api.example.com/api/v1/server/enhanced/vmess/users?token=tok&register_id=abc+1"
    );
    assert_eq!(users.cache_key, Some("vmess:abc 1".to_string()));

    let unregister = config.plan(Operation::Unregister {
        node_type: NodeType::AnyTLS,
        register_id: "r9",
    });
    assert_eq!(unregister.method, HttpMethod::Post);
    assert_eq!(
        unregister.url,
        "https://api.example.com/api/v1/server/enhanced/anytls/unregister?token=tok&register_id=r9"
    );

    let heartbeat = config.plan(Operation::Heartbeat {
        node_type: NodeType::Tuic,
    });
    assert_eq!(heartbeat.method, HttpMethod::Post);
    assert_eq!(
        heartbeat.url,
        "https://api.example.com/api/v1/server/enhanced/tuic/heartbeat?token=tok"
    );
    assert_eq!(heartbeat.cache_key, None);

    let stats = config.plan(Operation::SubmitStatsWithAgent {
        node_type: NodeType::ShadowSocks,
    });
    assert_eq!(
        stats.url,
        "https://api.example.com/api/v1/server/enhanced/shadowsocks/submitStatsWithAgent?token=tok"
    );

    let cfg = config.plan(Operation::Config {
        node_type: NodeType::Hysteria2,
        node_id: 0,
    });
    assert_eq!(
        cfg.url,
        "https://api.example.com/api/v1/server/enhanced/hysteria2/config?token=tok&node_id=0"
    );
}

#[test]
fn unknown_errors_are_of_unknown_kind() {
    let e = ApiError::Unknown {
        message: "boom".to_string(),
    };
    assert_eq!(e.error_type(), ErrorType::Unknown);
    assert!(!e.is_server_error());
    assert!(!e.is_network_error());
    assert!(!e.is_parse_error());
    assert!(!e.is_not_modified());
}

#[test]
fn request_and_response_records() {
    let verify = VerifyRequest::new("r1");
    assert_eq!(verify.register_id, "r1");

    let heartbeat = HeartbeatRequest::new("r2");
    assert_eq!(heartbeat.register_id, "r2");
    assert_eq!(heartbeat.node_ip, None);
    let heartbeat = heartbeat.with_node_ip("10.0.0.1");
    assert_eq!(heartbeat.register_id, "r2");
    assert_eq!(heartbeat.node_ip, Some("10.0.0.1".to_string()));

    let submit = SubmitRequest::new("r3", vec![UserTraffic::new(1, 2, 3)]);
    assert_eq!(submit.register_id, "r3");
    assert_eq!(submit.data, vec![UserTraffic::with_count(1, 2, 3, 0)]);

    let mut stats = TrafficStats::new();
    stats.add_user(4, 9);
    let submit_stats = SubmitStatsRequest::new("r4", stats);
    assert_eq!(submit_stats.register_id, "r4");
    assert_eq!(submit_stats.data.requests, 9);
    assert_eq!(submit_stats.data.user_ids, vec![4]);

    let plain = ApiResponse::new(7u8);
    assert_eq!(plain.data, 7);
    assert_eq!(plain.message, None);
    let with_message = ApiResponse::with_message(8u8, "ok");
    assert_eq!(with_message.data, 8);
    assert_eq!(with_message.message, Some("ok".to_string()));

    let users = UsersResponse::new(vec![1u8, 2], Some("e1".to_string()));
    assert_eq!(users.data, vec![1, 2]);
    assert_eq!(users.etag, Some("e1".to_string()));
}

#[test]
fn node_ids_and_hosts_at_the_edges() {
    let config = Config::new("http://h", "t");
    let min = config.plan(Operation::RawConfig {
        node_type: NodeType::Trojan,
        node_id: i64::MIN,
    });
    assert_eq!(
        min.url,
        "http://h/api/v1/server/trojan/config?token=t&node_id=-9223372036854775808"
    );
    let max = config.plan(Operation::Config {
        node_type: NodeType::Trojan,
        node_id: i64::MAX,
    });
    assert_eq!(
        max.url,
        "http://h/api/v1/server/enhanced/trojan/config?token=t&node_id=9223372036854775807"
    );
    let slashes = Config::new("///", "t").build_url("/p", &[]);
    assert_eq!(slashes, "/p?token=t");
    let inner = Config::new("http://h/a/", "t").build_url("/p", &[]);
    assert_eq!(inner, "http://h/a/p?token=t");
}
