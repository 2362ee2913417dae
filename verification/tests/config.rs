use mermaid_rs_remote_renderer::config::{
    BindAddress, ServerConfig, TimeLimit, layer_plan, rate_limit_plan,
};

#[test]
fn default_config_values() {
    let c = ServerConfig::default();
    assert_eq!(c.bind, BindAddress::V4 { ip: [0, 0, 0, 0], port: 3000 });
    assert_eq!(c.max_body_bytes, 65536);
    assert_eq!(c.requests_per_minute, 60);
    assert_eq!(c.rate_burst, 20);
    assert_eq!(c.max_concurrent_renders, 16);
    assert_eq!(c.render_timeout, TimeLimit::from_secs(10));
    assert_eq!(c.request_timeout, TimeLimit::from_secs(15));
    assert!(c.api_token.is_none());
    assert!(!c.trust_forwarded_for);
}

#[test]
fn test_config_disables_every_gate() {
    let c = ServerConfig::for_tests();
    assert_eq!(c.bind, BindAddress::V4 { ip: [127, 0, 0, 1], port: 0 });
    assert_eq!(c.requests_per_minute, 0);
    assert_eq!(c.rate_burst, 0);
    assert_eq!(c.max_concurrent_renders, 0);
    assert_eq!(c.render_timeout.as_secs(), 5);
    assert_eq!(c.request_timeout.as_secs(), 10);
    assert_eq!(c.max_body_bytes, 65536);
    let plan = layer_plan(&c);
    assert!(plan.rate_limit.is_none());
    assert!(plan.concurrency_limit.is_none());
    assert!(!plan.token_gate);
}

#[test]
fn time_limits() {
    let t = TimeLimit::from_nanos(1);
    assert_eq!((t.as_secs(), t.subsec_nanos()), (0, 1));
    let t = TimeLimit::from_millis(2500);
    assert_eq!((t.as_secs(), t.subsec_nanos()), (2, 500_000_000));
    let t = TimeLimit::from_nanos(3_000_000_007);
    assert_eq!((t.as_secs(), t.subsec_nanos()), (3, 7));
}

#[test]
fn rate_limit_plan_converts_rpm_to_period() {
    let config = ServerConfig {
        requests_per_minute: 60,
        rate_burst: 2,
        max_concurrent_renders: 0,
        ..ServerConfig::for_tests()
    };
    let plan = layer_plan(&config);
    let rate = plan.rate_limit.expect("rate limit enabled");
    assert_eq!(rate.period_ms, 1000);
    assert_eq!(rate.burst, 2);
    assert!(!rate.trust_forwarded_for);
    assert!(plan.concurrency_limit.is_none());

    let fast = ServerConfig { requests_per_minute: 120_000, rate_burst: 0, ..ServerConfig::for_tests() };
    let r = rate_limit_plan(&fast);
    assert_eq!((r.period_ms, r.burst), (1, 1));
    assert!(layer_plan(&fast).rate_limit.is_none());

    let odd = ServerConfig { requests_per_minute: 7, rate_burst: 3, trust_forwarded_for: true, ..ServerConfig::for_tests() };
    let r = rate_limit_plan(&odd);
    assert_eq!((r.period_ms, r.burst, r.trust_forwarded_for), (8571, 3, true));
}

#[test]
fn layer_plan_follows_config() {
    let config = ServerConfig {
        api_token: Some("s3cret".to_string()),
        max_concurrent_renders: 4,
        max_body_bytes: 16,
        ..ServerConfig::default()
    };
    let plan = layer_plan(&config);
    assert!(plan.token_gate);
    assert_eq!(plan.concurrency_limit, Some(4));
    assert_eq!(plan.body_limit, 16);
    assert_eq!(plan.request_timeout, TimeLimit::from_secs(15));
    let rate = plan.rate_limit.unwrap();
    assert_eq!((rate.period_ms, rate.burst), (1000, 20));
}

#[test]
fn ipv6_bind_keeps_flow_label_and_scope() {
    let bind = BindAddress::V6 { ip: [0xfe80, 0, 0, 0, 0, 0, 0, 1], port: 3000, flowinfo: 7, scope_id: 2 };
    let config = ServerConfig { bind, ..ServerConfig::default() };
    assert_eq!(
        config.bind,
        BindAddress::V6 { ip: [0xfe80, 0, 0, 0, 0, 0, 0, 1], port: 3000, flowinfo: 7, scope_id: 2 }
    );
}
