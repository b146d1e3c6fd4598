use mcp_server::config::{RateLimitSettings, SecuritySettings};
use mcp_server::error::McpError;
use mcp_server::protocol::{CallToolRequest, JsonValue, ReadResourceRequest};
use mcp_server::security::{RateLimiter, SecurityValidator};

fn limiter(rate: u32, burst: u32, enabled: bool) -> RateLimiter {
    RateLimiter::new(&RateLimitSettings { enabled, requests_per_minute: rate, burst })
}

fn read(uri: &str) -> ReadResourceRequest {
    ReadResourceRequest { uri: uri.to_string() }
}

fn call(name: &str, args: JsonValue) -> CallToolRequest {
    CallToolRequest { name: name.to_string(), arguments: args }
}

fn object(entries: Vec<(&str, JsonValue)>) -> JsonValue {
    JsonValue::Object(entries.into_iter().map(|(k, v)| (k.to_string(), v)).collect())
}

#[test]
fn rate_limiter_rejects_eleventh_and_refills_one() {
    let mut l = limiter(10, 0, true);
    for _ in 0..10 {
        assert!(l.check(1_000).is_ok());
    }
    assert!(matches!(l.check(1_000), Err(McpError::RateLimitExceeded)));
    // one token every 6 s at 10 per minute
    assert!(l.check(7_000).is_ok());
    assert!(matches!(l.check(7_000), Err(McpError::RateLimitExceeded)));
}

#[test]
fn rate_limiter_burst_adds_capacity() {
    let mut l = limiter(2, 3, true);
    for _ in 0..5 {
        assert!(l.check(0).is_ok());
    }
    assert!(l.check(0).is_err());
}

#[test]
fn rate_limiter_refill_stops_at_capacity() {
    let mut l = limiter(1, 1, true);
    assert!(l.check(0).is_ok());
    assert!(l.check(0).is_ok());
    assert!(l.check(0).is_err());
    // a long wait refills only up to the capacity of two
    assert!(l.check(10_000_000).is_ok());
    assert!(l.check(10_000_000).is_ok());
    assert!(l.check(10_000_000).is_err());
}

#[test]
fn rate_limiter_clock_going_back_refills_nothing() {
    let mut l = limiter(60, 0, true);
    for _ in 0..60 {
        assert!(l.check(500_000).is_ok());
    }
    assert!(l.check(100).is_err());
}

#[test]
fn disabled_rate_limiter_admits_everything() {
    let mut l = limiter(0, 0, false);
    for _ in 0..1000 {
        assert!(l.check(0).is_ok());
    }
}

#[test]
fn denied_registry_is_forbidden() {
    let mut s = SecuritySettings::default();
    s.registries.denied_registries = vec!["evil.example".to_string()];
    let v = SecurityValidator::new(s);
    let r = v.validate_resource(&read("docker://image/evil.example/image:tag"));
    assert!(matches!(r, Err(McpError::OperationNotPermitted(_))));
    assert!(v.validate_resource(&read("docker://image/good.example/image:tag")).is_ok());
}

#[test]
fn denied_registry_needs_namespace_separator() {
    let mut s = SecuritySettings::default();
    s.registries.denied_registries = vec!["evil.example".to_string()];
    let v = SecurityValidator::new(s);
    assert!(v.validate_resource(&read("docker://image/evil.example.org/image")).is_ok());
    assert!(v.validate_resource(&read("docker://image/evil.example")).is_err());
}

#[test]
fn registry_allow_list_is_exclusive() {
    let mut s = SecuritySettings::default();
    s.registries.allowed_registries = Some(vec!["good.example".to_string()]);
    s.registries.denied_registries = vec!["good.example".to_string()];
    let v = SecurityValidator::new(s);
    assert!(v.validate_resource(&read("docker://image/good.example/app")).is_ok());
    assert!(v.validate_resource(&read("docker://image/other.example/app")).is_err());
}

#[test]
fn denied_base_image_is_forbidden() {
    let mut s = SecuritySettings::default();
    s.registries.denied_base_images = vec!["alpine:3".to_string()];
    let v = SecurityValidator::new(s);
    assert!(v.validate_resource(&read("docker://image/alpine:3")).is_err());
    assert!(v.validate_resource(&read("docker://image/alpine:4")).is_ok());
}

#[test]
fn compose_resource_follows_project_rule() {
    let mut s = SecuritySettings::default();
    s.networks.allowed_networks = Some(vec!["/srv/app".to_string()]);
    let v = SecurityValidator::new(s);
    assert!(v.validate_resource(&read("docker://compose//srv/app")).is_ok());
    assert!(v.validate_resource(&read("docker://compose//srv/other")).is_err());
    assert!(v.validate_resource(&read("docker://container/anything")).is_ok());
    assert!(v.validate_resource(&read("docker://info")).is_ok());
}

#[test]
fn tool_allow_and_deny_lists() {
    let mut s = SecuritySettings::default();
    s.commands.denied_commands = vec!["container-stop".to_string()];
    let v = SecurityValidator::new(s);
    assert!(matches!(
        v.validate_tool(&call("container-stop", JsonValue::Null)),
        Err(McpError::OperationNotPermitted(_))
    ));
    assert!(v.validate_tool(&call("list-images", JsonValue::Null)).is_ok());

    let mut s = SecuritySettings::default();
    s.commands.allowed_commands = Some(vec!["list-images".to_string()]);
    s.commands.denied_commands = vec!["list-images".to_string()];
    let v = SecurityValidator::new(s);
    assert!(v.validate_tool(&call("list-images", JsonValue::Null)).is_ok());
    assert!(v.validate_tool(&call("list-containers", JsonValue::Null)).is_err());
}

#[test]
fn compose_tool_checks_project_directory() {
    let mut s = SecuritySettings::default();
    s.networks.allowed_networks = Some(vec!["/srv/app".to_string()]);
    let v = SecurityValidator::new(s);
    let ok = object(vec![("project_directory", JsonValue::Str("/srv/app".to_string()))]);
    let bad = object(vec![("project_directory", JsonValue::Str("/tmp/x".to_string()))]);
    assert!(v.validate_tool(&call("compose-up", ok)).is_ok());
    assert!(v.validate_tool(&call("compose-down", bad)).is_err());
    let bad = object(vec![("project_directory", JsonValue::Str("/tmp/x".to_string()))]);
    assert!(v.validate_tool(&call("list-images", bad)).is_ok());
}

#[test]
fn refusal_messages_name_the_rule() {
    let mut s = SecuritySettings::default();
    s.commands.denied_commands = vec!["container-stop".to_string()];
    s.registries.denied_registries = vec!["evil.example".to_string()];
    s.networks.allowed_networks = Some(vec!["/srv/app".to_string()]);
    let v = SecurityValidator::new(s);
    match v.validate_tool(&call("container-stop", JsonValue::Null)) {
        Err(McpError::OperationNotPermitted(m)) => assert_eq!(m, "Tool 'container-stop' is in the denied list"),
        _ => panic!("expected a refusal"),
    }
    let bad = object(vec![("project_directory", JsonValue::Str("/tmp/x".to_string()))]);
    match v.validate_tool(&call("compose-up", bad)) {
        Err(McpError::OperationNotPermitted(m)) => {
            assert_eq!(m, "Project directory '/tmp/x' is not in the allowed list")
        }
        _ => panic!("expected a refusal"),
    }
    match v.validate_resource(&read("docker://image/evil.example/image:tag")) {
        Err(McpError::OperationNotPermitted(m)) => assert_eq!(m, "Registry 'evil.example' is in the denied list"),
        _ => panic!("expected a refusal"),
    }
    match v.validate_resource(&read("docker://compose//srv/other")) {
        Err(McpError::OperationNotPermitted(m)) => {
            assert_eq!(m, "Project directory '/srv/other' is not in the allowed list")
        }
        _ => panic!("expected a refusal"),
    }
}
