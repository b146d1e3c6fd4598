use mcp_server::backend::{
    check_compose_project, check_read_only, combine_output, compose_down_args, compose_up_args,
    endpoint_kind, is_read_only_operation, parse_filter, DockerEndpoint,
};
use mcp_server::config::{
    default_burst_limit, default_docker_host, default_rate_limit, docker_host_for, load_config,
    ConfigError, ConfigSource, DockerSettings, LoggingSettings, SecuritySettings, TransportType,
};

#[test]
fn defaults() {
    assert_eq!(default_rate_limit(), 60);
    assert_eq!(default_burst_limit(), 10);
    assert_eq!(default_docker_host(), "unix:///var/run/docker.sock");
    assert_eq!(docker_host_for(false), "npipe:////./pipe/docker_engine");
    let d = DockerSettings::default();
    assert_eq!(d.compose_path, "docker-compose");
    assert_eq!(d.operation_timeout, 60_000);
    assert_eq!(d.max_log_size, 1024 * 1024);
    let s = SecuritySettings::default();
    assert!(s.rate_limiting.enabled);
    assert_eq!(s.quotas.max_images, 50);
    assert!(s.commands.allowed_commands.is_none());
    let l = LoggingSettings::default();
    assert_eq!(l.level, "info");
    assert_eq!(l.format, "text");
    assert_eq!(TransportType::default(), TransportType::Stdio);
}

#[test]
fn config_sources_in_priority_order() {
    let plan = load_config(&vec![true, false, true], Some("my.yaml"), true).unwrap();
    assert_eq!(plan.len(), 5);
    assert!(matches!(plan[0], ConfigSource::Embedded));
    match &plan[1] {
        ConfigSource::File { path, required } => {
            assert_eq!(path, "config/default.yaml");
            assert!(!required);
        }
        _ => panic!("expected a file"),
    }
    match &plan[2] {
        ConfigSource::File { path, .. } => assert_eq!(path, "./config.yaml"),
        _ => panic!("expected a file"),
    }
    match &plan[3] {
        ConfigSource::File { path, required } => {
            assert_eq!(path, "my.yaml");
            assert!(required);
        }
        _ => panic!("expected the given file"),
    }
    match &plan[4] {
        ConfigSource::Environment { prefix, separator } => {
            assert_eq!(prefix, "DOCKER_MCP");
            assert_eq!(separator, "_");
        }
        _ => panic!("expected the environment"),
    }
    assert_eq!(load_config(&vec![false, false, false], None, false).unwrap().len(), 2);
}

#[test]
fn missing_config_file_is_an_error() {
    match load_config(&vec![false, false, false], Some("nope.yaml"), false) {
        Err(ConfigError::NotFound(p)) => assert_eq!(p, "nope.yaml"),
        Ok(_) => panic!("a missing file must be reported"),
    }
}

#[test]
fn read_only_mode() {
    assert!(is_read_only_operation("list_images"));
    assert!(!is_read_only_operation("compose_up"));
    assert!(check_read_only(true, "get_docker_info").is_ok());
    assert!(check_read_only(true, "container_stop").is_err());
    assert!(check_read_only(false, "container_stop").is_ok());
}

#[test]
fn compose_project_allow_list() {
    assert!(check_compose_project(&None, "/x").is_ok());
    let allowed = Some(vec!["/srv/a".to_string()]);
    assert!(check_compose_project(&allowed, "/srv/a").is_ok());
    assert!(check_compose_project(&allowed, "/srv/b").is_err());
}

#[test]
fn filters_need_exactly_one_equals() {
    assert_eq!(parse_filter("status=running"), Some(("status".to_string(), "running".to_string())));
    assert_eq!(parse_filter("=x"), Some((String::new(), "x".to_string())));
    assert_eq!(parse_filter("a=b=c"), None);
    assert_eq!(parse_filter("plain"), None);
}

#[test]
fn compose_arguments() {
    let services = vec!["web".to_string(), "db".to_string()];
    assert_eq!(compose_up_args(true, &services), vec!["up", "-d", "web", "db"]);
    assert_eq!(compose_up_args(false, &vec![]), vec!["up"]);
    assert_eq!(compose_down_args(true, Some("all")), vec!["down", "-v", "--rmi", "all"]);
    assert_eq!(compose_down_args(false, Some("local")), vec!["down", "--rmi", "local"]);
    assert_eq!(compose_down_args(false, Some("other")), vec!["down"]);
}

#[test]
fn command_output_joining() {
    assert_eq!(combine_output("", ""), "");
    assert_eq!(combine_output("ok", ""), "STDOUT:\nok");
    assert_eq!(combine_output("", "bad"), "STDERR:\nbad");
    assert_eq!(combine_output("ok", "bad"), "STDOUT:\nok\nSTDERR:\nbad");
}

#[test]
fn docker_endpoints() {
    assert_eq!(endpoint_kind("unix:///var/run/docker.sock"), DockerEndpoint::Unix);
    assert_eq!(endpoint_kind("npipe:////./pipe/docker_engine"), DockerEndpoint::NamedPipe);
    assert_eq!(endpoint_kind("tcp://localhost:2375"), DockerEndpoint::Http);
}

#[test]
fn read_only_refusal_message() {
    match check_read_only(true, "compose_up") {
        Err(mcp_server::error::McpError::OperationNotPermitted(m)) => assert_eq!(m, "Server is in read-only mode"),
        _ => panic!("expected a refusal"),
    }
}
