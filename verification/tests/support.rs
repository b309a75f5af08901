use orbit::client::{interpret_response, normalized_base_url, request_url, response_error_message};
use orbit::config::{effective_settings, OrbitConfig};
use orbit::errors::OrbitError;

#[test]
fn describe_each_variant() {
    assert_eq!(OrbitError::Http("down".to_string()).describe(), "HTTP request failed: down");
    assert_eq!(OrbitError::api(404, "nope".to_string()).describe(), "API error (404): nope");
    assert_eq!(OrbitError::Config("bad".to_string()).describe(), "Configuration error: bad");
    assert_eq!(OrbitError::Input("bad".to_string()).describe(), "Invalid input: bad");
    assert_eq!(OrbitError::Io("bad".to_string()).describe(), "IO error: bad");
    assert_eq!(OrbitError::Json("bad".to_string()).describe(), "JSON error: bad");
}

#[test]
fn describe_status_digits() {
    assert_eq!(OrbitError::api(0, "m".to_string()).describe(), "API error (0): m");
    assert_eq!(OrbitError::api(65535, "m".to_string()).describe(), "API error (65535): m");
    assert_eq!(OrbitError::api(500, "m".to_string()).describe(), "API error (500): m");
}

#[test]
fn default_config_is_empty() {
    let c = OrbitConfig::default();
    assert!(c.server.is_none());
    assert!(c.api_key.is_none());
    assert!(c.tenant.is_none());
    assert!(c.namespace.is_none());
    assert!(c.output.is_none());
}

#[test]
fn settings_precedence() {
    let cfg = OrbitConfig {
        server: Some("http://cfg:1".to_string()),
        api_key: Some("cfgkey".to_string()),
        tenant: None,
        namespace: Some("cfgns".to_string()),
        output: None,
    };
    let s = effective_settings(
        Some("http://cli:2".to_string()),
        None,
        Some("clitenant".to_string()),
        None,
        None,
        cfg,
    );
    assert_eq!(s.server, "http://cli:2");
    assert_eq!(s.api_key, Some("cfgkey".to_string()));
    assert_eq!(s.tenant, Some("clitenant".to_string()));
    assert_eq!(s.namespace, Some("cfgns".to_string()));
    assert_eq!(s.output, "table");
}

#[test]
fn settings_builtin_defaults() {
    let s = effective_settings(None, None, None, None, None, OrbitConfig::default());
    assert_eq!(s.server, "http://localhost:9000");
    assert_eq!(s.output, "table");
    assert_eq!(s.api_key, None);
}

#[test]
fn set_key_accepts_each_key() {
    let mut c = OrbitConfig::default();
    assert!(c.set_key("server", "http://s".to_string()).is_ok());
    assert!(c.set_key("api_key", "k".to_string()).is_ok());
    assert!(c.set_key("tenant", "t".to_string()).is_ok());
    assert!(c.set_key("namespace", "n".to_string()).is_ok());
    assert!(c.set_key("output", "json".to_string()).is_ok());
    assert_eq!(c.server, Some("http://s".to_string()));
    assert_eq!(c.api_key, Some("k".to_string()));
    assert_eq!(c.tenant, Some("t".to_string()));
    assert_eq!(c.namespace, Some("n".to_string()));
    assert_eq!(c.output, Some("json".to_string()));
    let mut d = OrbitConfig::default();
    assert!(d.set_key("api-key", "k2".to_string()).is_ok());
    assert_eq!(d.api_key, Some("k2".to_string()));
}

#[test]
fn set_key_rejects_unknown_key() {
    let mut c = OrbitConfig::default();
    match c.set_key("colour", "x".to_string()) {
        Err(OrbitError::Input(m)) => {
            assert_eq!(m, "Unknown key 'colour'. Valid keys: server, api_key, tenant, namespace, output");
        }
        _ => panic!("expected an input error"),
    }
    assert!(c.server.is_none());
}

#[test]
fn base_url_normalization() {
    assert_eq!(normalized_base_url("http://localhost:9000/"), "http://localhost:9000");
    assert_eq!(normalized_base_url("http://x///"), "http://x");
    assert_eq!(normalized_base_url("http://x"), "http://x");
    assert_eq!(request_url("http://x", "/functions/f"), "http://x/functions/f");
}

#[test]
fn error_response_uses_error_field() {
    match interpret_response(404, "{\"error\": \"function not found\"}") {
        Err(OrbitError::Api { status, message }) => {
            assert_eq!(status, 404);
            assert_eq!(message, "function not found");
        }
        _ => panic!("expected an API error"),
    }
}

#[test]
fn error_response_falls_back_to_body() {
    match interpret_response(500, "catastrophe") {
        Err(OrbitError::Api { status, message }) => {
            assert_eq!(status, 500);
            assert_eq!(message, "catastrophe");
        }
        _ => panic!("expected an API error"),
    }
    match interpret_response(500, "{\"detail\": \"x\"}") {
        Err(OrbitError::Api { message, .. }) => {
            assert_eq!(message, "{\"detail\": \"x\"}");
        }
        _ => panic!("expected an API error"),
    }
    assert_eq!(response_error_message("plain"), "plain");
}

#[test]
fn empty_success_body_is_null() {
    let v = interpret_response(200, "").unwrap();
    assert!(v.is_null());
}

#[test]
fn success_body_is_parsed() {
    let v = interpret_response(200, "{\"a\": 1}").unwrap();
    assert_eq!(v["a"], 1);
    match interpret_response(200, "not json") {
        Err(OrbitError::Json(_)) => {}
        _ => panic!("expected a JSON error"),
    }
}
