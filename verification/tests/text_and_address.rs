use n8n_supervisor::address::{health_url, placeholder_url, server_url};
use n8n_supervisor::port::{pick_port, port_or_default, DEFAULT_PORT};
use n8n_supervisor::registry::{get_server_url, ServerRegistry};
use n8n_supervisor::text::decimal_text;

#[test]
fn decimal_of_zero_is_one_digit() {
    assert_eq!(decimal_text(0), "0");
}

#[test]
fn decimal_of_single_digits() {
    assert_eq!(decimal_text(7), "7");
    assert_eq!(decimal_text(9), "9");
}

#[test]
fn decimal_at_powers_of_ten() {
    assert_eq!(decimal_text(10), "10");
    assert_eq!(decimal_text(99), "99");
    assert_eq!(decimal_text(100), "100");
    assert_eq!(decimal_text(1000), "1000");
    assert_eq!(decimal_text(10000), "10000");
}

#[test]
fn decimal_of_largest_values() {
    assert_eq!(decimal_text(65535), "65535");
    assert_eq!(decimal_text(u64::MAX), "18446744073709551615");
}

#[test]
fn decimal_agrees_with_std_on_every_port() {
    let mut port: u32 = 0;
    while port <= 65535 {
        assert_eq!(decimal_text(port as u64), port.to_string());
        port += 1;
    }
}

#[test]
fn server_url_names_the_port() {
    assert_eq!(server_url(5678), "http://localhost:5678");
    assert_eq!(server_url(15000), "http://localhost:15000");
    assert_eq!(server_url(0), "http://localhost:0");
    assert_eq!(server_url(65535), "http://localhost:65535");
}

#[test]
fn placeholder_is_the_default_address() {
    assert_eq!(placeholder_url(), "http://localhost:5678");
    assert_eq!(placeholder_url(), server_url(DEFAULT_PORT));
}

#[test]
fn health_url_is_below_the_address() {
    assert_eq!(health_url("http://localhost:5678"), "http://localhost:5678/healthz");
    assert_eq!(health_url(""), "/healthz");
}

#[test]
fn default_port_value() {
    assert_eq!(DEFAULT_PORT, 5678);
}

#[test]
fn port_or_default_keeps_a_found_port() {
    assert_eq!(port_or_default(Some(15001)), 15001);
    assert_eq!(port_or_default(Some(0)), 0);
    assert_eq!(port_or_default(Some(65535)), 65535);
}

#[test]
fn port_or_default_falls_back() {
    assert_eq!(port_or_default(None), 5678);
}

#[test]
fn pick_port_always_gives_a_port() {
    let port = pick_port();
    assert_eq!(server_url(port), format!("http://localhost:{}", port));
}

#[test]
fn registry_answers_with_placeholder_before_set() {
    let registry = ServerRegistry::new();
    assert!(!registry.is_set());
    assert_eq!(registry.get(), "http://localhost:5678");
    assert_eq!(get_server_url(&registry), Ok("http://localhost:5678".to_string()));
}

#[test]
fn registry_answers_with_stored_address() {
    let mut registry = ServerRegistry::new();
    registry.set("http://localhost:15000".to_string());
    assert!(registry.is_set());
    assert_eq!(registry.get(), "http://localhost:15000");
    assert_eq!(registry.get(), "http://localhost:15000");
    assert_eq!(get_server_url(&registry), Ok("http://localhost:15000".to_string()));
}

#[test]
fn registry_set_replaces() {
    let mut registry = ServerRegistry::new();
    registry.set("http://localhost:1".to_string());
    registry.set("http://localhost:2".to_string());
    assert_eq!(registry.get(), "http://localhost:2");
}
