//! Address parsing: free-form input and strict endpoint URLs.

use denginks_opcua_diagnostic::diagnostics::parse_user_input;
use denginks_opcua_diagnostic::precheck::parse_endpoint_url;
use denginks_opcua_diagnostic::discovery::parse_security_policy_name;

#[test]
fn test_parse_ip_only() {
    let result = parse_user_input("192.168.1.100");
    assert!(result.is_valid());
    assert_eq!(result.host, "192.168.1.100");
    assert_eq!(result.port, None);
    assert!(!result.had_scheme);
}

#[test]
fn test_parse_ip_with_port() {
    let result = parse_user_input("192.168.1.100:4840");
    assert!(result.is_valid());
    assert_eq!(result.host, "192.168.1.100");
    assert_eq!(result.port, Some(4840));
}

#[test]
fn test_parse_full_url() {
    let result = parse_user_input("opc.tcp://myserver.local:4840/UA/Server");
    assert!(result.is_valid());
    assert_eq!(result.host, "myserver.local");
    assert_eq!(result.port, Some(4840));
    assert!(result.had_scheme);
}

#[test]
fn test_parse_hostname_only() {
    let result = parse_user_input("myserver.local");
    assert!(result.is_valid());
    assert_eq!(result.host, "myserver.local");
    assert_eq!(result.port, None);
}

#[test]
fn test_parse_invalid_scheme() {
    let result = parse_user_input("http://192.168.1.100:4840");
    assert!(!result.is_valid());
    assert!(result.errors[0].contains("opc.tcp://"));
    let result = parse_user_input("opc.tcp://");
    assert!(!result.is_valid());
}

#[test]
fn test_parse_empty() {
    let result = parse_user_input("");
    assert!(!result.is_valid());
}

#[test]
fn test_parse_ipv6_bracketed() {
    let result = parse_user_input("[::1]:4840");
    assert!(result.is_valid());
    assert_eq!(result.host, "[::1]");
    assert_eq!(result.port, Some(4840));
}

#[test]
fn test_parse_trims_whitespace() {
    let result = parse_user_input("  myserver.local:4841  ");
    assert!(result.is_valid());
    assert_eq!(result.host, "myserver.local");
    assert_eq!(result.port, Some(4841));
}

#[test]
fn test_parse_bad_port_is_part_of_host() {
    let result = parse_user_input("myserver:notaport");
    assert!(result.is_valid());
    assert_eq!(result.host, "myserver:notaport");
    assert_eq!(result.port, None);
}

#[test]
fn test_parse_invalid_port_in_brackets() {
    let result = parse_user_input("[::1]:99999");
    assert!(!result.is_valid());
    assert_eq!(result.host, "[::1]");
    assert_eq!(result.port, None);
    assert_eq!(result.errors[0], "Invalid port: 99999");
}

#[test]
fn test_parse_unclosed_bracket() {
    let result = parse_user_input("[::1");
    assert!(!result.is_valid());
    assert_eq!(result.errors.len(), 2);
    assert_eq!(result.errors[0], "Invalid IPv6 address format");
    assert_eq!(result.errors[1], "Host cannot be empty");
}

#[test]
fn test_parse_endpoint_url() {
    assert_eq!(
        parse_endpoint_url("opc.tcp://localhost:4840").unwrap(),
        ("localhost".to_string(), 4840)
    );

    assert_eq!(
        parse_endpoint_url("opc.tcp://192.168.1.100:4841/path").unwrap(),
        ("192.168.1.100".to_string(), 4841)
    );

    assert_eq!(
        parse_endpoint_url("opc.tcp://server.example.com").unwrap(),
        ("server.example.com".to_string(), 4840)
    );

    // IPv6 (basic support)
    assert_eq!(
        parse_endpoint_url("opc.tcp://[::1]:4840").unwrap(),
        ("[::1]".to_string(), 4840)
    );

    // Malformed URLs
    assert!(parse_endpoint_url("http://localhost:4840").is_err());
    assert!(parse_endpoint_url("opc.tcp://").is_err());
    assert!(parse_endpoint_url("opc.tcp://host:port:extra").is_err());
}

#[test]
fn test_parse_security_policy() {
    assert_eq!(
        parse_security_policy_name("http://opcfoundation.org/UA/SecurityPolicy#Basic256Sha256"),
        "Basic256Sha256"
    );
    assert_eq!(
        parse_security_policy_name("http://opcfoundation.org/UA/SecurityPolicy#None"),
        "None"
    );
    assert_eq!(parse_security_policy_name(""), "None");
}

#[test]
fn test_to_url_round_trip() {
    let parsed = parse_user_input("myserver.local");
    assert!(parsed.is_valid());
    let url = parsed.to_url(4840);
    assert_eq!(url, "opc.tcp://myserver.local:4840");
    assert_eq!(parse_endpoint_url(&url).unwrap(), ("myserver.local".to_string(), 4840));

    let parsed6 = parse_user_input("[::1]:4840");
    let url6 = parsed6.to_url(48010);
    assert_eq!(url6, "opc.tcp://[::1]:48010");
    assert_eq!(parse_endpoint_url(&url6).unwrap(), ("[::1]".to_string(), 48010));
}

#[test]
fn test_to_url_port_edges() {
    let parsed = parse_user_input("h");
    assert_eq!(parsed.to_url(0), "opc.tcp://h:0");
    assert_eq!(parsed.to_url(65535), "opc.tcp://h:65535");
}

#[test]
fn test_parse_trims_unicode_whitespace() {
    let result = parse_user_input("\u{000C}\u{00A0}myserver.local\u{3000}");
    assert!(result.is_valid());
    assert_eq!(result.host, "myserver.local");
}
