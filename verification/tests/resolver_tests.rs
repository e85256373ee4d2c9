use autolinux::resolver::parse_netloc;
use autolinux::resolver::parse_probe_address;
use autolinux::resolver::void_repo_host;

#[test]
fn address_is_read_from_probe_output() {
    let out = "PING dl-cdn.alpinelinux.org (151.101.2.133) 56(84) bytes of data.";
    assert_eq!(parse_probe_address(out).unwrap(), "151.101.2.133");
}

#[test]
fn ipv6_addresses_are_accepted() {
    let out = "PING example.org (2606:2800:220:1::1) 56 data bytes";
    assert_eq!(parse_probe_address(out).unwrap(), "2606:2800:220:1::1");
}

#[test]
fn output_without_parentheses_is_unparseable() {
    let out = "ping: unknown host example.invalid";
    let err = parse_probe_address(out).unwrap_err();
    assert_eq!(err, format!("Could not parse IP from ping output: {}", out));
}

#[test]
fn parenthesized_token_without_dot_or_colon_is_rejected() {
    let out = "something (whatever) else";
    let err = parse_probe_address(out).unwrap_err();
    assert!(err.starts_with("Could not parse IP from ping output: "));
}

#[test]
fn unclosed_parenthesis_is_rejected() {
    let out = "PING host (1.2.3.4 truncated";
    assert!(parse_probe_address(out).is_err());
}

#[test]
fn netloc_splits_host_and_port() {
    assert_eq!(parse_netloc("example.org:8080"), ("example.org".to_string(), 8080));
    assert_eq!(parse_netloc("example.org"), ("example.org".to_string(), 443));
    assert_eq!(parse_netloc("example.org:notaport"), ("example.org".to_string(), 443));
    assert_eq!(parse_netloc("example.org:70000"), ("example.org".to_string(), 443));
    assert_eq!(parse_netloc("example.org:+80"), ("example.org".to_string(), 80));
    assert_eq!(parse_netloc(""), ("".to_string(), 443));
}

#[test]
fn the_void_repository_endpoint() {
    assert_eq!(void_repo_host(), "repo-default.voidlinux.org");
}
