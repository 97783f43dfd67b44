use elux::outbound::{is_supported_scheme, work, OutboundClientConfig, ParseError};
use elux::payload::{decode_config_from_base64, determine_config_type, ConfigType};
use elux::urlparts::split_url;
use elux::vless::Vless;
use elux::ss::Shadowsocks;
use elux::trojan::Trojan;
use elux::model::XrayOutboundClientConfig;

#[test]
fn vless_reality_grpc_defaults() {
    let line = "vless://5b4e44c2-aaaa-bbbb-cccc-000000000001@example.com:443?type=grpc&mode=multi&pbk=P&sni=S&sid=I";
    let parts = split_url(line).expect("valid uri");
    let v = Vless::parse(&parts).expect("parses");
    let reality = v.reality.expect("reality block");
    assert_eq!(reality.public_key, "P");
    assert_eq!(reality.short_id, "I");
    assert_eq!(reality.server_name, "S");
    assert_eq!(reality.fingerprint.as_deref(), Some("chrome"));
    let grpc = v.grpc.expect("grpc block");
    assert!(grpc.multi_mode);
}

#[test]
fn vless_example_with_tls_and_display_name() {
    let line = "vless://5b4e44c2-aaaa-bbbb-cccc-000000000001@example.com:443?type=tcp&security=tls&sni=example.com#My%20Node";
    let parts = split_url(line).expect("valid uri");
    let v = Vless::parse(&parts).expect("parses");
    assert_eq!(v.address, "example.com");
    assert_eq!(v.port, 443);
    assert_eq!(v.transport, "tcp");
    assert_eq!(v.security.as_deref(), Some("tls"));
    let tls = v.tls.clone().expect("tls block");
    assert_eq!(tls.server_name.as_deref(), Some("example.com"));
    assert_eq!(v.extra.client_name.as_deref(), Some("My Node"));
    let c = XrayOutboundClientConfig::new(&OutboundClientConfig::Vless(v));
    assert_eq!(c.protocol, "vless");
    let vnext = c.settings.vnext.expect("vnext list");
    assert_eq!(vnext[0].address, "example.com");
    assert_eq!(vnext[0].port, 443);
    assert_eq!(vnext[0].users[0].id, "5b4e44c2-aaaa-bbbb-cccc-000000000001");
    assert_eq!(c.stream_settings.network.as_deref(), Some("tcp"));
}

#[test]
fn vless_missing_type_is_field_missing() {
    let parts = split_url("vless://u@h:443").expect("valid uri");
    match Vless::parse(&parts) {
        Err(ParseError::FieldMissing(f)) => assert_eq!(f, "type"),
        other => panic!("expected FieldMissing, got {:?}", other),
    }
}

#[test]
fn vless_missing_user_is_field_missing() {
    let parts = split_url("vless://h:443?type=tcp").expect("valid uri");
    match Vless::parse(&parts) {
        Err(ParseError::FieldMissing(f)) => assert_eq!(f, "user_id"),
        other => panic!("expected FieldMissing, got {:?}", other),
    }
}

#[test]
fn shadowsocks_credentials_decode() {
    // base64("aes-128-gcm:secret")
    let line = "ss://YWVzLTEyOC1nY206c2VjcmV0@host.example:8388#box";
    let parts = split_url(line).expect("valid uri");
    let s = Shadowsocks::parse(&parts).expect("parses");
    assert_eq!(s.method, "aes-128-gcm");
    assert_eq!(s.password, "secret");
    assert_eq!(s.address, "host.example");
    assert_eq!(s.port, 8388);
    assert_eq!(s.extra.client_name.as_deref(), Some("box"));
}

#[test]
fn shadowsocks_bad_base64_is_decode_error() {
    let parts = split_url("ss://%%%@host:8388").expect("valid uri");
    match Shadowsocks::parse(&parts) {
        Err(ParseError::Base64DecodeError) => {}
        other => panic!("expected Base64DecodeError, got {:?}", other),
    }
}

#[test]
fn trojan_tls_block_only_when_asked() {
    let line = "trojan://pw@h.example:2053?security=tls&sni=h.example&fp=randomized&type=ws";
    let parts = split_url(line).expect("valid uri");
    let t = Trojan::parse(&parts).expect("parses");
    assert_eq!(t.password, "pw");
    assert_eq!(t.network.as_deref(), Some("ws"));
    let tls = t.tls.expect("tls block");
    assert_eq!(tls.server_name.as_deref(), Some("h.example"));
    assert_eq!(tls.fingerprint.as_deref(), Some("randomized"));

    let parts2 = split_url("trojan://pw@h.example:2053?sni=h.example").expect("valid uri");
    let t2 = Trojan::parse(&parts2).expect("parses");
    assert!(t2.tls.is_none());
    assert_eq!(t2.network.as_deref(), Some("tcp"));
}

#[test]
fn batch_keeps_valid_lines_only() {
    let payload = "vless://u@a:1?type=tcp\nnot a url at all\nss://YWVzLTEyOC1nY206c2VjcmV0@b:2\nvmess://whatever@c:3\n";
    let configs = work(payload).expect("batch never fails");
    assert_eq!(configs.len(), 2);
    match &configs[0] {
        OutboundClientConfig::Vless(v) => assert_eq!(v.address, "a"),
        other => panic!("expected vless first, got {:?}", other),
    }
    match &configs[1] {
        OutboundClientConfig::Shadowsocks(s) => assert_eq!(s.address, "b"),
        other => panic!("expected shadowsocks second, got {:?}", other),
    }
}

#[test]
fn scheme_recognition() {
    assert!(is_supported_scheme("vless://x"));
    assert!(is_supported_scheme("vmess://x"));
    assert!(is_supported_scheme("ss://x"));
    assert!(is_supported_scheme("hysteria2://x"));
    assert!(is_supported_scheme("trojan://x"));
    assert!(!is_supported_scheme("http://x"));
}

#[test]
fn payload_classification() {
    assert_eq!(determine_config_type("vless://u@a:1?type=tcp").unwrap(), ConfigType::RAW);
    assert_eq!(determine_config_type("  https://example.com/sub  ").unwrap(), ConfigType::URL);
    assert_eq!(determine_config_type("dmxlc3M6Ly9AYToxCg==").unwrap(), ConfigType::BASE64);
    assert!(determine_config_type("!!! not anything !!!").is_err());
}

#[test]
fn base64_payload_unwrapping() {
    // base64("vless://u@a:1?type=tcp")
    let wrapped = " dmxlc3M6Ly91QGE6MT90eXBlPXRjcA== ";
    let text = decode_config_from_base64(wrapped).expect("decodes");
    assert_eq!(text, "vless://u@a:1?type=tcp");
    // not base64 at all: the trimmed payload passes through
    let plain = decode_config_from_base64("  vless://u@a:1?type=tcp ").expect("passes through");
    assert_eq!(plain, "vless://u@a:1?type=tcp");
}

#[test]
fn decimal_rendering_and_parsing() {
    assert_eq!(elux::numstr::u64_to_string(0), "0");
    assert_eq!(elux::numstr::u64_to_string(35536), "35536");
    assert_eq!(elux::numstr::parse_u64_dec("35536"), Some(35536));
    assert_eq!(elux::numstr::parse_u64_dec("007"), None);
    assert_eq!(elux::numstr::parse_u64_dec(""), None);
    assert_eq!(elux::numstr::parse_u64_dec("12a"), None);
}

#[test]
fn shadowsocks_missing_separator_is_field_missing() {
    // base64("nocolonhere"): decodes, but holds no method:password separator
    let parts = split_url("ss://bm9jb2xvbmhlcmU=@host:8388").expect("valid uri");
    match Shadowsocks::parse(&parts) {
        Err(ParseError::FieldMissing(f)) => assert_eq!(f, "credentials"),
        other => panic!("expected FieldMissing, got {:?}", other),
    }
}
