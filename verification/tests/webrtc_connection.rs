use swarm_webrtc::webrtc_connection::{
    certificate_fingerprint, connect_parameters, dial_parameters, listen_parameters,
    render_description, setting_engine, DtlsRole, IpAddress, IpVersion, NetworkType,
    SocketAddress, CLIENT_SESSION_DESCRIPTION, DIALER_UFRAG_LEN, SERVER_SESSION_DESCRIPTION,
};
use swarm_webrtc::Fingerprint;

fn server_answer(ip_version: &str, ip: &str, port: u16, fingerprint: &str, ufrag: &str) -> String {
    format!(
        "v=0
o=- 0 0 IN {v} {ip}
s=-
t=0 0
a=ice-lite
m=application {port} UDP/DTLS/SCTP webrtc-datachannel
c=IN {v} {ip}
a=mid:0
a=ice-options:ice2
a=ice-ufrag:{u}
a=ice-pwd:{u}
a=fingerprint:sha-256 {fp}
a=setup:passive
a=sctp-port:5000
a=max-message-size:16384
a=candidate:1 1 UDP 1 {ip} {port} typ host
",
        v = ip_version,
        ip = ip,
        port = port,
        fp = fingerprint,
        u = ufrag
    )
}

fn client_offer(ip_version: &str, ip: &str, port: u16, fingerprint: &str, ufrag: &str) -> String {
    format!(
        "v=0
o=- 0 0 IN {v} {ip}
s=-
c=IN {v} {ip}
t=0 0

m=application {port} UDP/DTLS/SCTP webrtc-datachannel
a=mid:0
a=ice-options:ice2
a=ice-ufrag:{u}
a=ice-pwd:{u}
a=fingerprint:sha-256 {fp}
a=setup:actpass
a=sctp-port:5000
a=max-message-size:16384
",
        v = ip_version,
        ip = ip,
        port = port,
        fp = fingerprint,
        u = ufrag
    )
}

fn v4() -> SocketAddress {
    SocketAddress { ip: IpAddress::V4("10.11.12.13".to_string()), port: 4001 }
}

fn v6() -> SocketAddress {
    SocketAddress { ip: IpAddress::V6("::1".to_string()), port: 9 }
}

#[test]
fn fingerprint_from_bytes_is_upper_hex_with_colons() {
    let fp = Fingerprint::from_bytes(&[0x7D, 0xE3, 0xD8, 0x3F, 0x00, 0x0a]);
    assert_eq!(fp.value(), "7D:E3:D8:3F:00:0A");
    assert_eq!(fp.algorithm(), "sha-256");
    assert_eq!(fp.as_str(), "7D:E3:D8:3F:00:0A");
    assert_eq!(Fingerprint::from_bytes(&[]).value(), "");
    assert_eq!(Fingerprint::from_bytes(&[0xff]).value(), "FF");
}

#[test]
fn fingerprint_of_32_bytes_has_95_characters() {
    let fp = Fingerprint::from_bytes(&[0xAB; 32]);
    assert_eq!(fp.value().len(), 3 * 32 - 1);
    assert_eq!(fp.to_ufrag().len(), 2 * 32);
}

#[test]
fn new_sha256_keeps_the_value() {
    let fp = Fingerprint::new_sha256("AB:cd".to_string());
    assert_eq!(fp.algorithm(), "sha-256");
    assert_eq!(fp.value(), "AB:cd");
}

#[test]
fn to_ufrag_drops_colons_and_lowercases() {
    let fp = Fingerprint::new_sha256("7D:E3:D8:3F:81:A6".to_string());
    assert_eq!(fp.to_ufrag(), "7de3d83f81a6");
    let fp = Fingerprint::new_sha256("::A::b:".to_string());
    assert_eq!(fp.to_ufrag(), "ab");
    let fp = Fingerprint::new_sha256("NONE".to_string());
    assert_eq!(fp.to_ufrag(), "none");
    let fp = Fingerprint::new_sha256(String::new());
    assert_eq!(fp.to_ufrag(), "");
}

#[test]
fn ufrag_of_bytes_is_lower_plain_hex() {
    let fp = Fingerprint::from_bytes(&[0x7D, 0xE3, 0x0F]);
    assert_eq!(fp.to_ufrag(), "7de30f");
}

#[test]
fn render_description_fills_every_field() {
    let fp = Fingerprint::from_bytes(&[0x01, 0xAB]);
    let sdp = render_description(SERVER_SESSION_DESCRIPTION, &v4(), &fp, "abcd");
    assert_eq!(sdp, server_answer("IP4", "10.11.12.13", 4001, "01:AB", "abcd"));
    let sdp = render_description(CLIENT_SESSION_DESCRIPTION, &v6(), &fp, "x");
    assert_eq!(sdp, client_offer("IP6", "::1", 9, "01:AB", "x"));
}

#[test]
fn render_description_renders_any_admissible_template() {
    let fp = Fingerprint::new_sha256("AB:CD".to_owned());
    let sdp = render_description(
        "{fingerprint_algorithm} {fingerprint_value} {ufrag} {pwd} {target_port}",
        &SocketAddress { ip: IpAddress::V4("127.0.0.1".to_string()), port: 4001 },
        &fp,
        "abcd",
    );
    assert_eq!(sdp, "sha-256 AB:CD abcd abcd 4001");
    let sdp = render_description("{ip_version}/{target_ip}} plain \\ text", &v6(), &fp, "u");
    assert_eq!(sdp, "IP6/::1} plain \\ text");
    assert_eq!(render_description("", &v6(), &fp, "u"), "");
}

#[test]
fn ip_version_names() {
    assert_eq!(IpVersion::IP4.as_str(), "IP4");
    assert_eq!(IpVersion::IP6.as_str(), "IP6");
    assert!(v4().is_ipv4());
    assert!(!v6().is_ipv4());
    assert_eq!(v6().ip(), "::1");
}

#[test]
fn setting_engine_uses_ufrag_and_ip_version() {
    let s = setting_engine("frag", true);
    assert_eq!(s.ice_username_fragment, "frag");
    assert_eq!(s.ice_password, "frag");
    assert!(s.detach_data_channels);
    assert_eq!(s.network_types, vec![NetworkType::Udp4]);
    assert!(!s.lite);
    assert!(!s.disable_certificate_fingerprint_verification);
    assert_eq!(s.answering_dtls_role, DtlsRole::Unspecified);
    assert_eq!(setting_engine("frag", false).network_types, vec![NetworkType::Udp6]);
}

#[test]
fn dial_parameters_expect_the_listener_credentials() {
    let remote = Fingerprint::from_bytes(&[0xAA, 0x0B]);
    let p = dial_parameters(&v4(), &remote, "local");
    assert_eq!(p.settings.ice_username_fragment, "local");
    assert_eq!(p.settings.ice_password, "local");
    assert_eq!(p.settings.network_types, vec![NetworkType::Udp4]);
    assert!(!p.settings.lite);
    assert_eq!(p.remote_description, server_answer("IP4", "10.11.12.13", 4001, "AA:0B", "aa0b"));
}

#[test]
fn connect_parameters_draw_a_random_alphanumeric_ufrag() {
    let remote = Fingerprint::from_bytes(&[0x10; 32]);
    let p = connect_parameters(&v6(), &remote);
    let ufrag = p.settings.ice_username_fragment.clone();
    assert_eq!(ufrag.chars().count(), DIALER_UFRAG_LEN);
    assert!(ufrag.chars().all(|c| c.is_ascii_alphanumeric()));
    assert_eq!(p.settings.ice_password, ufrag);
    assert_eq!(p.settings.network_types, vec![NetworkType::Udp6]);
    assert_eq!(
        p.remote_description,
        server_answer("IP6", "::1", 9, &remote.value(), &"10".repeat(32))
    );
    let q = connect_parameters(&v6(), &remote);
    assert_eq!(q.settings.ice_username_fragment.len(), DIALER_UFRAG_LEN);
}

#[test]
fn listen_parameters_answer_as_lite_dtls_server() {
    let ours = Fingerprint::from_bytes(&[0xC0, 0xFF, 0xEE]);
    let p = listen_parameters(&v4(), &ours, "theirs");
    assert_eq!(p.settings.ice_username_fragment, "c0ffee");
    assert_eq!(p.settings.ice_password, "c0ffee");
    assert!(p.settings.lite);
    assert!(p.settings.disable_certificate_fingerprint_verification);
    assert_eq!(p.settings.answering_dtls_role, DtlsRole::Server);
    assert_eq!(p.settings.network_types, vec![NetworkType::Udp4]);
    assert_eq!(p.remote_description, client_offer("IP4", "10.11.12.13", 4001, "NONE", "theirs"));
}

#[test]
fn listener_and_dialer_credentials_agree() {
    let fp = Fingerprint::from_bytes(&[0x12, 0x34, 0xAB]);
    let listener = listen_parameters(&v4(), &fp, "dialerfrag");
    let dialer = dial_parameters(&v4(), &fp, "dialerfrag");
    let expected_answer = server_answer(
        "IP4",
        "10.11.12.13",
        4001,
        "12:34:AB",
        &listener.settings.ice_username_fragment,
    );
    assert_eq!(listener.settings.ice_password, listener.settings.ice_username_fragment);
    assert_eq!(dialer.remote_description, expected_answer);
    let offer = listen_parameters(&v4(), &fp, &dialer.settings.ice_username_fragment);
    assert_eq!(
        offer.remote_description,
        client_offer("IP4", "10.11.12.13", 4001, "NONE", &dialer.settings.ice_password)
    );
}

#[test]
fn certificate_fingerprint_is_sha256() {
    let digest = certificate_fingerprint(b"abc");
    assert_eq!(
        Fingerprint::from_bytes(&digest).value(),
        "BA:78:16:BF:8F:01:CF:EA:41:41:40:DE:5D:AE:22:23:B0:03:61:A3:96:17:7A:9C:B4:10:FF:61:F2:00:15:AD"
    );
}

#[test]
fn fingerprints_of_different_bytes_differ() {
    let a = Fingerprint::from_bytes(&[0x01, 0x02]);
    let b = Fingerprint::from_bytes(&[0x01, 0x03]);
    let c = Fingerprint::from_bytes(&[0x01, 0x02, 0x00]);
    assert_ne!(a.value(), b.value());
    assert_ne!(a.value(), c.value());
    assert_eq!(a.value(), Fingerprint::from_bytes(&[0x01, 0x02]).value());
}

#[test]
fn ufrag_of_bytes_has_only_lower_hex_digits() {
    let ufrag = Fingerprint::from_bytes(&[0xDE, 0xAD, 0xBE, 0xEF, 0x09]).to_ufrag();
    assert_eq!(ufrag, "deadbeef09");
    assert!(ufrag.chars().all(|c| c.is_ascii_hexdigit() && !c.is_ascii_uppercase()));
}
