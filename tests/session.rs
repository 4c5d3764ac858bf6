use std::io::{Read, Write};
use std::sync::Arc;

use ntex_tls_server::query::{Capability, CapabilityValue, HttpProtocol};
use ntex_tls_server::session::{
    is_handshaking, new_session, process_read_buf, process_write_buf, query, read_pass,
    wants_write, write_pass, TlsError,
};
use rustls::pki_types::{CertificateDer, PrivateKeyDer, PrivatePkcs8KeyDer, ServerName};
use rustls::{ClientConfig, ClientConnection, RootCertStore, ServerConfig, ServerConnection};

const CA_CERT: &[&str] = &[
    "3082018c30820131a003020102021465fa3a9c3e9bd0631e8c8342747a54165fac3bb3300a06082a",
    "8648ce3d04030230123110300e06035504030c07546573742043413020170d323631303138323330",
    "3132395a180f32313236303932343233303132395a30123110300e06035504030c07546573742043",
    "413059301306072a8648ce3d020106082a8648ce3d03010703420004f55b18bee76c940b6f8e4034",
    "b8e73c6809e10a4daa555cb643460aee233d51f2811c051feb43d583776dfe25359416a34c070438",
    "ac2d401e514c30482f7ae3cfa3633061301d0603551d0e041604146591596bcd44db3f2eb3e439e9",
    "3342525f3c6369301f0603551d230418301680146591596bcd44db3f2eb3e439e93342525f3c6369",
    "300f0603551d130101ff040530030101ff300e0603551d0f0101ff040403020204300a06082a8648",
    "ce3d0403020349003046022100963e1bf2000d5d9b1e30d688ec65b05dfa1c80880433885dce8b4a",
    "1f7fadf612022100e39aa2ea37f2a62cbcff52078493a4ca8099523c471bc88edab6b8aeec5206ae",
];

const LEAF_CERT: &[&str] = &[
    "308201b83082015da00302010202144b18dcc50d43a32e08b4a3188422ca0cbcdd9fe3300a06082a",
    "8648ce3d04030230123110300e06035504030c07546573742043413020170d323631303138323330",
    "3132395a180f32313236303932343233303132395a30143112301006035504030c096c6f63616c68",
    "6f73743059301306072a8648ce3d020106082a8648ce3d03010703420004b34b93827c965bd499e3",
    "08ce38774ccf5aea7ba9ca422f73c813c41d7bbb5db9012f7969494c1129c5be5e181a10d346d84d",
    "83d4c107b0eaa7bad377d7f7a49ca3818c308189300c0603551d130101ff0402300030140603551d",
    "11040d300b82096c6f63616c686f737430130603551d25040c300a06082b06010505070301300e06",
    "03551d0f0101ff040403020780301d0603551d0e041604142b165470672ee66ebe11a4be91cf9b2c",
    "1f91e4e2301f0603551d230418301680146591596bcd44db3f2eb3e439e93342525f3c6369300a06",
    "082a8648ce3d0403020349003046022100be76edefbf479dcd483a016d0d8cc95cf826f6127add21",
    "247feb028cdf799edc022100c20a577d2b47e94ac5f65b438af52925e66c8eb78f73ab1bfe6485f7",
    "725c2134",
];

const LEAF_KEY: &[&str] = &[
    "308187020100301306072a8648ce3d020106082a8648ce3d030107046d306b0201010420747dbbad",
    "63083aaf76cc13aacad516fee31480901c07cddebf57f737e037c183a14403420004b34b93827c96",
    "5bd499e308ce38774ccf5aea7ba9ca422f73c813c41d7bbb5db9012f7969494c1129c5be5e181a10",
    "d346d84d83d4c107b0eaa7bad377d7f7a49c",
];

fn unhex(parts: &[&str]) -> Vec<u8> {
    let s = parts.concat();
    (0..s.len())
        .step_by(2)
        .map(|i| u8::from_str_radix(&s[i..i + 2], 16).unwrap())
        .collect()
}

fn provider() -> Arc<rustls::crypto::CryptoProvider> {
    Arc::new(rustls::crypto::ring::default_provider())
}

fn server_config(alpn: &[&[u8]]) -> Arc<ServerConfig> {
    let chain = vec![CertificateDer::from(unhex(LEAF_CERT)), CertificateDer::from(unhex(CA_CERT))];
    let key = PrivateKeyDer::Pkcs8(PrivatePkcs8KeyDer::from(unhex(LEAF_KEY)));
    let mut cfg = ServerConfig::builder_with_provider(provider())
        .with_safe_default_protocol_versions()
        .unwrap()
        .with_no_client_auth()
        .with_single_cert(chain, key)
        .unwrap();
    cfg.alpn_protocols = alpn.iter().map(|p| p.to_vec()).collect();
    Arc::new(cfg)
}

fn client(alpn: &[&[u8]]) -> ClientConnection {
    let mut roots = RootCertStore::empty();
    roots.add(CertificateDer::from(unhex(CA_CERT))).unwrap();
    let mut cfg = ClientConfig::builder_with_provider(provider())
        .with_safe_default_protocol_versions()
        .unwrap()
        .with_root_certificates(roots)
        .with_no_client_auth();
    cfg.alpn_protocols = alpn.iter().map(|p| p.to_vec()).collect();
    let name = ServerName::try_from("localhost").unwrap();
    let mut cl = ClientConnection::new(Arc::new(cfg), name).unwrap();
    cl.set_buffer_limit(None);
    cl
}

fn client_send(cl: &mut ClientConnection) -> Vec<u8> {
    let mut wire = Vec::new();
    while cl.wants_write() {
        cl.write_tls(&mut wire).unwrap();
    }
    wire
}

fn client_receive(cl: &mut ClientConnection, wire: &[u8]) -> Vec<u8> {
    let mut rd = wire;
    let mut plain = Vec::new();
    let mut buf = [0u8; 4096];
    while !rd.is_empty() {
        cl.read_tls(&mut rd).unwrap();
        cl.process_new_packets().unwrap();
        loop {
            match cl.reader().read(&mut buf) {
                Ok(0) => break,
                Ok(n) => plain.extend_from_slice(&buf[..n]),
                Err(_) => break,
            }
        }
    }
    plain
}

/// Runs the handshake between a rustls client and the server session,
/// driving the server through the buffer processors.
fn connect(client_alpn: &[&[u8]], server_alpn: &[&[u8]]) -> (ClientConnection, ServerConnection) {
    let mut cl = client(client_alpn);
    let mut srv = new_session(server_config(server_alpn)).unwrap();
    for _ in 0..10 {
        let mut inbound = client_send(&mut cl);
        let mut plain = Vec::new();
        while !inbound.is_empty() {
            process_read_buf(&mut srv, &mut inbound, &mut plain).unwrap();
        }
        let mut nothing = Vec::new();
        let mut outbound = Vec::new();
        process_write_buf(&mut srv, &mut nothing, &mut outbound).unwrap();
        client_receive(&mut cl, &outbound);
        if !cl.is_handshaking() && !is_handshaking(&srv) && !cl.wants_write() {
            return (cl, srv);
        }
    }
    panic!("handshake did not finish");
}

fn payload(len: usize) -> Vec<u8> {
    (0..len).map(|i| (i * 31 % 251) as u8).collect()
}

#[test]
fn handshake_completes_with_a_valid_peer() {
    let (cl, srv) = connect(&[], &[]);
    assert!(!cl.is_handshaking());
    assert!(!is_handshaking(&srv));
    assert!(!wants_write(&srv));
}

#[test]
fn client_bytes_decrypt_exactly() {
    for len in [0usize, 1, 5, 100, 70_000] {
        let (mut cl, mut srv) = connect(&[], &[]);
        let data = payload(len);
        cl.writer().write_all(&data).unwrap();
        let mut wire = client_send(&mut cl);
        let wire_len = wire.len();
        let mut plain = vec![9u8, 9];
        let mut n = 0;
        let mut calls = 0;
        while !wire.is_empty() && calls < 1000 {
            n += process_read_buf(&mut srv, &mut wire, &mut plain).unwrap();
            calls += 1;
        }
        assert_eq!(n, len, "wire {} left {} calls {}", wire_len, wire.len(), calls);
        assert_eq!(&plain[..2], &[9u8, 9]);
        assert_eq!(&plain[2..], &data[..]);
    }
}

#[test]
fn server_bytes_encrypt_for_the_peer() {
    for len in [0usize, 3, 20_000, 70_000] {
        let (mut cl, mut srv) = connect(&[], &[]);
        let data = payload(len);
        let mut src = data.clone();
        let mut out = Vec::new();
        process_write_buf(&mut srv, &mut src, &mut out).unwrap();
        assert!(src.is_empty());
        assert_eq!(out.is_empty(), len == 0);
        if len > 0 {
            assert_ne!(&out[..], &data[..]);
        }
        assert_eq!(client_receive(&mut cl, &out), data);
    }
}

#[test]
fn chunk_boundaries_do_not_change_plaintext() {
    let data = payload(40_000);
    for chunk in [1usize, 7, 1000, 16_500] {
        let (mut cl, mut srv) = connect(&[], &[]);
        cl.writer().write_all(&data).unwrap();
        let wire = client_send(&mut cl);
        let mut plain = Vec::new();
        let mut src = Vec::new();
        let mut total = 0;
        for piece in wire.chunks(chunk) {
            src.extend_from_slice(piece);
            total += process_read_buf(&mut srv, &mut src, &mut plain).unwrap();
        }
        let mut calls = 0;
        while !src.is_empty() && calls < 1000 {
            total += process_read_buf(&mut srv, &mut src, &mut plain).unwrap();
            calls += 1;
        }
        assert_eq!(total, data.len(), "chunk {} wire {} left {}", chunk, wire.len(), src.len());
        assert_eq!(plain, data);
    }
}

#[test]
fn invalid_handshake_bytes_are_rejected() {
    let mut srv = new_session(server_config(&[])).unwrap();
    let mut src = b"GET / HTTP/1.1\r\nHost: localhost\r\n\r\n".to_vec();
    let mut dst = Vec::new();
    let r = process_read_buf(&mut srv, &mut src, &mut dst);
    assert!(matches!(r, Err(TlsError::Engine(_))));
    assert!(dst.is_empty());
}

#[test]
fn empty_source_is_a_no_op() {
    let (_cl, mut srv) = connect(&[], &[]);
    let mut src = Vec::new();
    let mut dst = vec![1u8];
    assert_eq!(process_read_buf(&mut srv, &mut src, &mut dst).unwrap(), 0);
    assert_eq!(dst, vec![1u8]);
    let mut out = vec![2u8];
    process_write_buf(&mut srv, &mut src, &mut out).unwrap();
    assert_eq!(out, vec![2u8]);
}

#[test]
fn queries_are_absent_before_the_handshake() {
    let srv = new_session(server_config(&[b"h2"])).unwrap();
    for cap in [
        Capability::ApplicationProtocol,
        Capability::PeerCertificate,
        Capability::PeerCertificateChain,
        Capability::ServerName,
    ] {
        assert!(query(&srv, cap).is_none());
    }
}

#[test]
fn offered_h2_selects_http2() {
    let (_cl, srv) = connect(&[b"h2", b"http/1.1"], &[b"h2", b"http/1.1"]);
    assert!(matches!(
        query(&srv, Capability::ApplicationProtocol),
        Some(CapabilityValue::Protocol(HttpProtocol::Http2))
    ));
}

#[test]
fn no_alpn_falls_back_to_http1() {
    let (_cl, srv) = connect(&[], &[b"h2"]);
    assert!(matches!(
        query(&srv, Capability::ApplicationProtocol),
        Some(CapabilityValue::Protocol(HttpProtocol::Http1))
    ));
    let (_cl, srv) = connect(&[b"http/1.1"], &[b"h2", b"http/1.1"]);
    assert!(matches!(
        query(&srv, Capability::ApplicationProtocol),
        Some(CapabilityValue::Protocol(HttpProtocol::Http1))
    ));
}

#[test]
fn anonymous_client_presents_no_certificate() {
    let (_cl, srv) = connect(&[], &[]);
    assert!(query(&srv, Capability::PeerCertificate).is_none());
    assert!(query(&srv, Capability::PeerCertificateChain).is_none());
}

#[test]
fn server_name_is_the_one_asked_for() {
    let (_cl, srv) = connect(&[], &[]);
    match query(&srv, Capability::ServerName) {
        Some(CapabilityValue::ServerName(n)) => assert_eq!(n, "localhost"),
        other => panic!("unexpected answer {:?}", other),
    }
}

#[test]
fn unusable_configuration_fails_before_io() {
    let mut cfg = (*server_config(&[])).clone();
    cfg.max_fragment_size = Some(10);
    assert!(matches!(new_session(Arc::new(cfg)), Err(TlsError::Config(_))));
}

#[test]
fn read_pass_moves_accepted_bytes_and_plaintext() {
    let mut src = vec![1u8, 2, 3, 4, 5];
    let mut dst = vec![9u8];
    assert!(read_pass(&mut src, &mut dst, 3, vec![7, 8]));
    assert_eq!(src, vec![4, 5]);
    assert_eq!(dst, vec![9, 7, 8]);
    assert!(!read_pass(&mut src, &mut dst, 2, vec![]));
    assert!(src.is_empty());
    assert_eq!(dst, vec![9, 7, 8]);
}

#[test]
fn write_pass_continues_only_on_progress_with_output_pending() {
    let mut src = vec![1u8, 2, 3];
    assert!(write_pass(&mut src, 2, true, 0));
    assert_eq!(src, vec![3]);
    assert!(!write_pass(&mut src, 1, false, 10));
    assert!(src.is_empty());
    assert!(write_pass(&mut src, 0, true, 5));
    assert!(!write_pass(&mut src, 0, true, 0));
}
