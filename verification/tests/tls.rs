//! What proxy and game server need to trust each other over TCP.
use hyperion::proxy_start::{
    run_proxy, tcp_proxy_plan, tcp_proxy_setup, RunProxyError, TcpProxyPlan, TcpProxySetup,
};
use hyperion::text::{decimal_text, find_last, hex_text, join};
use hyperion::tls::{
    material_with_anchor, server_name_from, strip_port, tls_material, tls_server_name, ServerNameError, TrustAnchor,
    TrustAnchorError,
};

#[test]
fn port_comes_off_at_the_last_colon() {
    assert_eq!(strip_port("game.example.com:35565"), Some("game.example.com".to_string()));
    assert_eq!(strip_port("[::1]:80"), Some("[::1]".to_string()));
    assert_eq!(strip_port(":"), Some(String::new()));
    assert_eq!(strip_port("game.example.com"), None);
    assert_eq!(strip_port(""), None);
    assert_eq!(strip_port("\u{fc}\u{1f600}:\u{e4}"), Some("\u{fc}\u{1f600}".to_string()));
}

#[test]
fn server_names() {
    assert_eq!(tls_server_name("game.example.com:35565"), Ok("game.example.com".to_string()));
    assert_eq!(tls_server_name("127.0.0.1:35565"), Ok("127.0.0.1".to_string()));
    assert_eq!(tls_server_name("0:0:0:0:0:0:0:1:80"), Ok("::1".to_string()));
    assert_eq!(tls_server_name("[::1]:80"), Err(ServerNameError::Invalid));
    assert_eq!(tls_server_name("no name:80"), Err(ServerNameError::Invalid));
    assert_eq!(tls_server_name(":80"), Err(ServerNameError::Invalid));
    assert_eq!(tls_server_name("game.example.com"), Err(ServerNameError::MissingPort));
    assert_eq!(ServerNameError::Invalid.message(), "failed to parse server name");
    assert_eq!(ServerNameError::MissingPort.message(), "server name is missing port");
}

#[test]
fn address_without_name_is_refused() {
    assert_eq!(server_name_from(None), Err(ServerNameError::MissingPort));
    assert_eq!(server_name_from(Some(None)), Err(ServerNameError::Invalid));
    assert_eq!(server_name_from(Some(Some("a".to_string()))), Ok("a".to_string()));
}

fn der(tag: u8, content: &[u8]) -> Vec<u8> {
    assert!(content.len() < 128);
    let mut bytes = vec![tag, content.len() as u8];
    bytes.extend_from_slice(content);
    bytes
}

const SEQUENCE: u8 = 0x30;
const SUBJECT: [u8; 4] = [0x31, 0x02, 0x05, 0x00];
const PUBLIC_KEY: [u8; 6] = [0x30, 0x00, 0x03, 0x02, 0x00, 0x2a];
const NAME_CONSTRAINTS: [u8; 2] = [0xa0, 0x00];

fn certificate(with_constraints: bool) -> Vec<u8> {
    let algorithm = der(SEQUENCE, &[0x06, 0x03, 0x2b, 0x65, 0x70]);
    let mut tbs = der(0xa0, &[0x02, 0x01, 0x02]);
    tbs.extend(der(0x02, &[0x05]));
    tbs.extend(algorithm.clone());
    tbs.extend(der(SEQUENCE, &[]));
    tbs.extend(der(SEQUENCE, &[]));
    tbs.extend(der(SEQUENCE, &SUBJECT));
    tbs.extend(der(SEQUENCE, &PUBLIC_KEY));
    if with_constraints {
        let mut extension = vec![0x06, 0x03, 0x55, 0x1d, 0x1e];
        extension.extend(der(0x04, &der(SEQUENCE, &NAME_CONSTRAINTS)));
        tbs.extend(der(0xa3, &der(SEQUENCE, &der(SEQUENCE, &extension))));
    }
    let mut certificate = der(SEQUENCE, &tbs);
    certificate.extend(algorithm);
    certificate.extend(der(0x03, &[0x00, 0x01]));
    der(SEQUENCE, &certificate)
}

#[test]
fn root_certificate_is_trusted_and_presented() {
    for with_constraints in [false, true] {
        let root = certificate(with_constraints);
        let material = tls_material(root.clone(), vec![1, 2, 3]).unwrap();

        assert_eq!(
            material.roots,
            vec![TrustAnchor {
                subject: SUBJECT.to_vec(),
                subject_public_key_info: PUBLIC_KEY.to_vec(),
                name_constraints: with_constraints.then_some(NAME_CONSTRAINTS.to_vec()),
            }]
        );
        assert_eq!(material.cert_chain, vec![vec![1, 2, 3], root]);
    }
}

#[test]
fn bytes_that_are_no_certificate_are_refused() {
    let error = tls_material(vec![1, 2, 3], vec![4]).unwrap_err();
    assert_eq!(error.message(), "failed to create trust anchor");
    let bytes = rustls_pki_types::CertificateDer::from(vec![1, 2, 3]);
    let expected = webpki::anchor_from_trusted_cert(&bytes).unwrap_err();
    assert_eq!(error.cause, expected.to_string());
}

#[test]
fn anchor_decides_about_the_material() {
    let anchor = || TrustAnchor {
        subject: vec![1],
        subject_public_key_info: vec![2],
        name_constraints: None,
    };
    let material = material_with_anchor(Ok(anchor()), vec![3], vec![4]).unwrap();
    assert_eq!(material.roots, vec![anchor()]);
    assert_eq!(material.cert_chain, vec![vec![4], vec![3]]);
    assert_eq!(
        material_with_anchor(Err("expired".to_string()), vec![3], vec![4]),
        Err(TrustAnchorError { cause: "expired".to_string() })
    );
}

fn failure(plan: Result<TcpProxyPlan<char>, RunProxyError>) -> RunProxyError {
    match plan {
        Ok(_) => panic!("a plan"),
        Err(error) => error,
    }
}

#[test]
fn proxy_over_tcp_reports_what_is_wrong_first() {
    let unread = || Err("not found".to_string());
    let cause = "not found".to_string();
    let root = || Ok(certificate(false));
    let error = failure(run_proxy("game.example.com", unread(), unread(), Err(cause.clone())));
    assert_eq!(error.message(), "server name is missing port");
    let error = failure(run_proxy("no name:1", unread(), unread(), Err(cause.clone())));
    assert_eq!(error.message(), "failed to parse server name");
    let error = failure(run_proxy("a.b:1", unread(), unread(), Err(cause.clone())));
    assert_eq!(error.message(), "failed to load root certificate authority certificate");
    assert_eq!(error, RunProxyError::RootCaCert { cause: cause.clone() });
    let error = failure(run_proxy("a.b:1", Ok(vec![1]), unread(), Err(cause.clone())));
    assert_eq!(error.message(), "failed to load proxy certificate");
    let error = failure(run_proxy("a.b:1", Ok(vec![1]), Ok(vec![2]), Err(cause.clone())));
    assert_eq!(error.message(), "failed to create trust anchor");
    assert!(matches!(error, RunProxyError::TrustAnchor(_)));
    let error = failure(run_proxy("a.b:1", root(), Ok(vec![2]), Err(cause.clone())));
    assert_eq!(error.message(), "failed to load proxy private key");
    assert_eq!(error, RunProxyError::PrivateKey { cause });
}

#[test]
fn proxy_over_tcp_knows_whom_to_trust() {
    let root = certificate(false);
    let plan = run_proxy("a.b:1", Ok(root.clone()), Ok(vec![2]), Ok('k')).ok().unwrap();
    assert_eq!(plan.server_name, "a.b");
    assert_eq!(plan.material, tls_material(root.clone(), vec![2]).unwrap());
    assert_eq!(plan.private_key, 'k');
    let anchor = TrustAnchor {
        subject: vec![1],
        subject_public_key_info: vec![2],
        name_constraints: Some(vec![3]),
    };
    let plan = tcp_proxy_plan(
        Ok("name".to_string()),
        Ok(vec![4]),
        Ok(vec![5]),
        Ok(anchor),
        Ok('k'),
    )
    .ok()
    .unwrap();
    assert_eq!(plan.material.roots.len(), 1);
    assert_eq!(plan.material.cert_chain, vec![vec![5], vec![4]]);
}

#[test]
fn proxy_over_tcp_needs_a_tls_config() {
    assert_eq!(
        tcp_proxy_setup("a.b".to_string(), Ok('c')),
        Ok(TcpProxySetup { server_name: "a.b".to_string(), config: 'c' })
    );
    let error =
        tcp_proxy_setup::<char>("a.b".to_string(), Err("bad key".to_string())).unwrap_err();
    assert_eq!(error.message(), "failed to create tls client config");
    assert_eq!(error, RunProxyError::TlsConfig { cause: "bad key".to_string() });
}

#[test]
fn texts_are_written_and_searched() {
    assert_eq!(decimal_text(0), "0");
    assert_eq!(decimal_text(u64::MAX), "18446744073709551615");
    assert_eq!(hex_text(&[0x00, 0xa5, 0xff]), "00a5ff");
    assert_eq!(hex_text(&[]), "");
    assert_eq!(join("a", ""), "a");
    assert_eq!(join("a", "b"), "ab");
    assert_eq!(find_last("a:b:c", ':'), Some(3));
    assert_eq!(find_last("abc", ':'), None);
}
