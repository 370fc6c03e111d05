use base64::Engine;
use frontdoor::resolver::{DynamicResolver, InsertError, KeyKind, PrivateKeyData};

fn pem_block(kind: &str, der: &[u8]) -> String {
    let b64 = base64::engine::general_purpose::STANDARD.encode(der);
    format!("-----BEGIN {}-----\n{}\n-----END {}-----\n", kind, b64, kind)
}

fn ed25519_key_pem(seed_byte: u8) -> Vec<u8> {
    let mut der: Vec<u8> = vec![
        0x30, 0x2e, 0x02, 0x01, 0x00, 0x30, 0x05, 0x06, 0x03, 0x2b, 0x65, 0x70, 0x04, 0x22,
        0x04, 0x20,
    ];
    der.extend_from_slice(&[seed_byte; 32]);
    pem_block("PRIVATE KEY", &der).into_bytes()
}

fn cert_chain_pem(payloads: &[&[u8]]) -> Vec<u8> {
    let mut out = String::new();
    for p in payloads {
        out.push_str(&pem_block("CERTIFICATE", p));
    }
    out.into_bytes()
}

#[test]
fn empty_table_resolves_nothing() {
    let table = DynamicResolver::new();
    assert!(table.resolve(None).is_none());
    assert!(table.resolve(Some(&"example.com".to_string())).is_none());
}

#[test]
fn inserted_hostname_resolves_to_its_identity() {
    let mut table = DynamicResolver::new();
    let r = table.insert(
        "example.com".to_string(),
        ed25519_key_pem(7),
        cert_chain_pem(&[b"leaf-der", b"issuer-der"]),
    );
    assert_eq!(r, Ok(()));
    let id = table
        .resolve(Some(&"example.com".to_string()))
        .expect("registered hostname must resolve");
    assert_eq!(id.chain, vec![b"leaf-der".to_vec(), b"issuer-der".to_vec()]);
}

#[test]
fn latest_insert_for_a_hostname_wins() {
    let mut table = DynamicResolver::new();
    table
        .insert(
            "example.com".to_string(),
            ed25519_key_pem(1),
            cert_chain_pem(&[b"old-chain"]),
        )
        .unwrap();
    table
        .insert(
            "example.com".to_string(),
            ed25519_key_pem(2),
            cert_chain_pem(&[b"new-chain"]),
        )
        .unwrap();
    let id = table.resolve(Some(&"example.com".to_string())).unwrap();
    assert_eq!(id.chain, vec![b"new-chain".to_vec()]);
}

#[test]
fn unregistered_hostname_never_resolves() {
    let mut table = DynamicResolver::new();
    table
        .insert(
            "example.com".to_string(),
            ed25519_key_pem(3),
            cert_chain_pem(&[b"chain"]),
        )
        .unwrap();
    assert!(table.resolve(Some(&"other.example".to_string())).is_none());
    assert!(table.resolve(None).is_none());
}

#[test]
fn inserts_for_distinct_hostnames_are_independent() {
    let mut table = DynamicResolver::new();
    table
        .insert(
            "a.example".to_string(),
            ed25519_key_pem(4),
            cert_chain_pem(&[b"chain-a"]),
        )
        .unwrap();
    table
        .insert(
            "b.example".to_string(),
            ed25519_key_pem(5),
            cert_chain_pem(&[b"chain-b"]),
        )
        .unwrap();
    let a = table.resolve(Some(&"a.example".to_string())).unwrap();
    let b = table.resolve(Some(&"b.example".to_string())).unwrap();
    assert_eq!(a.chain, vec![b"chain-a".to_vec()]);
    assert_eq!(b.chain, vec![b"chain-b".to_vec()]);
}

#[test]
fn install_publishes_only_engine_accepted_keys() {
    let mut table = DynamicResolver::new();
    let key = PrivateKeyData {
        kind: KeyKind::Pkcs8,
        der: vec![1, 2, 3],
    };
    let r = table.install("x.example".to_string(), key, false, vec![b"c".to_vec()]);
    assert_eq!(r, Err(InsertError::KeyParse));
    assert!(table.resolve(Some(&"x.example".to_string())).is_none());

    let key = PrivateKeyData {
        kind: KeyKind::Pkcs8,
        der: vec![1, 2, 3],
    };
    let r = table.install("x.example".to_string(), key, true, vec![b"c".to_vec()]);
    assert_eq!(r, Ok(()));
    let id = table.resolve(Some(&"x.example".to_string())).unwrap();
    assert_eq!(id.chain, vec![b"c".to_vec()]);
    assert_eq!(id.key.der, vec![1, 2, 3]);
    assert_eq!(id.key.kind, KeyKind::Pkcs8);
}

#[test]
fn malformed_key_is_rejected_and_table_unchanged() {
    let mut table = DynamicResolver::new();
    let r = table.insert(
        "example.com".to_string(),
        b"not a pem at all".to_vec(),
        cert_chain_pem(&[b"chain"]),
    );
    assert_eq!(r, Err(InsertError::KeyParse));
    assert!(table.resolve(Some(&"example.com".to_string())).is_none());
}

#[test]
fn unsupported_key_algorithm_is_rejected() {
    let mut table = DynamicResolver::new();
    // A syntactically valid PEM block whose DER is no usable signing key.
    let bogus = pem_block("PRIVATE KEY", &[0x30, 0x03, 0x02, 0x01, 0x00]).into_bytes();
    let r = table.insert(
        "example.com".to_string(),
        bogus,
        cert_chain_pem(&[b"chain"]),
    );
    assert_eq!(r, Err(InsertError::KeyParse));
    assert!(table.resolve(Some(&"example.com".to_string())).is_none());
}

#[test]
fn malformed_chain_is_rejected_and_table_unchanged() {
    let mut table = DynamicResolver::new();
    let bad_chain = b"-----BEGIN CERTIFICATE-----\n!!!not base64!!!\n-----END CERTIFICATE-----\n";
    let r = table.insert(
        "example.com".to_string(),
        ed25519_key_pem(6),
        bad_chain.to_vec(),
    );
    assert_eq!(r, Err(InsertError::CertParse));
    assert!(table.resolve(Some(&"example.com".to_string())).is_none());
}
