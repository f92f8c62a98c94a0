use secure_websocket::config::{
    EntityConfig, GeneralConfig, KmeConfig, NoiseConfig, QkdConfig, WebSocketConfig,
};
use secure_websocket::error::{NoiseError, QkdError};
use secure_websocket::qkd::{
    check_api_status, key_to_psk, load_ca_certificate, load_identity, select_key_route, KeyData,
    KeyRequest, QkdClient,
};

fn entity(name: &str, n: u32, role: &str) -> EntityConfig {
    EntityConfig {
        name: name.to_string(),
        sae_id: format!("sae-{}", n),
        kme_id: format!("kme-{}", n),
        cert_file: format!("sae-{}.crt", n),
        key_file: format!("sae-{}.key", n),
        pem_file: format!("sae-{}.pem", n),
        root_ca_file: "client-root-ca.crt".to_string(),
        kme_ca_file: "kme-ca.crt".to_string(),
        kme_hostname: format!("kme-{}.example.com", n),
        role: role.to_string(),
    }
}

fn config() -> QkdConfig {
    QkdConfig {
        general: GeneralConfig {
            kme_url: "https://kme.local".to_string(),
            key_size: 32,
            timeout_seconds: 30,
        },
        alice: entity("Alice", 1, "initiator"),
        bob: entity("Bob", 2, "initiator"),
        server: entity("Server", 3, "responder"),
        kme: KmeConfig {
            base_url: "https://qukaydee.com:443".to_string(),
            status_endpoint: "/status".to_string(),
            enc_keys_endpoint: "/enc_keys".to_string(),
            dec_keys_endpoint: "/dec_keys".to_string(),
        },
        noise: NoiseConfig {
            pattern: "Noise_XXpsk2_25519_AESGCM_SHA256".to_string(),
            psk_position: 2,
        },
        websocket: WebSocketConfig { server_address: "127.0.0.1:8080".to_string() },
    }
}

fn route(user: &str, target: &str) -> (String, String) {
    let (e, sae) = select_key_route(&config(), user, target).unwrap();
    (e.name, sae)
}

#[test]
fn route_uses_own_entity_and_peer_sae() {
    assert_eq!(route("Alice", "Server"), ("Alice".to_string(), "sae-3".to_string()));
    assert_eq!(route("Alice", "Bob"), ("Alice".to_string(), "sae-2".to_string()));
    assert_eq!(route("Bob", "Server"), ("Bob".to_string(), "sae-3".to_string()));
    assert_eq!(route("Bob", "Alice"), ("Bob".to_string(), "sae-1".to_string()));
    assert_eq!(route("Server", "Alice"), ("Server".to_string(), "sae-1".to_string()));
    assert_eq!(route("Server", "Bob"), ("Server".to_string(), "sae-2".to_string()));
}

#[test]
fn route_is_mutual() {
    let cfg = config();
    let (alice, to_server) = select_key_route(&cfg, "Alice", "Server").unwrap();
    let (server, to_alice) = select_key_route(&cfg, "Server", "Alice").unwrap();
    assert_eq!(to_server, server.sae_id);
    assert_eq!(to_alice, alice.sae_id);
}

#[test]
fn route_rejects_unsupported_pairs() {
    let cfg = config();
    assert_eq!(
        select_key_route(&cfg, "Alice", "Alice").unwrap_err(),
        QkdError::ConfigError("Invalid username combination: Alice -> Alice".to_string())
    );
    assert_eq!(
        select_key_route(&cfg, "Eve", "Server").unwrap_err(),
        QkdError::ConfigError("Invalid username combination: Eve -> Server".to_string())
    );
    assert!(select_key_route(&cfg, "alice", "Server").is_err());
}

#[test]
fn psk_needs_exactly_32_bytes() {
    let key: Vec<u8> = (0u8..32).collect();
    let psk = key_to_psk(&key).unwrap();
    assert_eq!(psk.to_vec(), key);
    assert_eq!(
        key_to_psk(&vec![7u8; 16]).unwrap_err(),
        QkdError::KeyRetrievalError("Expected 32-byte key, got 16 bytes".to_string())
    );
    assert_eq!(
        key_to_psk(&Vec::new()).unwrap_err(),
        QkdError::KeyRetrievalError("Expected 32-byte key, got 0 bytes".to_string())
    );
    assert_eq!(
        key_to_psk(&vec![1u8; 130]).unwrap_err(),
        QkdError::KeyRetrievalError("Expected 32-byte key, got 130 bytes".to_string())
    );
}

#[test]
fn client_keeps_its_settings() {
    let client = QkdClient::new(entity("Alice", 1, "initiator"), "https://kme.local".to_string(), 32);
    assert_eq!(client.config().sae_id, "sae-1");
    assert_eq!(client.kme_url(), "https://kme.local");
    assert_eq!(client.key_size(), 32);
}

#[test]
fn enc_keys_url_names_host_and_target() {
    let client = QkdClient::new(entity("Alice", 1, "initiator"), "https://kme.local".to_string(), 32);
    assert_eq!(
        client.enc_keys_url("sae-3"),
        "https://kme-1.example.com/api/v1/keys/sae-3/enc_keys"
    );
}

#[test]
fn key_request_asks_for_one_key_in_bits() {
    let client = QkdClient::new(entity("Bob", 2, "initiator"), "https://kme.local".to_string(), 32);
    assert_eq!(client.key_request(), KeyRequest { number: 1, size: 256 });
}

fn key_data(key: &str) -> KeyData {
    KeyData { key_id: "id-1".to_string(), key: key.to_string() }
}

#[test]
fn response_key_is_decoded() {
    let client = QkdClient::new(entity("Alice", 1, "initiator"), "https://kme.local".to_string(), 32);
    let keys = vec![key_data("AAECAwQFBgcICQoLDA0ODxAREhMUFRYXGBkaGxwdHh8=")];
    let key = client.accept_key_response(&keys).unwrap();
    assert_eq!(key, (0u8..32).collect::<Vec<u8>>());
}

#[test]
fn response_first_key_is_taken() {
    let client = QkdClient::new(entity("Alice", 1, "initiator"), "https://kme.local".to_string(), 16);
    let keys = vec![key_data("AAECAwQFBgcICQoLDA0ODw=="), key_data("not base64")];
    assert_eq!(client.accept_key_response(&keys).unwrap(), (0u8..16).collect::<Vec<u8>>());
}

#[test]
fn response_without_keys_is_an_error() {
    let client = QkdClient::new(entity("Alice", 1, "initiator"), "https://kme.local".to_string(), 32);
    assert_eq!(
        client.accept_key_response(&Vec::new()).unwrap_err(),
        QkdError::KeyRetrievalError("No keys returned from KME".to_string())
    );
}

#[test]
fn response_with_bad_base64_is_an_error() {
    let client = QkdClient::new(entity("Alice", 1, "initiator"), "https://kme.local".to_string(), 32);
    match client.accept_key_response(&vec![key_data("%%%%")]).unwrap_err() {
        QkdError::KeyRetrievalError(m) => assert!(m.starts_with("Failed to decode key: ")),
        other => panic!("unexpected error {:?}", other),
    }
}

#[test]
fn response_with_wrong_key_size_is_an_error() {
    let client = QkdClient::new(entity("Alice", 1, "initiator"), "https://kme.local".to_string(), 32);
    assert_eq!(
        client.accept_key_response(&vec![key_data("AAECAwQFBgcICQoLDA0ODw==")]).unwrap_err(),
        QkdError::KeyRetrievalError("Key size mismatch: expected 32, got 16".to_string())
    );
}

#[test]
fn api_status_must_be_success() {
    assert_eq!(check_api_status(200, "200 OK", ""), Ok(()));
    assert_eq!(check_api_status(299, "299", "x"), Ok(()));
    assert_eq!(
        check_api_status(400, "400 Bad Request", "bad sae"),
        Err(QkdError::KeyRetrievalError("API returned error 400 Bad Request: bad sae".to_string()))
    );
    assert!(check_api_status(199, "199", "").is_err());
    assert!(check_api_status(300, "300 Multiple Choices", "").is_err());
}

#[test]
fn identity_needs_key_and_certificate() {
    match load_identity(b"no pem here") {
        Err(QkdError::CertificateError(m)) => assert!(m.starts_with("Failed to create identity: ")),
        _ => panic!("expected a certificate error"),
    }
    assert!(load_ca_certificate(b"-----BEGIN CERTIFICATE-----\n-----END CERTIFICATE-----\n").is_ok());
}

#[test]
fn error_messages_have_headings() {
    assert_eq!(QkdError::ConfigError("x".to_string()).message(), "Configuration error: x");
    assert_eq!(QkdError::CertificateError("y".to_string()).message(), "Certificate error: y");
    assert_eq!(QkdError::KeyRetrievalError("z".to_string()).message(), "Key retrieval error: z");
    assert_eq!(QkdError::NetworkError("w".to_string()).message(), "Network error: w");
    assert_eq!(NoiseError::HandshakeError("a".to_string()).message(), "Handshake error: a");
    assert_eq!(NoiseError::EncryptionError("b".to_string()).message(), "Encryption error: b");
    assert_eq!(NoiseError::DecryptionError("c".to_string()).message(), "Decryption error: c");
}

#[test]
fn decoded_key_must_have_the_configured_size() {
    let client = QkdClient::new(entity("Bob", 2, "initiator"), "https://kme.local".to_string(), 4);
    assert_eq!(client.accept_decoded_key(vec![1, 2, 3, 4]), Ok(vec![1, 2, 3, 4]));
    assert_eq!(
        client.accept_decoded_key(vec![1, 2, 3]),
        Err(QkdError::KeyRetrievalError("Key size mismatch: expected 4, got 3".to_string()))
    );
}
