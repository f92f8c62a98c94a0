//! Retrieval of QKD keys: which entity asks for which peer's key, the
//! ETSI GS QKD 014 `enc_keys` request, and how a KME reply becomes a key.
use vstd::prelude::*;

use crate::config::{EntityConfig, QkdConfig};
use crate::error::QkdError;
use crate::text::{decimal_text, same_text};

verus! {

// ---------------------------------------------------------------------------
// Outside items: base64 decoding (data-encoding) and TLS material (reqwest).
// ---------------------------------------------------------------------------

#[verifier::external_type_specification]
#[verifier::external_body]
pub struct ExDecodeError(data_encoding::DecodeError);

#[verifier::external_type_specification]
#[verifier::external_body]
pub struct ExIdentity(reqwest::Identity);

#[verifier::external_type_specification]
#[verifier::external_body]
pub struct ExCertificate(reqwest::Certificate);

#[verifier::external_type_specification]
#[verifier::external_body]
pub struct ExReqwestError(reqwest::Error);

/// The bytes that `data_encoding::BASE64` (standard alphabet, with padding)
/// decodes `input` to, or `None` where it rejects `input`.
pub uninterp spec fn base64_decoded(input: Seq<u8>) -> Option<Seq<u8>>;

/// Whether `reqwest::Identity::from_pem` accepts `pem` (a PEM file holding a
/// private key and at least one certificate).
pub uninterp spec fn identity_pem_accepted(pem: Seq<u8>) -> bool;

/// The identity `reqwest::Identity::from_pem` builds from `pem` where it
/// accepts it (its private key and certificate chain, read from the bytes).
pub uninterp spec fn identity_of(pem: Seq<u8>) -> reqwest::Identity;

/// The certificate `reqwest::Certificate::from_pem` builds from `pem`.
pub uninterp spec fn ca_certificate_of(pem: Seq<u8>) -> reqwest::Certificate;

/// Calls `data_encoding::BASE64.decode`. Trusted: the result is `Ok` exactly
/// where the decoding is defined, and then holds the decoded bytes.
#[verifier::external_body]
fn base64_decode(input: &[u8]) -> (r: Result<Vec<u8>, data_encoding::DecodeError>)
    ensures
        r is Ok <==> base64_decoded(input@) is Some,
        r matches Ok(v) ==> base64_decoded(input@) == Some(v@),
{
    data_encoding::BASE64.decode(input)
}

/// Calls `reqwest::Identity::from_pem`. Trusted: with the `rustls-tls`
/// backend the source reads the key and certificates from the bytes alone, so
/// it succeeds exactly where the named predicate holds of the input, and the
/// identity is the one named for it.
#[verifier::external_body]
fn identity_from_pem(pem: &[u8]) -> (r: Result<reqwest::Identity, reqwest::Error>)
    ensures
        r is Ok <==> identity_pem_accepted(pem@),
        r matches Ok(id) ==> id == identity_of(pem@),
{
    reqwest::Identity::from_pem(pem)
}

/// Calls `reqwest::Certificate::from_pem`. Trusted: with the `rustls-tls`
/// backend the source only stores a copy of the bytes, so the call always
/// succeeds, with the certificate named for those bytes.
#[verifier::external_body]
fn certificate_from_pem(pem: &[u8]) -> (r: Result<reqwest::Certificate, reqwest::Error>)
    ensures
        r is Ok,
        r matches Ok(c) ==> c == ca_certificate_of(pem@),
{
    reqwest::Certificate::from_pem(pem)
}

// ---------------------------------------------------------------------------
// Which key a user asks for.
// ---------------------------------------------------------------------------

/// The entity whose credentials `user` uses and the SAE id of the peer it
/// wants a key shared with, for the six supported pairs of distinct users
/// among Alice, Bob and the server; `None` for any other pair.
pub open spec fn key_route(config: QkdConfig, user: Seq<char>, target: Seq<char>) -> Option<
    (EntityConfig, Seq<char>),
> {
    if user == "Alice"@ && target == "Server"@ {
        Some((config.alice, config.server.sae_id@))
    } else if user == "Alice"@ && target == "Bob"@ {
        Some((config.alice, config.bob.sae_id@))
    } else if user == "Bob"@ && target == "Server"@ {
        Some((config.bob, config.server.sae_id@))
    } else if user == "Bob"@ && target == "Alice"@ {
        Some((config.bob, config.alice.sae_id@))
    } else if user == "Server"@ && target == "Alice"@ {
        Some((config.server, config.alice.sae_id@))
    } else if user == "Server"@ && target == "Bob"@ {
        Some((config.server, config.bob.sae_id@))
    } else {
        None
    }
}

/// Whether `name` is one of the three configured users.
pub open spec fn is_known_user(name: Seq<char>) -> bool {
    name == "Alice"@ || name == "Bob"@ || name == "Server"@
}

/// The configured entity of a known user.
pub open spec fn entity_of(config: QkdConfig, name: Seq<char>) -> EntityConfig {
    if name == "Alice"@ {
        config.alice
    } else if name == "Bob"@ {
        config.bob
    } else {
        config.server
    }
}

proof fn lemma_user_names_distinct()
    ensures
        "Alice"@ != "Bob"@,
        "Alice"@ != "Server"@,
        "Bob"@ != "Server"@,
{
    reveal_strlit("Alice");
    reveal_strlit("Bob");
    reveal_strlit("Server");
    assert("Alice"@.len() == 5);
    assert("Bob"@.len() == 3);
    assert("Server"@.len() == 6);
}

/// A key can be asked for exactly between two different known users, and the
/// asking user always uses its own entity's credentials.
pub proof fn lemma_key_route_domain(config: QkdConfig, user: Seq<char>, target: Seq<char>)
    ensures
        key_route(config, user, target) is Some <==> (is_known_user(user) && is_known_user(
            target,
        ) && user != target),
        key_route(config, user, target) is Some ==> key_route(config, user, target)->Some_0.0
            == entity_of(config, user),
{
    lemma_user_names_distinct();
}

/// Key pairing is mutual: if `user` may ask for a key shared with `target`,
/// then `target` may ask for one shared with `user`, and each side's request
/// names the SAE id of the other side's entity.
pub proof fn lemma_key_route_mutual(config: QkdConfig, user: Seq<char>, target: Seq<char>)
    requires
        key_route(config, user, target) is Some,
    ensures
        key_route(config, target, user) is Some,
        key_route(config, user, target)->Some_0.1 == key_route(
            config,
            target,
            user,
        )->Some_0.0.sae_id@,
        key_route(config, target, user)->Some_0.1 == key_route(
            config,
            user,
            target,
        )->Some_0.0.sae_id@,
{
    lemma_user_names_distinct();
}

/// The detail of the error for an unsupported pair of users.
pub open spec fn invalid_pair_text(user: Seq<char>, target: Seq<char>) -> Seq<char> {
    "Invalid username combination: "@ + user + " -> "@ + target
}

/// Chooses the entity configuration and the peer's SAE id for `username`
/// asking for a key shared with `target_username`.
pub fn select_key_route(config: &QkdConfig, username: &str, target_username: &str) -> (r: Result<
    (EntityConfig, String),
    QkdError,
>)
    ensures
        match key_route(*config, username@, target_username@) {
            Some((entity, sae)) => r matches Ok((e, s)) && e == entity && s@ == sae,
            None => r matches Err(QkdError::ConfigError(m)) && m@ == invalid_pair_text(
                username@,
                target_username@,
            ),
        },
{
    let alice = same_text(username, "Alice");
    let bob = same_text(username, "Bob");
    let server = same_text(username, "Server");
    let to_alice = same_text(target_username, "Alice");
    let to_bob = same_text(target_username, "Bob");
    let to_server = same_text(target_username, "Server");
    if alice && to_server {
        Ok((config.alice.clone(), config.server.sae_id.clone()))
    } else if alice && to_bob {
        Ok((config.alice.clone(), config.bob.sae_id.clone()))
    } else if bob && to_server {
        Ok((config.bob.clone(), config.server.sae_id.clone()))
    } else if bob && to_alice {
        Ok((config.bob.clone(), config.alice.sae_id.clone()))
    } else if server && to_alice {
        Ok((config.server.clone(), config.alice.sae_id.clone()))
    } else if server && to_bob {
        Ok((config.server.clone(), config.bob.sae_id.clone()))
    } else {
        let mut m = String::from_str("Invalid username combination: ");
        m.append(username);
        m.append(" -> ");
        m.append(target_username);
        Err(QkdError::ConfigError(m))
    }
}

/// The detail of the error for a retrieved key that is not 32 bytes long.
pub open spec fn psk_length_text(got: nat) -> Seq<char> {
    "Expected 32-byte key, got "@ + crate::text::decimal(got) + " bytes"@
}

/// Turns a retrieved key into a 32-byte pre-shared key.
pub fn key_to_psk(key: &Vec<u8>) -> (r: Result<[u8; 32], QkdError>)
    ensures
        key@.len() == 32 ==> (r matches Ok(a) && a@ == key@),
        key@.len() != 32 ==> (r matches Err(QkdError::KeyRetrievalError(m)) && m@
            == psk_length_text(key@.len())),
{
    if key.len() != 32 {
        let mut m = String::from_str("Expected 32-byte key, got ");
        let n = decimal_text(key.len());
        m.append(n.as_str());
        m.append(" bytes");
        return Err(QkdError::KeyRetrievalError(m));
    }
    let mut a: [u8; 32] = [0u8; 32];
    let mut i: usize = 0;
    while i < 32
        invariant
            i <= 32,
            key@.len() == 32,
            forall|k: int| 0 <= k < i ==> a@[k] == key@[k],
        decreases 32 - i,
    {
        a[i] = key[i];
        i = i + 1;
    }
    assert(a@ =~= key@);
    Ok(a)
}

// ---------------------------------------------------------------------------
// The KME client.
// ---------------------------------------------------------------------------

/// The body of an ETSI GS QKD 014 `enc_keys` request.
#[derive(Debug, Clone, Copy, PartialEq, Eq, Structural)]
pub struct KeyRequest {
    /// How many keys are asked for.
    pub number: u32,
    /// The size of each key, in bits.
    pub size: u32,
}

/// One key of a KME reply: its identifier and its base64 text.
#[derive(Debug)]
pub struct KeyData {
    pub key_id: String,
    pub key: String,
}

/// QKD client for key retrieval from one entity's KME.
pub struct QkdClient {
    config: EntityConfig,
    kme_url: String,
    key_size: usize,
}

/// The URL of the `enc_keys` endpoint for `target` at `host`.
pub open spec fn enc_keys_url_text(host: Seq<char>, target: Seq<char>) -> Seq<char> {
    "https://"@ + host + "/api/v1/keys/"@ + target + "/enc_keys"@
}

/// The detail of the error for a decoded key of the wrong length.
pub open spec fn key_size_mismatch_text(expected: nat, got: nat) -> Seq<char> {
    "Key size mismatch: expected "@ + crate::text::decimal(expected) + ", got "@
        + crate::text::decimal(got)
}

/// The detail of the error for an unsuccessful HTTP status.
pub open spec fn api_error_text(status: Seq<char>, body: Seq<char>) -> Seq<char> {
    "API returned error "@ + status + ": "@ + body
}

/// Whether an HTTP status code is a success (`2xx`).
pub open spec fn is_success_status(code: u16) -> bool {
    200 <= code <= 299
}

/// The `enc_keys` URL is `https://`, the whole host, `/api/v1/keys/`, the
/// whole target and `/enc_keys`, in that order: its length is the sum of
/// theirs and each part stands at its place.
pub proof fn lemma_enc_keys_url_parts(host: Seq<char>, target: Seq<char>)
    ensures
        enc_keys_url_text(host, target).len() == 8 + (host.len() as int) + 13 + (target.len() as int) + 9,
        enc_keys_url_text(host, target).subrange(0, 8) == "https://"@,
        enc_keys_url_text(host, target).subrange(8, 8 + (host.len() as int)) == host,
        enc_keys_url_text(host, target).subrange(8 + (host.len() as int), 8 + (host.len() as int) + 13)
            == "/api/v1/keys/"@,
        enc_keys_url_text(host, target).subrange(
            8 + (host.len() as int) + 13,
            8 + (host.len() as int) + 13 + (target.len() as int),
        ) == target,
        enc_keys_url_text(host, target).subrange(
            8 + (host.len() as int) + 13 + (target.len() as int),
            8 + (host.len() as int) + 13 + (target.len() as int) + 9,
        ) == "/enc_keys"@,
{
    reveal_strlit("https://");
    reveal_strlit("/api/v1/keys/");
    reveal_strlit("/enc_keys");
    let u = enc_keys_url_text(host, target);
    let a = 8 + (host.len() as int);
    let b = a + 13;
    let c = b + (target.len() as int);
    assert(u.subrange(0, 8) =~= "https://"@);
    assert(u.subrange(8, a) =~= host);
    assert(u.subrange(a, b) =~= "/api/v1/keys/"@);
    assert(u.subrange(b, c) =~= target);
    assert(u.subrange(c, c + 9) =~= "/enc_keys"@);
}

/// A status is accepted exactly when it lies in 200..=299: informational
/// (1xx), redirection (3xx), client (4xx) and server (5xx) statuses are not.
pub proof fn lemma_success_status_range(code: u16)
    ensures
        is_success_status(code) <==> (200 <= code && code <= 299),
        code < 200 ==> !is_success_status(code),
        code >= 300 ==> !is_success_status(code),
{
}

impl QkdClient {
    /// The entity whose credentials this client uses.
    pub closed spec fn entity(&self) -> EntityConfig {
        self.config
    }

    /// The KME base URL this client was made with.
    pub closed spec fn kme_url_text(&self) -> Seq<char> {
        self.kme_url@
    }

    /// The key size in bytes this client asks for.
    pub closed spec fn key_bytes(&self) -> usize {
        self.key_size
    }

    /// A client for `entity_config` that asks for keys of `key_size` bytes.
    pub fn new(entity_config: EntityConfig, kme_url: String, key_size: usize) -> (r: Self)
        ensures
            r.entity() == entity_config,
            r.kme_url_text() == kme_url@,
            r.key_bytes() == key_size,
    {
        Self { config: entity_config, kme_url, key_size }
    }

    /// The entity whose credentials this client uses.
    pub fn config(&self) -> (r: &EntityConfig)
        ensures
            *r == self.entity(),
    {
        &self.config
    }

    /// The KME base URL this client was made with.
    pub fn kme_url(&self) -> (r: &String)
        ensures
            r@ == self.kme_url_text(),
    {
        &self.kme_url
    }

    /// The key size in bytes this client asks for.
    pub fn key_size(&self) -> (r: usize)
        ensures
            r == self.key_bytes(),
    {
        self.key_size
    }

    /// The URL of the `enc_keys` endpoint for `target_sae_id` at this
    /// entity's KME.
    pub fn enc_keys_url(&self, target_sae_id: &str) -> (r: String)
        ensures
            r@ == enc_keys_url_text(self.entity().kme_hostname@, target_sae_id@),
            r@.len() == 8 + self.entity().kme_hostname@.len() as int + 13 + target_sae_id@.len() as int + 9,
            r@.subrange(0, 8) == "https://"@,
            r@.subrange(8, 8 + self.entity().kme_hostname@.len() as int) == self.entity().kme_hostname@,
            r@.subrange(
                8 + self.entity().kme_hostname@.len() as int + 13,
                8 + self.entity().kme_hostname@.len() as int + 13 + target_sae_id@.len() as int,
            ) == target_sae_id@,
    {
        proof {
            lemma_enc_keys_url_parts(self.entity().kme_hostname@, target_sae_id@);
        }
        let mut u = String::from_str("https://");
        u.append(self.config.kme_hostname.as_str());
        u.append("/api/v1/keys/");
        u.append(target_sae_id);
        u.append("/enc_keys");
        u
    }

    /// The request body: one key of `key_size` bytes, given in bits.
    pub fn key_request(&self) -> (r: KeyRequest)
        requires
            self.key_bytes() * 8 <= usize::MAX,
        ensures
            r.number == 1,
            r.size == (self.key_bytes() * 8) as u32,
    {
        KeyRequest { number: 1, size: (self.key_size * 8) as u32 }
    }

    /// A decoded key is accepted exactly when it is `key_size` bytes long.
    pub fn accept_decoded_key(&self, bytes: Vec<u8>) -> (r: Result<Vec<u8>, QkdError>)
        ensures
            bytes@.len() == self.key_bytes() ==> r == Ok::<Vec<u8>, QkdError>(bytes),
            bytes@.len() != self.key_bytes() ==> (r matches Err(QkdError::KeyRetrievalError(m))
                && m@ == key_size_mismatch_text(self.key_bytes() as nat, bytes@.len())),
    {
        if bytes.len() == self.key_size {
            Ok(bytes)
        } else {
            let mut m = String::from_str("Key size mismatch: expected ");
            let expected = decimal_text(self.key_size);
            m.append(expected.as_str());
            m.append(", got ");
            let got = decimal_text(bytes.len());
            m.append(got.as_str());
            Err(QkdError::KeyRetrievalError(m))
        }
    }

    /// The key a KME reply delivers: the first key, base64-decoded, which
    /// must be exactly `key_size` bytes long.
    pub fn accept_key_response(&self, keys: &Vec<KeyData>) -> (r: Result<Vec<u8>, QkdError>)
        ensures
            keys@.len() == 0 ==> (r matches Err(QkdError::KeyRetrievalError(m)) && m@
                == "No keys returned from KME"@),
            keys@.len() > 0 ==> {
                let decoded = base64_decoded(vstd::utf8::encode_utf8(keys@[0].key@));
                match decoded {
                    None => r matches Err(QkdError::KeyRetrievalError(m)) && exists|d: String|
                        #[trigger] is_decode_error_text(d) && m@ == "Failed to decode key: "@ + d@,
                    Some(bytes) => if bytes.len() == self.key_bytes() {
                        r matches Ok(v) && v@ == bytes
                    } else {
                        r matches Err(QkdError::KeyRetrievalError(m)) && m@
                            == key_size_mismatch_text(self.key_bytes() as nat, bytes.len())
                    },
                }
            },
    {
        if keys.len() == 0 {
            return Err(QkdError::KeyRetrievalError(String::from_str("No keys returned from KME")));
        }
        let first = &keys[0];
        let text = first.key.as_str();
        match base64_decode(text.as_bytes()) {
            Err(e) => {
                let mut m = String::from_str("Failed to decode key: ");
                let detail = e.to_string();
                m.append(detail.as_str());
                assert(is_decode_error_text(detail));
                Err(QkdError::KeyRetrievalError(m))
            },
            Ok(bytes) => self.accept_decoded_key(bytes),
        }
    }
}

/// `d` is the text (`Display`) of some base64 decoding error.
pub open spec fn is_decode_error_text(d: String) -> bool {
    exists|e: data_encoding::DecodeError| #[trigger] vstd::string::to_string_from_display_ensures::<
        data_encoding::DecodeError,
    >(&e, d)
}

/// `d` is the text (`Display`) of some `reqwest` error.
pub open spec fn is_reqwest_error_text(d: String) -> bool {
    exists|e: reqwest::Error| #[trigger] vstd::string::to_string_from_display_ensures::<reqwest::Error>(
        &e,
        d,
    )
}

/// Whether an HTTP status code is a success (`2xx`), as
/// `http::StatusCode::is_success`.
pub fn status_is_success(status_code: u16) -> (r: bool)
    ensures
        r == is_success_status(status_code),
        r <==> (200 <= status_code && status_code <= 299),
{
    200 <= status_code && status_code <= 299
}

/// Accepts a `2xx` HTTP status; any other status is a key retrieval error
/// naming the status and the reply body.
pub fn check_api_status(status_code: u16, status_text: &str, body: &str) -> (r: Result<
    (),
    QkdError,
>)
    ensures
        r is Ok <==> (200 <= status_code && status_code <= 299),
        status_code >= 300 ==> r matches Err(QkdError::KeyRetrievalError(_)),
        is_success_status(status_code) ==> r is Ok,
        !is_success_status(status_code) ==> (r matches Err(QkdError::KeyRetrievalError(m)) && m@
            == api_error_text(status_text@, body@)),
{
    if status_is_success(status_code) {
        Ok(())
    } else {
        let mut m = String::from_str("API returned error ");
        m.append(status_text);
        m.append(": ");
        m.append(body);
        Err(QkdError::KeyRetrievalError(m))
    }
}

/// The mTLS client identity held in a PEM file (certificate and key).
pub fn load_identity(pem: &[u8]) -> (r: Result<reqwest::Identity, QkdError>)
    ensures
        r is Ok <==> identity_pem_accepted(pem@),
        r matches Ok(id) ==> id == identity_of(pem@),
        r matches Err(e) ==> (e matches QkdError::CertificateError(m) && exists|d: String|
            #[trigger] is_reqwest_error_text(d) && m@ == "Failed to create identity: "@ + d@),
{
    match identity_from_pem(pem) {
        Ok(id) => Ok(id),
        Err(e) => {
            let mut m = String::from_str("Failed to create identity: ");
            let detail = e.to_string();
            m.append(detail.as_str());
            assert(is_reqwest_error_text(detail));
            Err(QkdError::CertificateError(m))
        },
    }
}

/// The KME's CA certificate from its PEM file.
pub fn load_ca_certificate(ca_pem: &[u8]) -> (r: Result<reqwest::Certificate, QkdError>)
    ensures
        r == Ok::<reqwest::Certificate, QkdError>(ca_certificate_of(ca_pem@)),
{
    match certificate_from_pem(ca_pem) {
        Ok(c) => Ok(c),
        Err(e) => {
            let mut m = String::from_str("Failed to load CA cert: ");
            let detail = e.to_string();
            m.append(detail.as_str());
            Err(QkdError::CertificateError(m))
        },
    }
}

} // verus!
