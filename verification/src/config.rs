//! The QKD demo configuration: general settings, the three entities (Alice,
//! Bob and the server) and the KME, Noise and WebSocket settings.
use vstd::prelude::*;

verus! {

/// The whole configuration file.
#[derive(Debug)]
pub struct QkdConfig {
    pub general: GeneralConfig,
    pub alice: EntityConfig,
    pub bob: EntityConfig,
    pub server: EntityConfig,
    pub kme: KmeConfig,
    pub noise: NoiseConfig,
    pub websocket: WebSocketConfig,
}

/// Settings shared by all entities.
#[derive(Debug)]
pub struct GeneralConfig {
    pub kme_url: String,
    pub key_size: usize,
    pub timeout_seconds: u64,
}

/// One secure application entity (SAE) and the files and KME it uses.
#[derive(Debug)]
pub struct EntityConfig {
    pub name: String,
    pub sae_id: String,
    pub kme_id: String,
    pub cert_file: String,
    pub key_file: String,
    pub pem_file: String,
    pub root_ca_file: String,
    pub kme_ca_file: String,
    pub kme_hostname: String,
    pub role: String,
}

impl Clone for EntityConfig {
    fn clone(&self) -> (r: Self)
        ensures
            r == *self,
    {
        EntityConfig {
            name: self.name.clone(),
            sae_id: self.sae_id.clone(),
            kme_id: self.kme_id.clone(),
            cert_file: self.cert_file.clone(),
            key_file: self.key_file.clone(),
            pem_file: self.pem_file.clone(),
            root_ca_file: self.root_ca_file.clone(),
            kme_ca_file: self.kme_ca_file.clone(),
            kme_hostname: self.kme_hostname.clone(),
            role: self.role.clone(),
        }
    }
}

/// The key management entity's endpoints.
#[derive(Debug)]
pub struct KmeConfig {
    pub base_url: String,
    pub status_endpoint: String,
    pub enc_keys_endpoint: String,
    pub dec_keys_endpoint: String,
}

/// The Noise protocol settings.
#[derive(Debug)]
pub struct NoiseConfig {
    pub pattern: String,
    pub psk_position: u8,
}

/// The chat server's listening address.
#[derive(Debug)]
pub struct WebSocketConfig {
    pub server_address: String,
}

} // verus!
