//! What every operation of the service shares: the cipher of identifiers and
//! the settings, fixed when the service starts.

use vstd::prelude::*;
use crate::config::{BackupConfig, HasherConfig, JwtConfig};
use crate::id::IdCipher;

verus! {

/// The shared state of the service, without its storage.
#[derive(Clone)]
pub struct AppState {
    pub id_cipher: IdCipher,
    pub jwt_config: JwtConfig,
    pub hasher_config: HasherConfig,
    pub backup_config: BackupConfig,
}

impl AppState {
    /// The state for the given key of identifiers and settings.
    pub fn init(
        id_key: [u8; 16],
        jwt: JwtConfig,
        hasher: HasherConfig,
        backup: BackupConfig,
    ) -> (state: Self)
        ensures
            state.id_cipher@ == id_key@,
            state.jwt_config == jwt,
            state.hasher_config == hasher,
            state.backup_config == backup,
    {
        AppState {
            id_cipher: IdCipher::new(id_key),
            jwt_config: jwt,
            hasher_config: hasher,
            backup_config: backup,
        }
    }
}

} // verus!
