//! Settings of the service, read once when it starts and shared unchanged.

use vstd::prelude::*;
use vstd::string::StringExecFns;
use vstd::utf8::encode_utf8;

verus! {

/// Where the service runs, which decides the file of settings.
#[derive(Clone, Copy, Debug, PartialEq, Eq, Structural)]
pub enum Environment {
    Development,
    Production,
}

impl Environment {
    /// The environment that a text names: `development` or `production`.
    pub open spec fn named(text: Seq<char>) -> Option<Environment> {
        if text == "development"@ {
            Some(Environment::Development)
        } else if text == "production"@ {
            Some(Environment::Production)
        } else {
            None
        }
    }

    /// The environment that a text names.
    pub fn from_str(text: &str) -> (res: Option<Environment>)
        ensures
            res == Environment::named(text@),
    {
        let text = text.to_owned();
        if text == "development".to_owned() {
            Some(Environment::Development)
        } else if text == "production".to_owned() {
            Some(Environment::Production)
        } else {
            None
        }
    }

    /// The name of the environment.
    pub fn as_str(&self) -> (name: &'static str)
        ensures
            Environment::named(name@) == Some(*self),
    {
        proof {
            reveal_strlit("development");
            reveal_strlit("production");
            assert("development"@.len() != "production"@.len());
        }
        match self {
            Environment::Development => "development",
            Environment::Production => "production",
        }
    }

    /// The name of the file of settings: the name of the environment with
    /// the ending `.yaml`.
    pub fn config_file(&self) -> (file: String)
        ensures
            file@ == match *self {
                Environment::Development => "development"@,
                Environment::Production => "production"@,
            } + ".yaml"@,
    {
        match self {
            Environment::Development => "development".to_owned().concat(".yaml"),
            Environment::Production => "production".to_owned().concat(".yaml"),
        }
    }
}

/// Where the service listens.
#[derive(Clone, Debug)]
pub struct HttpConfig {
    pub host: [u8; 4],
    pub port: u16,
}

/// The command that dumps the database.
#[derive(Clone, Debug)]
pub struct BackupConfig {
    pub cmd: String,
    pub args: Vec<String>,
}

/// The cost of hashing a password with Argon2.
#[derive(Clone, Copy, Debug, PartialEq, Eq)]
pub struct Argon2Params {
    /// Memory in blocks of one KiB.
    pub memory_size: u32,
    /// Number of passes.
    pub iterations: u32,
    /// Degree of parallelism.
    pub parallelism_factor: u32,
    /// Length of the hash in bytes; 32 where none is set.
    pub output_length: Option<usize>,
}

impl Argon2Params {
    /// Whether Argon2 accepts these costs: at least 8 blocks of memory and 8
    /// for each lane, at least one pass, between 1 and 2^24 - 1 lanes, and
    /// an output of 4 bytes to 2^32 - 1 bytes.
    pub open spec fn usable(self) -> bool {
        &&& self.memory_size >= 8
        &&& 1 <= self.parallelism_factor <= 0xff_ffff
        &&& self.memory_size >= 8 * self.parallelism_factor
        &&& self.iterations >= 1
        &&& match self.output_length {
            Some(len) => 4 <= len <= 0xffff_ffff,
            None => true,
        }
    }

    /// Whether Argon2 accepts these costs.
    pub fn is_usable(&self) -> (ok: bool)
        ensures
            ok == self.usable(),
    {
        self.memory_size >= 8 && 1 <= self.parallelism_factor && self.parallelism_factor
            <= 0xff_ffff && self.memory_size >= 8 * self.parallelism_factor && self.iterations >= 1
            && match self.output_length {
            Some(len) => 4 <= len && len <= 0xffff_ffff,
            None => true,
        }
    }
}

/// How passwords are hashed: the costs, and a key that only the service
/// knows.
pub struct HasherConfig {
    pub key: String,
    pub params: Argon2Params,
}

impl HasherConfig {
    /// The bytes of the key.
    pub open spec fn secret(self) -> Seq<u8> {
        encode_utf8(self.key@)
    }

    /// Whether a hasher can be made from these settings: usable costs and a
    /// key of less than 2^32 bytes.
    pub open spec fn usable(self) -> bool {
        self.params.usable() && self.secret().len() <= 0xffff_ffff
    }
}

/// How tokens are signed and how long they live, in seconds.
pub struct JwtConfig {
    pub key: String,
    pub access_ttl: u64,
    pub refresh_ttl: u64,
}

impl JwtConfig {
    /// The bytes of the signing key.
    pub open spec fn secret(self) -> Seq<u8> {
        encode_utf8(self.key@)
    }
}

impl Clone for HasherConfig {
    /// The same settings.
    fn clone(&self) -> (config: Self)
        ensures
            config == *self,
    {
        HasherConfig { key: self.key.clone(), params: self.params }
    }
}

impl Clone for JwtConfig {
    /// The same settings.
    fn clone(&self) -> (config: Self)
        ensures
            config == *self,
    {
        JwtConfig {
            key: self.key.clone(),
            access_ttl: self.access_ttl,
            refresh_ttl: self.refresh_ttl,
        }
    }
}

} // verus!
