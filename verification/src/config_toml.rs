//! The shapes of the configuration files as they come off disk: every
//! field optional, exactly as the deserializer leaves them.  The checked
//! conversions into the strict configuration types live here; the file
//! reading and TOML decoding stay in the surrounding binary.

use vstd::prelude::*;
use crate::schema::{LocalDeviceV0, LocalMachineV0, MachineConfigV0};

verus! {

/// Why a configuration was rejected.
#[derive(Clone, Copy, PartialEq, Eq, Structural, Debug)]
pub enum ConfigError {
    /// The API configuration names no API key.
    MissingApiKey,
    /// The API configuration names no secret token.
    MissingSecretToken,
}

/// API credentials as read: both fields optional.
#[derive(Debug, Default)]
pub struct ApiAuth {
    pub api_key: Option<String>,
    pub secret_token: Option<String>,
}

/// The API configuration file as read.
#[derive(Debug, Default)]
pub struct ApiConfig {
    pub auth: Option<ApiAuth>,
}

impl ApiConfig {
    /// Check the read configuration into strict credentials: both fields
    /// must be present; a missing `auth` table reads as one with both
    /// fields missing.
    pub fn into_api_config(self) -> (r: Result<crate::config::ApiConfig, ConfigError>)
        ensures
            match r {
                Ok(cfg) => {
                    &&& self.auth matches Some(a)
                    &&& (a.api_key matches Some(k) && cfg.auth.api_key == k)
                    &&& (a.secret_token matches Some(t) && cfg.auth.secret_token == t)
                },
                Err(ConfigError::MissingApiKey) => match self.auth {
                    None => true,
                    Some(a) => a.api_key is None,
                },
                Err(ConfigError::MissingSecretToken) => {
                    &&& self.auth matches Some(a)
                    &&& (a.api_key is Some)
                    &&& (a.secret_token is None)
                },
            },
    {
        let auth = match self.auth {
            None => {
                return Err(ConfigError::MissingApiKey);
            }
            Some(a) => a,
        };
        let api_key = match auth.api_key {
            None => {
                return Err(ConfigError::MissingApiKey);
            }
            Some(k) => k,
        };
        let secret_token = match auth.secret_token {
            None => {
                return Err(ConfigError::MissingSecretToken);
            }
            Some(t) => t,
        };
        Ok(crate::config::ApiConfig {
            auth: crate::config::ApiAuth { api_key, secret_token },
        })
    }
}

/// The local machine's declared capabilities as read.
#[derive(Debug, Default)]
pub struct LocalMachine {
    pub task_workers: Option<u32>,
    pub gpus: Option<Vec<String>>,
}

/// The machine configuration file as read.
#[derive(Debug, Default)]
pub struct MachineConfig {
    pub local_machine: Option<LocalMachine>,
}

impl MachineConfig {
    /// Fill in the defaults: one task worker, no devices; each device
    /// string names a PCI slot.
    pub fn into_machine_config(self) -> (r: MachineConfigV0)
        ensures
            ({
                let lm = match self.local_machine {
                    None => (LocalMachine { task_workers: None, gpus: None }),
                    Some(lm) => lm,
                };
                &&& r.local_machine.task_workers == match lm.task_workers {
                    None => 1u32,
                    Some(w) => w,
                }
                &&& r.local_machine.gpus@.len() == (match lm.gpus {
                    None => Seq::<String>::empty(),
                    Some(g) => g@,
                }).len()
                &&& forall|i: int| 0 <= i < r.local_machine.gpus@.len()
                    ==> ((#[trigger] r.local_machine.gpus@[i]) matches LocalDeviceV0::PciSlot(s)
                        && s@ == (match lm.gpus {
                        None => Seq::<String>::empty(),
                        Some(g) => g@,
                    })[i]@)
            }),
    {
        let lm = match self.local_machine {
            None => LocalMachine { task_workers: None, gpus: None },
            Some(lm) => lm,
        };
        let task_workers = match lm.task_workers {
            None => 1,
            Some(w) => w,
        };
        let gpu_names = match lm.gpus {
            None => Vec::new(),
            Some(g) => g,
        };
        let ghost namesv = gpu_names@;
        let mut gpus: Vec<LocalDeviceV0> = Vec::new();
        let n = gpu_names.len();
        let mut i: usize = 0;
        while i < n
            invariant
                n == gpu_names@.len(),
                i <= n,
                gpu_names@ == namesv,
                gpus@.len() == i,
                forall|k: int| 0 <= k < i ==> ((#[trigger] gpus@[k])
                    matches LocalDeviceV0::PciSlot(s) && s@ == namesv[k]@),
            decreases n - i,
        {
            let name = gpu_names[i].clone();
            proof {
                assert(name@ == namesv[i as int]@);
            }
            gpus.push(LocalDeviceV0::PciSlot(name));
            i = i + 1;
        }
        MachineConfigV0 { local_machine: LocalMachineV0 { task_workers, gpus } }
    }
}

/// One CI repository binding as read.
#[derive(Debug, Default)]
pub struct CiRepo {
    pub remote_url: Option<String>,
    pub commit_policy: Option<String>,
    pub pr_policy: Option<String>,
    pub allowed_users: Option<Vec<String>>,
}

/// The CI configuration file as read.
#[derive(Debug, Default)]
pub struct CiConfig {
    pub repos: Option<Vec<CiRepo>>,
}

} // verus!
