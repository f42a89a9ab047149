//! The daemon's orchestration core: one state record and the step
//! functions the event loop drives.
//!
//! Every decision the event loop takes lives here as a function from the
//! daemon state and one incoming event to the next state and a list of
//! actions.  The surrounding binary performs the actions — transport,
//! persistence, container work — and feeds their outcomes back in as
//! further events, so only one logical writer ever touches the outbound
//! signed channel.

use vstd::prelude::*;
use std::collections::VecDeque;
use crate::auth::{AuthEvent, PersistAction, Phase, TwoPhase, spec_auth_step, spec_poll};
use crate::config::ApiConfig;
use crate::crypto::base64_decode_of;
use crate::docker::TaskSpec;
use crate::ipc::{Ack, Bot2Ctl, Ctl2Bot, QueryApiAuthConfig, QueryApiAuthState, RegisterCiRepo};
use crate::schema::{Bot2RegistryV0, LocalDeviceV0, LocalMachineV0, MachineConfigV0,
    RegisterCiRepoV0, Registry2BotV0, SystemSetupV0, _NewCiRunV0};
use crate::state::RootManifest;

verus! {

/// The byte length of an API key.
pub const API_KEY_LEN: usize = 48;

/// Progress reports funneled from the workers back into the event loop.
pub enum LoopbackMsg {
    /// A keepalive timer fired, carrying the counter it was armed with.
    _Echo { echo_ctr: u64 },
    /// The backoff watchdog asks for a reconnect attempt.
    _Echo2,
    StartCiTask {
        api_key: Vec<u8>,
        ci_run_key: Vec<u8>,
        task_nr: u64,
        task_name: Option<Vec<u8>>,
        taskspec: Option<Vec<u8>>,
    },
    AppendCiTaskData {
        api_key: Vec<u8>,
        ci_run_key: Vec<u8>,
        task_nr: u64,
        part_nr: u64,
        key: String,
        data: Vec<u8>,
    },
    DoneCiTask { api_key: Vec<u8>, ci_run_key: Vec<u8>, task_nr: u64, failed: bool },
}

/// Registration outcomes buffered for the control process to collect.
pub enum Event {
    RegisterCiMachine,
    CancelRegisterCiMachine,
    RegisterCiRepo(RegisterCiRepoV0),
    CancelRegisterCiRepo,
}

/// What the event loop must do after a step.
pub enum DaemonAction {
    /// Frame, sign and send this message to the registry.
    SendRegistry(Bot2RegistryV0),
    /// Attempt to (re)connect to the registry.
    Reconnect,
    /// Durably write the root manifest's byte form, and report the
    /// outcome as a persist event of the sequence named when the action
    /// was issued.
    PersistRootManifest,
    /// Write a fresh API configuration file with these credentials.
    WriteApiConfig { api_id: String, secret_token: String },
    /// Reload the configuration files and hand the result back.
    ReloadConfig,
    /// Check out the repository and run the directive interpreter, then
    /// hand the parsed tasks back as a prepared CI run.
    PrepareCiRun { api_key: Vec<u8>, ci_run_key: Vec<u8>, repo_clone_url: String },
    /// Hand one task to the worker pool.
    DispatchTask { api_key: Vec<u8>, ci_run_key: Vec<u8>, task_nr: u64, task: TaskSpec },
}

/// Deep equality of machine configurations.
pub open spec fn spec_mc_eq(a: &MachineConfigV0, b: &MachineConfigV0) -> bool {
    &&& a.local_machine.task_workers == b.local_machine.task_workers
    &&& a.local_machine.gpus@.len() == b.local_machine.gpus@.len()
    &&& forall|i: int| 0 <= i < a.local_machine.gpus@.len()
        ==> ((#[trigger] a.local_machine.gpus@[i]) matches LocalDeviceV0::PciSlot(x)
            && b.local_machine.gpus@[i] matches LocalDeviceV0::PciSlot(y) && x@ == y@)
}

/// Deep equality of system snapshots.
pub open spec fn spec_ss_eq(a: &SystemSetupV0, b: &SystemSetupV0) -> bool {
    &&& a.cpu_info == b.cpu_info
    &&& a.distro_info == b.distro_info
    &&& a.gpu_info == b.gpu_info
    &&& a.gpus.pci_records@ == b.gpus.pci_records@
}

/// Copy a machine configuration.
pub fn dup_machine_cfg(a: &MachineConfigV0) -> (r: MachineConfigV0)
    ensures
        spec_mc_eq(&r, a),
{
    let src = &a.local_machine.gpus;
    let mut gpus: Vec<LocalDeviceV0> = Vec::new();
    let n = src.len();
    let mut i: usize = 0;
    while i < n
        invariant
            n == src@.len(),
            i <= n,
            gpus@.len() == i,
            forall|k: int| 0 <= k < i ==> ((#[trigger] gpus@[k]) matches LocalDeviceV0::PciSlot(
                x,
            ) && src@[k] matches LocalDeviceV0::PciSlot(y) && x@ == y@),
        decreases n - i,
    {
        let LocalDeviceV0::PciSlot(name) = &src[i];
        gpus.push(LocalDeviceV0::PciSlot(name.clone()));
        i = i + 1;
    }
    MachineConfigV0 {
        local_machine: LocalMachineV0 { task_workers: a.local_machine.task_workers, gpus },
    }
}

/// Copy a system snapshot.
pub fn dup_system_setup(a: &SystemSetupV0) -> (r: SystemSetupV0)
    ensures
        spec_ss_eq(&r, a),
{
    let mut pci_records: Vec<crate::schema::PciRecordV0> = Vec::new();
    let n = a.gpus.pci_records.len();
    let mut i: usize = 0;
    while i < n
        invariant
            n == a.gpus.pci_records@.len(),
            i <= n,
            pci_records@ == a.gpus.pci_records@.subrange(0, i as int),
        decreases n - i,
    {
        pci_records.push(a.gpus.pci_records[i]);
        proof {
            assert(pci_records@ =~= a.gpus.pci_records@.subrange(0, i as int + 1));
        }
        i = i + 1;
    }
    proof {
        assert(a.gpus.pci_records@.subrange(0, n as int) =~= a.gpus.pci_records@);
    }
    SystemSetupV0 {
        cpu_info: a.cpu_info,
        distro_info: a.distro_info,
        gpu_info: a.gpu_info,
        gpus: crate::schema::GpusV0 { pci_records },
    }
}

/// The daemon's state: the persisted manifest, the loaded configuration,
/// the two two-phase sequences, the buffered registration outcomes, and
/// the connection bookkeeping.
pub struct Daemon {
    pub root_manifest: RootManifest,
    pub api_cfg: Option<ApiConfig>,
    pub machine_cfg: Option<MachineConfigV0>,
    pub system_setup: SystemSetupV0,
    pub auth: TwoPhase,
    pub machine_reg: TwoPhase,
    pub evbuf: VecDeque<Event>,
    pub connected: bool,
    pub reg_echo_ctr: u64,
}

impl Daemon {
    pub open spec fn wf(&self) -> bool {
        self.root_manifest.wf()
    }

    /// A fresh daemon over what the surrounding binary loaded.
    pub fn new(
        root_manifest: RootManifest,
        api_cfg: Option<ApiConfig>,
        machine_cfg: Option<MachineConfigV0>,
        system_setup: SystemSetupV0,
    ) -> (r: Daemon)
        requires
            root_manifest.wf(),
        ensures
            r.wf(),
            r.auth.phase == Phase::Idle,
            r.machine_reg.phase == Phase::Idle,
            r.auth.bit == root_manifest.spec_auth_bit(),
            r.machine_reg.bit == root_manifest.spec_mach_reg_bit(),
            !r.connected,
            r.evbuf@.len() == 0,
    {
        let auth = TwoPhase::new(root_manifest.auth_bit());
        let machine_reg = TwoPhase::new(root_manifest.mach_reg_bit());
        Daemon {
            root_manifest,
            api_cfg,
            machine_cfg,
            system_setup,
            auth,
            machine_reg,
            evbuf: VecDeque::new(),
            connected: false,
            reg_echo_ctr: 0,
        }
    }

    /// The transport opened; the sender is live.
    pub fn note_connected(&mut self)
        ensures
            *final(self) == (Daemon { connected: true, ..*old(self) }),
    {
        self.connected = true;
    }

    /// The transport hung up, closed or errored.
    pub fn note_disconnected(&mut self)
        ensures
            *final(self) == (Daemon { connected: false, ..*old(self) }),
    {
        self.connected = false;
    }

    /// The authentication request went out without transport error.
    pub fn note_auth_sent(&mut self)
        ensures
            *final(self) == (Daemon {
                auth: TwoPhase { phase: Phase::Sent, bit: old(self).auth.bit },
                ..*old(self)
            }),
    {
        let _ = self.auth.step(AuthEvent::Sent);
    }

    /// The machine-registration request went out without transport error.
    pub fn note_machine_reg_sent(&mut self)
        ensures
            *final(self) == (Daemon {
                machine_reg: TwoPhase { phase: Phase::Sent, bit: old(self).machine_reg.bit },
                ..*old(self)
            }),
    {
        let _ = self.machine_reg.step(AuthEvent::Sent);
    }

    /// Arm a keepalive timer: a freshly issued counter value.  A timer
    /// that later fires with an older counter is stale and must be
    /// ignored.
    pub fn next_echo(&mut self) -> (r: u64)
        requires
            old(self).reg_echo_ctr < u64::MAX,
        ensures
            r == old(self).reg_echo_ctr + 1,
            *final(self) == (Daemon { reg_echo_ctr: r, ..*old(self) }),
    {
        self.reg_echo_ctr = self.reg_echo_ctr + 1;
        self.reg_echo_ctr
    }

    /// The configured credentials, for the control process.
    pub fn query_api_auth_config(&self) -> (r: Option<QueryApiAuthConfig>)
        ensures
            match r {
                Some(q) => {
                    &&& self.api_cfg matches Some(cfg)
                    &&& (q.api_id matches Some(k) && k@ == cfg.auth.api_key@)
                    &&& (q.secret_token matches Some(t) && t@ == cfg.auth.secret_token@)
                },
                None => self.api_cfg is None,
            },
    {
        match &self.api_cfg {
            None => None,
            Some(cfg) => Some(QueryApiAuthConfig {
                api_id: Some(cfg.auth.api_key.clone()),
                secret_token: Some(cfg.auth.secret_token.clone()),
            }),
        }
    }

    /// The authentication state: the session flag and the durable bit.
    pub fn query_api_auth_state(&self) -> (r: QueryApiAuthState)
        ensures
            r.auth == (self.auth.phase == Phase::Confirmed),
            r.auth_bit == self.root_manifest.spec_auth_bit(),
    {
        QueryApiAuthState {
            auth: self.auth.confirmed(),
            auth_bit: self.root_manifest.auth_bit(),
        }
    }

    /// Build the authentication request: the decoded API key.  Fails when
    /// no credentials are loaded or the key does not decode to its exact
    /// length.
    fn make_auth_request(&self) -> (r: Option<Bot2RegistryV0>)
        ensures
            match r {
                Some(m) => {
                    &&& self.api_cfg matches Some(cfg)
                    &&& (m matches Bot2RegistryV0::Auth { api_key }
                        && base64_decode_of(cfg.auth.api_key@) == Some(api_key@)
                        && api_key@.len() == API_KEY_LEN)
                },
                None => !(self.api_cfg matches Some(cfg)
                    && base64_decode_of(cfg.auth.api_key@) matches Some(k)
                    && k.len() == API_KEY_LEN),
            },
    {
        let cfg = match &self.api_cfg {
            None => {
                return None;
            }
            Some(cfg) => cfg,
        };
        match crate::crypto::base64_str_to_vec(API_KEY_LEN, cfg.auth.api_key.as_str()) {
            None => None,
            Some(api_key) => Some(Bot2RegistryV0::Auth { api_key }),
        }
    }

    /// The decoded API key alone.
    fn api_key_bytes(&self) -> (r: Option<Vec<u8>>)
        ensures
            match r {
                Some(k) => {
                    &&& self.api_cfg matches Some(cfg)
                    &&& base64_decode_of(cfg.auth.api_key@) == Some(k@)
                    &&& k@.len() == API_KEY_LEN
                },
                None => !(self.api_cfg matches Some(cfg)
                    && base64_decode_of(cfg.auth.api_key@) matches Some(k)
                    && k.len() == API_KEY_LEN),
            },
    {
        let cfg = match &self.api_cfg {
            None => {
                return None;
            }
            Some(cfg) => cfg,
        };
        crate::crypto::base64_str_to_vec(API_KEY_LEN, cfg.auth.api_key.as_str())
    }

    /// A keepalive timer fired.  A live timer — one whose counter matches
    /// the latest issued — yields a ping carrying the machine key; a
    /// stale one, or one on a dead connection, is a no-op.
    pub fn handle_echo(&self, echo_ctr: u64) -> (r: Option<Bot2RegistryV0>)
        requires
            self.wf(),
        ensures
            match r {
                Some(m) => echo_ctr == self.reg_echo_ctr && self.connected
                    && (m matches Bot2RegistryV0::_Ping { api_key, machine_key }
                    && api_key@.len() == 0 && machine_key@ == self.root_manifest.key()),
                None => echo_ctr != self.reg_echo_ctr || !self.connected,
            },
    {
        if echo_ctr != self.reg_echo_ctr || !self.connected {
            return None;
        }
        Some(Bot2RegistryV0::_Ping {
            api_key: Vec::new(),
            machine_key: vstd::slice::slice_to_vec(self.root_manifest.key_buf().as_slice()),
        })
    }

    /// A worker progress report becomes the corresponding registry
    /// message, stamped with the caller-supplied timestamp; nothing is
    /// sent on a dead connection.
    pub fn handle_worker_report(&self, msg: LoopbackMsg, ts: Option<String>) -> (r: Option<
        Bot2RegistryV0,
    >)
        requires
            self.wf(),
        ensures
            !self.connected ==> r is None,
            ({
                match msg {
                    LoopbackMsg::StartCiTask { api_key, ci_run_key, task_nr, task_name, .. }
                        => self.connected
                        ==> (r matches Some(m) && m matches Bot2RegistryV0::_StartCiTask {
                            api_key: ak, ci_run_key: rk, task_nr: t, task_name: tn,
                            machine_key, ..
                        } && ak == api_key && rk == ci_run_key && t == task_nr
                            && tn == task_name && machine_key@ == self.root_manifest.key()),
                    LoopbackMsg::AppendCiTaskData {
                        api_key, ci_run_key, task_nr, part_nr, key, data,
                    } => self.connected
                        ==> (r matches Some(m) && m matches Bot2RegistryV0::_AppendCiTaskData {
                            api_key: ak, ci_run_key: rk, task_nr: t, part_nr: p, key: k,
                            data: d, ..
                        } && ak == api_key && rk == ci_run_key && t == task_nr && p == part_nr
                            && k == key && d == data),
                    LoopbackMsg::DoneCiTask { api_key, ci_run_key, task_nr, failed } => self
                        .connected
                        ==> (r matches Some(m) && m matches Bot2RegistryV0::_DoneCiTask {
                            api_key: ak, ci_run_key: rk, task_nr: t, failed: f, ..
                        } && ak == api_key && rk == ci_run_key && t == task_nr && f == failed),
                    _ => r is None,
                }
            }),
    {
        if !self.connected {
            return None;
        }
        match msg {
            LoopbackMsg::StartCiTask { api_key, ci_run_key, task_nr, task_name, taskspec } => {
                Some(Bot2RegistryV0::_StartCiTask {
                    api_key,
                    machine_key: vstd::slice::slice_to_vec(
                        self.root_manifest.key_buf().as_slice(),
                    ),
                    ci_run_key,
                    task_nr,
                    task_name,
                    taskspec,
                    ts,
                })
            }
            LoopbackMsg::AppendCiTaskData { api_key, ci_run_key, task_nr, part_nr, key, data } => {
                Some(Bot2RegistryV0::_AppendCiTaskData {
                    api_key,
                    ci_run_key,
                    task_nr,
                    part_nr,
                    ts,
                    key,
                    data,
                })
            }
            LoopbackMsg::DoneCiTask { api_key, ci_run_key, task_nr, failed } => {
                Some(Bot2RegistryV0::_DoneCiTask { api_key, ci_run_key, task_nr, failed, ts })
            }
            _ => None,
        }
    }

    /// A verified message arrived from the registry.  Confirmations step
    /// the two-phase sequences — persisting the durable bit before a
    /// confirmation counts — and buffered registration outcomes queue up
    /// for the control process; a CI run request is handed out for
    /// checkout and parsing.
    pub fn handle_registry(&mut self, msg: Registry2BotV0) -> (actions: Vec<DaemonAction>)
        requires
            old(self).wf(),
        ensures
            final(self).wf(),
            match msg {
                Registry2BotV0::Auth(confirm) => ({
                    let ev = if confirm is Some {
                        AuthEvent::PositiveConfirm
                    } else {
                        AuthEvent::NegativeConfirm
                    };
                    let step = spec_auth_step(old(self).auth.phase, old(self).auth.bit, ev);
                    &&& final(self).auth.phase == step.0
                    &&& final(self).auth.bit == step.1
                    &&& (step.2 matches PersistAction::Store(b) ==> final(self).root_manifest.spec_auth_bit() == b && actions@ == seq![
                        DaemonAction::PersistRootManifest,
                    ])
                    &&& (step.2 == PersistAction::Keep ==> actions@.len() == 0 && final(self).root_manifest.spec_auth_bit() == old(self).root_manifest.spec_auth_bit())
                }),
                Registry2BotV0::RegisterMachine(confirm) => ({
                    let ev = if confirm is Some {
                        AuthEvent::PositiveConfirm
                    } else {
                        AuthEvent::NegativeConfirm
                    };
                    let step = spec_auth_step(
                        old(self).machine_reg.phase,
                        old(self).machine_reg.bit,
                        ev,
                    );
                    &&& final(self).machine_reg.phase == step.0
                    &&& final(self).machine_reg.bit == step.1
                    &&& (step.2 matches PersistAction::Store(b) ==> final(self).root_manifest.spec_mach_reg_bit() == b && actions@ == seq![
                        DaemonAction::PersistRootManifest,
                    ])
                    &&& (step.2 == PersistAction::Keep ==> actions@.len() == 0)
                }),
                Registry2BotV0::RegisterCiMachine(confirm) => final(self).evbuf@ == old(self).evbuf@.push(if confirm is Some {
                    Event::RegisterCiMachine
                } else {
                    Event::CancelRegisterCiMachine
                }) && actions@.len() == 0,
                Registry2BotV0::RegisterCiRepo(confirm) => final(self).evbuf@ == old(
                    self,
                ).evbuf@.push(match confirm {
                    Some(rep) => Event::RegisterCiRepo(rep),
                    None => Event::CancelRegisterCiRepo,
                }) && actions@.len() == 0,
                Registry2BotV0::_NewCiRun { api_key, ci_run_key, repo_clone_url, .. } => ({
                    if old(self).api_cfg is Some && old(self).connected {
                        &&& actions@.len() == 1
                        &&& (actions@[0] matches DaemonAction::PrepareCiRun {
                            api_key: ak, ci_run_key: rk, repo_clone_url: u,
                        } && ak@ == api_key@ && rk@ == ci_run_key@ && u@ == repo_clone_url@)
                    } else {
                        actions@.len() == 0
                    }
                }),
                Registry2BotV0::_Pong => actions@.len() == 0,
                _ => actions@.len() == 0,
            },
    {
        match msg {
            Registry2BotV0::_Pong => Vec::new(),
            Registry2BotV0::Auth(confirm) => {
                let ev = if confirm.is_some() {
                    AuthEvent::PositiveConfirm
                } else {
                    AuthEvent::NegativeConfirm
                };
                let act = self.auth.step(ev);
                match act {
                    PersistAction::Keep => Vec::new(),
                    PersistAction::Store(b) => {
                        let _ = self.root_manifest.set_auth_bit(b);
                        let mut actions: Vec<DaemonAction> = Vec::new();
                        actions.push(DaemonAction::PersistRootManifest);
                        proof {
                            assert(actions@ =~= seq![DaemonAction::PersistRootManifest]);
                        }
                        actions
                    }
                }
            }
            Registry2BotV0::RegisterMachine(confirm) => {
                let ev = if confirm.is_some() {
                    AuthEvent::PositiveConfirm
                } else {
                    AuthEvent::NegativeConfirm
                };
                let act = self.machine_reg.step(ev);
                match act {
                    PersistAction::Keep => Vec::new(),
                    PersistAction::Store(b) => {
                        let _ = self.root_manifest.set_mach_reg_bit(b);
                        let mut actions: Vec<DaemonAction> = Vec::new();
                        actions.push(DaemonAction::PersistRootManifest);
                        proof {
                            assert(actions@ =~= seq![DaemonAction::PersistRootManifest]);
                        }
                        actions
                    }
                }
            }
            Registry2BotV0::RegisterCiMachine(confirm) => {
                if confirm.is_some() {
                    self.evbuf.push_back(Event::RegisterCiMachine);
                } else {
                    self.evbuf.push_back(Event::CancelRegisterCiMachine);
                }
                Vec::new()
            }
            Registry2BotV0::RegisterCiRepo(confirm) => {
                match confirm {
                    Some(rep) => self.evbuf.push_back(Event::RegisterCiRepo(rep)),
                    None => self.evbuf.push_back(Event::CancelRegisterCiRepo),
                }
                Vec::new()
            }
            Registry2BotV0::_NewCiRun { api_key, ci_run_key, repo_clone_url, .. } => {
                if self.api_cfg.is_none() || !self.connected {
                    return Vec::new();
                }
                let mut actions: Vec<DaemonAction> = Vec::new();
                actions.push(DaemonAction::PrepareCiRun { api_key, ci_run_key, repo_clone_url });
                actions
            }
            Registry2BotV0::_StartCiTask(_) => Vec::new(),
            Registry2BotV0::_AppendCiTaskData(_) => Vec::new(),
            Registry2BotV0::_DoneCiTask(_) => Vec::new(),
        }
    }

    /// The durable authentication bit was, or could not be, written.
    /// A failure force-resets to the safe unauthenticated state, which is
    /// itself persisted.
    pub fn auth_persist_outcome(&mut self, ok: bool) -> (actions: Vec<DaemonAction>)
        requires
            old(self).wf(),
        ensures
            final(self).wf(),
            ({
                let ev = if ok {
                    AuthEvent::PersistOk
                } else {
                    AuthEvent::PersistFailed
                };
                let step = spec_auth_step(old(self).auth.phase, old(self).auth.bit, ev);
                &&& final(self).auth.phase == step.0
                &&& final(self).auth.bit == step.1
                &&& (step.2 matches PersistAction::Store(b) ==> final(self).root_manifest.spec_auth_bit() == b && actions@ == seq![
                    DaemonAction::PersistRootManifest,
                ])
                &&& (step.2 == PersistAction::Keep ==> actions@.len() == 0)
            }),
    {
        let ev = if ok {
            AuthEvent::PersistOk
        } else {
            AuthEvent::PersistFailed
        };
        let act = self.auth.step(ev);
        match act {
            PersistAction::Keep => Vec::new(),
            PersistAction::Store(b) => {
                let _ = self.root_manifest.set_auth_bit(b);
                let mut actions: Vec<DaemonAction> = Vec::new();
                actions.push(DaemonAction::PersistRootManifest);
                proof {
                    assert(actions@ =~= seq![DaemonAction::PersistRootManifest]);
                }
                actions
            }
        }
    }

    /// The durable machine-registration bit was, or could not be,
    /// written.
    pub fn machine_reg_persist_outcome(&mut self, ok: bool) -> (actions: Vec<DaemonAction>)
        requires
            old(self).wf(),
        ensures
            final(self).wf(),
            ({
                let ev = if ok {
                    AuthEvent::PersistOk
                } else {
                    AuthEvent::PersistFailed
                };
                let step = spec_auth_step(
                    old(self).machine_reg.phase,
                    old(self).machine_reg.bit,
                    ev,
                );
                &&& final(self).machine_reg.phase == step.0
                &&& final(self).machine_reg.bit == step.1
                &&& (step.2 matches PersistAction::Store(b) ==> final(self).root_manifest.spec_mach_reg_bit() == b && actions@ == seq![
                    DaemonAction::PersistRootManifest,
                ])
                &&& (step.2 == PersistAction::Keep ==> actions@.len() == 0)
            }),
    {
        let ev = if ok {
            AuthEvent::PersistOk
        } else {
            AuthEvent::PersistFailed
        };
        let act = self.machine_reg.step(ev);
        match act {
            PersistAction::Keep => Vec::new(),
            PersistAction::Store(b) => {
                let _ = self.root_manifest.set_mach_reg_bit(b);
                let mut actions: Vec<DaemonAction> = Vec::new();
                actions.push(DaemonAction::PersistRootManifest);
                proof {
                    assert(actions@ =~= seq![DaemonAction::PersistRootManifest]);
                }
                actions
            }
        }
    }


    /// Serve one control-process request: every request gets exactly one
    /// reply, and a request this daemon does not serve gets an explicit
    /// unsupported reply rather than silence.
    pub fn handle_ctl(&mut self, req: Ctl2Bot) -> (r: (Bot2Ctl, Vec<DaemonAction>))
        requires
            old(self).wf(),
        ensures
            final(self).wf(),
            match req {
                Ctl2Bot::_QueryApiAuthConfig => {
                    &&& *final(self) == *old(self)
                    &&& r.1@.len() == 0
                    &&& (r.0 matches Bot2Ctl::_QueryApiAuthConfig(q) && (match q {
                        Some(qq) => {
                            &&& old(self).api_cfg matches Some(cfg)
                            &&& (qq.api_id matches Some(k) && k@ == cfg.auth.api_key@)
                            &&& (qq.secret_token matches Some(t) && t@ == cfg.auth.secret_token@)
                        },
                        None => old(self).api_cfg is None,
                    }))
                },
                Ctl2Bot::_DumpApiAuthConfig { api_id, secret_token } => {
                    &&& *final(self) == *old(self)
                    &&& (r.0 matches Bot2Ctl::_DumpApiAuthConfig(x) && x == Some(()))
                    &&& r.1@.len() == 1
                    &&& (r.1@[0] matches DaemonAction::WriteApiConfig { api_id: a, secret_token: t }
                        && a@ == api_id@ && t@ == secret_token@)
                },
                Ctl2Bot::_QueryApiAuthState => {
                    &&& *final(self) == *old(self)
                    &&& r.1@.len() == 0
                    &&& (r.0 matches Bot2Ctl::_QueryApiAuthState(q) && q matches Some(qq)
                        && qq.auth == (old(self).auth.phase == Phase::Confirmed)
                        && qq.auth_bit == old(self).root_manifest.spec_auth_bit())
                },
                Ctl2Bot::_RetryApiAuth => {
                    &&& final(self).auth.phase == Phase::Idle
                    &&& final(self).auth.bit == old(self).auth.bit
                    &&& (r.0 matches Bot2Ctl::_RetryApiAuth(ok) && {
                        &&& (ok is Some <==> (old(self).api_cfg matches Some(cfg)
                            && base64_decode_of(cfg.auth.api_key@) matches Some(k)
                            && k.len() == API_KEY_LEN))
                        &&& (ok is Some ==> r.1@.len() >= 1
                            && (r.1@.last() matches DaemonAction::SendRegistry(m)
                            && m matches Bot2RegistryV0::Auth { .. }))
                        &&& (!old(self).connected ==> r.1@.len() >= 1
                            && r.1@[0] == DaemonAction::Reconnect)
                    })
                },
                Ctl2Bot::_AckRetryApiAuth => {
                    &&& *final(self) == *old(self)
                    &&& r.1@.len() == 0
                    &&& (r.0 matches Bot2Ctl::_AckRetryApiAuth(a)
                        && a == spec_poll(old(self).auth.phase))
                },
                Ctl2Bot::_UndoApiAuth => {
                    &&& *final(self) == *old(self)
                    &&& r.1@.len() == 0
                    &&& (r.0 matches Bot2Ctl::_UndoApiAuth(x) && x is None)
                },
                Ctl2Bot::EchoApiId => {
                    &&& *final(self) == *old(self)
                    &&& (r.0 matches Bot2Ctl::EchoApiId(x) && x is None)
                },
                Ctl2Bot::EchoMachineId => {
                    &&& *final(self) == *old(self)
                    &&& (r.0 matches Bot2Ctl::EchoMachineId(x) && x is None)
                },
                Ctl2Bot::PrintConfig => {
                    &&& *final(self) == *old(self)
                    &&& (r.0 matches Bot2Ctl::PrintConfig(x) && x is None)
                },
                Ctl2Bot::RegisterCiMachine { repo_url } => {
                    &&& *final(self) == *old(self)
                    &&& (r.0 matches Bot2Ctl::RegisterCiMachine(ok) && {
                        &&& (ok is Some <==> ((old(self).api_cfg matches Some(cfg)
                            && base64_decode_of(cfg.auth.api_key@) matches Some(k)
                            && k.len() == API_KEY_LEN) && old(self).connected))
                        &&& (ok is Some ==> r.1@.len() == 1
                            && (r.1@[0] matches DaemonAction::SendRegistry(m)
                            && m matches Bot2RegistryV0::RegisterCiMachine {
                            machine_key, repo_url: u, ..
                        } && machine_key@ == old(self).root_manifest.key() && u@ == repo_url@))
                        &&& (ok is None ==> r.1@.len() == 0)
                    })
                },
                Ctl2Bot::AckRegisterCiMachine => {
                    &&& r.1@.len() == 0
                    &&& (r.0 matches Bot2Ctl::AckRegisterCiMachine(a) && ({
                        if old(self).evbuf@.len() == 0 {
                            a is Pending && final(self).evbuf@ == old(self).evbuf@
                        } else {
                            match old(self).evbuf@[0] {
                                Event::RegisterCiMachine => a is Done && final(self).evbuf@
                                    == old(self).evbuf@.subrange(1, old(self).evbuf@.len() as int),
                                Event::CancelRegisterCiMachine => a is Stopped
                                    && final(self).evbuf@ == old(self).evbuf@.subrange(
                                    1,
                                    old(self).evbuf@.len() as int,
                                ),
                                _ => a is Pending && final(self).evbuf@ == old(self).evbuf@,
                            }
                        }
                    }))
                },
                Ctl2Bot::RegisterCiRepo { repo_url } => {
                    &&& *final(self) == *old(self)
                    &&& (r.0 matches Bot2Ctl::RegisterCiRepo(ok) && {
                        &&& (ok is Some <==> ((old(self).api_cfg matches Some(cfg)
                            && base64_decode_of(cfg.auth.api_key@) matches Some(k)
                            && k.len() == API_KEY_LEN) && old(self).connected))
                        &&& (ok is Some ==> r.1@.len() == 1
                            && (r.1@[0] matches DaemonAction::SendRegistry(m)
                            && m matches Bot2RegistryV0::RegisterCiRepo {
                            group_key, repo_url: u, ..
                        } && group_key is None && u@ == repo_url@))
                        &&& (ok is None ==> r.1@.len() == 0)
                    })
                },
                Ctl2Bot::AckRegisterCiRepo => {
                    &&& r.1@.len() == 0
                    &&& (r.0 matches Bot2Ctl::AckRegisterCiRepo(a) && ({
                        if old(self).evbuf@.len() == 0 {
                            a is Pending && final(self).evbuf@ == old(self).evbuf@
                        } else {
                            match old(self).evbuf@[0] {
                                Event::RegisterCiRepo(rep) => (a matches Ack::Done(d)
                                    && d.repo_web_url@ == rep.repo_web_url@
                                    && d.webhook_payload_url@ == rep.webhook_payload_url@
                                    && d.webhook_secret@ == rep.webhook_secret@)
                                    && final(self).evbuf@ == old(self).evbuf@.subrange(
                                    1,
                                    old(self).evbuf@.len() as int,
                                ),
                                Event::CancelRegisterCiRepo => a is Stopped
                                    && final(self).evbuf@ == old(self).evbuf@.subrange(
                                    1,
                                    old(self).evbuf@.len() as int,
                                ),
                                _ => a is Pending && final(self).evbuf@ == old(self).evbuf@,
                            }
                        }
                    }))
                },
                Ctl2Bot::RegisterMachine => {
                    &&& *final(self) == *old(self)
                    &&& r.1@.len() == 0
                    &&& (r.0 matches Bot2Ctl::RegisterMachine(p) && (match p {
                        Some((ss, mc)) => old(self).machine_cfg matches Some(m)
                            && spec_mc_eq(&mc, &m) && spec_ss_eq(&ss, &old(self).system_setup),
                        None => old(self).machine_cfg is None,
                    }))
                },
                Ctl2Bot::ConfirmRegisterMachine { .. } => {
                    &&& final(self).machine_reg.phase == Phase::Idle
                    &&& (r.0 matches Bot2Ctl::ConfirmRegisterMachine(ok) && {
                        &&& (ok is Some <==> ((old(self).api_cfg matches Some(cfg)
                            && base64_decode_of(cfg.auth.api_key@) matches Some(k)
                            && k.len() == API_KEY_LEN) && old(self).connected))
                        &&& (ok is Some ==> r.1@.len() == 1
                            && (r.1@[0] matches DaemonAction::SendRegistry(m)
                            && m matches Bot2RegistryV0::RegisterMachine { machine_key, .. }
                            && machine_key@ == old(self).root_manifest.key()))
                        &&& (ok is None ==> r.1@.len() == 0)
                    })
                },
                Ctl2Bot::AckRegisterMachine => {
                    &&& *final(self) == *old(self)
                    &&& r.1@.len() == 0
                    &&& (r.0 matches Bot2Ctl::AckRegisterMachine(a)
                        && a == spec_poll(old(self).machine_reg.phase))
                },
                Ctl2Bot::ReloadConfig => {
                    &&& *final(self) == *old(self)
                    &&& (r.0 matches Bot2Ctl::ReloadConfig(x) && x == Some(()))
                    &&& r.1@ == seq![DaemonAction::ReloadConfig]
                },
                Ctl2Bot::UnregisterCiMachine => {
                    &&& *final(self) == *old(self)
                    &&& (r.0 matches Bot2Ctl::UnregisterCiMachine(x) && x is None)
                },
                Ctl2Bot::UnregisterCiRepo => {
                    &&& *final(self) == *old(self)
                    &&& (r.0 matches Bot2Ctl::UnregisterCiRepo(x) && x is None)
                },
                Ctl2Bot::UnregisterMachine => {
                    &&& *final(self) == *old(self)
                    &&& (r.0 matches Bot2Ctl::UnregisterMachine(x) && x is None)
                },
                _ => r.0 is Unsupported && *final(self) == *old(self) && r.1@.len() == 0,
            },
    {
        match req {
            Ctl2Bot::_QueryApiAuthConfig => (
                Bot2Ctl::_QueryApiAuthConfig(self.query_api_auth_config()),
                Vec::new(),
            ),
            Ctl2Bot::_DumpApiAuthConfig { api_id, secret_token } => {
                let mut actions: Vec<DaemonAction> = Vec::new();
                actions.push(DaemonAction::WriteApiConfig { api_id, secret_token });
                (Bot2Ctl::_DumpApiAuthConfig(Some(())), actions)
            }
            Ctl2Bot::_QueryApiAuthState => (
                Bot2Ctl::_QueryApiAuthState(Some(self.query_api_auth_state())),
                Vec::new(),
            ),
            Ctl2Bot::_RetryApiAuth => {
                let _ = self.auth.step(AuthEvent::Reset);
                let mut actions: Vec<DaemonAction> = Vec::new();
                if !self.connected {
                    actions.push(DaemonAction::Reconnect);
                }
                match self.make_auth_request() {
                    None => (Bot2Ctl::_RetryApiAuth(None), actions),
                    Some(m) => {
                        actions.push(DaemonAction::SendRegistry(m));
                        (Bot2Ctl::_RetryApiAuth(Some(())), actions)
                    }
                }
            }
            Ctl2Bot::_AckRetryApiAuth => (Bot2Ctl::_AckRetryApiAuth(self.auth.poll()), Vec::new()),
            Ctl2Bot::_UndoApiAuth => (Bot2Ctl::_UndoApiAuth(None), Vec::new()),
            Ctl2Bot::EchoApiId => (Bot2Ctl::EchoApiId(None), Vec::new()),
            Ctl2Bot::EchoMachineId => (Bot2Ctl::EchoMachineId(None), Vec::new()),
            Ctl2Bot::PrintConfig => (Bot2Ctl::PrintConfig(None), Vec::new()),
            Ctl2Bot::RegisterCiMachine { repo_url } => {
                if !self.connected {
                    return (Bot2Ctl::RegisterCiMachine(None), Vec::new());
                }
                match self.api_key_bytes() {
                    None => (Bot2Ctl::RegisterCiMachine(None), Vec::new()),
                    Some(api_key) => {
                        let machine_key = vstd::slice::slice_to_vec(
                            self.root_manifest.key_buf().as_slice(),
                        );
                        let mut actions: Vec<DaemonAction> = Vec::new();
                        actions.push(DaemonAction::SendRegistry(
                            Bot2RegistryV0::RegisterCiMachine { api_key, machine_key, repo_url },
                        ));
                        (Bot2Ctl::RegisterCiMachine(Some(())), actions)
                    }
                }
            }
            Ctl2Bot::AckRegisterCiMachine => {
                let ghost oldq = self.evbuf@;
                match self.evbuf.pop_front() {
                    Some(Event::RegisterCiMachine) => (
                        Bot2Ctl::AckRegisterCiMachine(Ack::Done(())),
                        Vec::new(),
                    ),
                    Some(Event::CancelRegisterCiMachine) => (
                        Bot2Ctl::AckRegisterCiMachine(Ack::Stopped),
                        Vec::new(),
                    ),
                    Some(e) => {
                        self.evbuf.push_front(e);
                        proof {
                            assert(self.evbuf@ =~= oldq);
                        }
                        (Bot2Ctl::AckRegisterCiMachine(Ack::Pending), Vec::new())
                    }
                    None => (Bot2Ctl::AckRegisterCiMachine(Ack::Pending), Vec::new()),
                }
            }
            Ctl2Bot::RegisterCiRepo { repo_url } => {
                if !self.connected {
                    return (Bot2Ctl::RegisterCiRepo(None), Vec::new());
                }
                match self.api_key_bytes() {
                    None => (Bot2Ctl::RegisterCiRepo(None), Vec::new()),
                    Some(api_key) => {
                        let mut actions: Vec<DaemonAction> = Vec::new();
                        actions.push(DaemonAction::SendRegistry(Bot2RegistryV0::RegisterCiRepo {
                            api_key,
                            group_key: None,
                            repo_url,
                        }));
                        (Bot2Ctl::RegisterCiRepo(Some(())), actions)
                    }
                }
            }
            Ctl2Bot::AckRegisterCiRepo => {
                let ghost oldq = self.evbuf@;
                match self.evbuf.pop_front() {
                    Some(Event::RegisterCiRepo(rep)) => (
                        Bot2Ctl::AckRegisterCiRepo(Ack::Done(RegisterCiRepo {
                            repo_web_url: rep.repo_web_url,
                            webhook_payload_url: rep.webhook_payload_url,
                            webhook_settings_url: rep.webhook_settings_url,
                            webhook_secret: rep.webhook_secret,
                        })),
                        Vec::new(),
                    ),
                    Some(Event::CancelRegisterCiRepo) => (
                        Bot2Ctl::AckRegisterCiRepo(Ack::Stopped),
                        Vec::new(),
                    ),
                    Some(e) => {
                        self.evbuf.push_front(e);
                        proof {
                            assert(self.evbuf@ =~= oldq);
                        }
                        (Bot2Ctl::AckRegisterCiRepo(Ack::Pending), Vec::new())
                    }
                    None => (Bot2Ctl::AckRegisterCiRepo(Ack::Pending), Vec::new()),
                }
            }
            Ctl2Bot::RegisterMachine => {
                match &self.machine_cfg {
                    None => (Bot2Ctl::RegisterMachine(None), Vec::new()),
                    Some(mc) => {
                        let ss = dup_system_setup(&self.system_setup);
                        let mc2 = dup_machine_cfg(mc);
                        (Bot2Ctl::RegisterMachine(Some((ss, mc2))), Vec::new())
                    }
                }
            }
            Ctl2Bot::ConfirmRegisterMachine { system_setup, machine_cfg } => {
                let _ = self.machine_reg.step(AuthEvent::Reset);
                if !self.connected {
                    return (Bot2Ctl::ConfirmRegisterMachine(None), Vec::new());
                }
                match self.api_key_bytes() {
                    None => (Bot2Ctl::ConfirmRegisterMachine(None), Vec::new()),
                    Some(api_key) => {
                        let machine_key = vstd::slice::slice_to_vec(
                            self.root_manifest.key_buf().as_slice(),
                        );
                        let mut actions: Vec<DaemonAction> = Vec::new();
                        actions.push(DaemonAction::SendRegistry(Bot2RegistryV0::RegisterMachine {
                            api_key,
                            machine_key,
                            system_setup,
                            machine_cfg,
                        }));
                        (Bot2Ctl::ConfirmRegisterMachine(Some(())), actions)
                    }
                }
            }
            Ctl2Bot::AckRegisterMachine => (
                Bot2Ctl::AckRegisterMachine(self.machine_reg.poll()),
                Vec::new(),
            ),
            Ctl2Bot::ReloadConfig => {
                let mut actions: Vec<DaemonAction> = Vec::new();
                actions.push(DaemonAction::ReloadConfig);
                proof {
                    assert(actions@ =~= seq![DaemonAction::ReloadConfig]);
                }
                (Bot2Ctl::ReloadConfig(Some(())), actions)
            }
            Ctl2Bot::UnregisterCiMachine => (Bot2Ctl::UnregisterCiMachine(None), Vec::new()),
            Ctl2Bot::UnregisterCiRepo => (Bot2Ctl::UnregisterCiRepo(None), Vec::new()),
            Ctl2Bot::UnregisterMachine => (Bot2Ctl::UnregisterMachine(None), Vec::new()),
            _ => (Bot2Ctl::Unsupported, Vec::new()),
        }
    }

    /// The surrounding binary reloaded the configuration files.
    pub fn set_configs(
        &mut self,
        api_cfg: Option<ApiConfig>,
        machine_cfg: Option<MachineConfigV0>,
    )
        ensures
            final(self).api_cfg == api_cfg,
            final(self).machine_cfg == machine_cfg,
            final(self).root_manifest == old(self).root_manifest,
            final(self).auth == old(self).auth,
            final(self).machine_reg == old(self).machine_reg,
            final(self).connected == old(self).connected,
    {
        self.api_cfg = api_cfg;
        self.machine_cfg = machine_cfg;
    }

    /// A CI run's checkout and parse finished.  A task list yields one
    /// acceptance carrying the exact task count followed by one dispatch
    /// per task, task numbers counting up from 1 in order; a checkout or
    /// parse failure aborts the whole run, reported as failed early.
    pub fn handle_new_ci_run_prepared(
        &mut self,
        api_key: Vec<u8>,
        ci_run_key: Vec<u8>,
        prepared: Option<Vec<TaskSpec>>,
        ts: Option<String>,
    ) -> (actions: Vec<DaemonAction>)
        requires
            old(self).wf(),
        ensures
            final(self).wf(),
            match prepared {
                Some(tasks) => {
                    &&& actions@.len() == 1 + tasks@.len()
                    &&& (actions@[0] matches DaemonAction::SendRegistry(m)
                        && m matches Bot2RegistryV0::_NewCiRun(a)
                        && a matches Some(_NewCiRunV0::Accept {
                        task_count, failed_early, ci_run_key: rk, ..
                    }) && task_count == Some(tasks@.len() as u64) && !failed_early
                        && rk@ == ci_run_key@)
                    &&& forall|i: int| 0 <= i < tasks@.len()
                        ==> ((#[trigger] actions@[1 + i]) matches DaemonAction::DispatchTask {
                            task_nr, task, ci_run_key: dk, ..
                        } && task_nr == i + 1 && task@ == tasks@[i]@ && dk@ == ci_run_key@)
                },
                None => {
                    &&& actions@.len() == 1
                    &&& (actions@[0] matches DaemonAction::SendRegistry(m)
                        && m matches Bot2RegistryV0::_NewCiRun(a)
                        && a matches Some(_NewCiRunV0::Accept { task_count, failed_early, .. })
                        && task_count is None && failed_early)
                },
            },
    {
        let mut actions: Vec<DaemonAction> = Vec::new();
        match prepared {
            None => {
                actions.push(DaemonAction::SendRegistry(Bot2RegistryV0::_NewCiRun(Some(
                    _NewCiRunV0::Accept {
                        api_key,
                        ci_run_key,
                        task_count: None,
                        failed_early: true,
                        ts,
                    },
                ))));
                actions
            }
            Some(tasks) => {
                let task_count = tasks.len() as u64;
                actions.push(DaemonAction::SendRegistry(Bot2RegistryV0::_NewCiRun(Some(
                    _NewCiRunV0::Accept {
                        api_key: crate::bytes::clone_bytes(&api_key),
                        ci_run_key: crate::bytes::clone_bytes(&ci_run_key),
                        task_count: Some(task_count),
                        failed_early: false,
                        ts,
                    },
                ))));
                let ghost tasksv = tasks.deep_view();
                let ghost accept_action = actions@[0];
                let ghost akv = api_key@;
                let ghost rkv = ci_run_key@;
                let n = tasks.len();
                let mut i: usize = 0;
                while i < n
                    invariant
                        i <= n,
                        n == tasksv.len(),
                        n == tasks@.len(),
                        n <= u64::MAX,
                        tasks.deep_view() == tasksv,
                        api_key@ == akv,
                        ci_run_key@ == rkv,
                        actions@.len() == 1 + i,
                        actions@[0] == accept_action,
                        (accept_action matches DaemonAction::SendRegistry(m)
                            && m matches Bot2RegistryV0::_NewCiRun(a)
                            && a matches Some(_NewCiRunV0::Accept {
                            task_count: tc, failed_early, ci_run_key: rk, ..
                        }) && tc == Some(n as u64) && !failed_early && rk@ == rkv),
                        forall|k: int| 0 <= k < i ==> ((#[trigger] actions@[1 + k]) matches
                            DaemonAction::DispatchTask {
                            api_key: ak, ci_run_key: dk, task_nr, task,
                        } && task_nr == k + 1 && task@ == tasksv[k] && dk@ == rkv && ak@ == akv),
                    decreases n - i,
                {
                    let task = tasks[i].dup();
                    proof {
                        assert(tasks@[i as int]@ == tasksv[i as int]);
                    }
                    actions.push(DaemonAction::DispatchTask {
                        api_key: crate::bytes::clone_bytes(&api_key),
                        ci_run_key: crate::bytes::clone_bytes(&ci_run_key),
                        task_nr: (i as u64) + 1,
                        task,
                    });
                    i = i + 1;
                }
                actions
            }
        }
    }
}

} // verus!
