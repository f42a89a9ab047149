//! The daemon's event-loop steps: authentication end to end, the CI run
//! pipeline, and the console chunking.

use guppybot::config::{ApiAuth, ApiConfig};
use guppybot::daemon::{Daemon, DaemonAction, LoopbackMsg};
use guppybot::docker::{ChunkBuffer, parse_taskspecs};
use guppybot::ipc::{Ack, Bot2Ctl, Ctl2Bot};
use guppybot::schema::{
    Bot2RegistryV0, CpuArchV0, CpuInfoV0, DistroCodenameV0, DistroIdV0, DistroInfoV0, GpuInfoV0,
    GpusV0, Registry2BotV0, SystemSetupV0, _NewCiRunV0,
};
use guppybot::state::RootManifest;

fn test_system_setup() -> SystemSetupV0 {
    SystemSetupV0 {
        cpu_info: CpuInfoV0 { arch: CpuArchV0::X86_64, num_cpus: 4 },
        distro_info: DistroInfoV0 {
            id: DistroIdV0::Debian,
            codename: Some(DistroCodenameV0::DebianStretch),
        },
        gpu_info: GpuInfoV0 {
            driver_version: None,
            driver_cuda_version: None,
            toolkit_cuda_version: None,
        },
        gpus: GpusV0 { pci_records: Vec::new() },
    }
}

fn test_api_cfg() -> ApiConfig {
    let mut api_key = String::new();
    base64::encode_config_buf(&[0x11u8; 48], base64::URL_SAFE, &mut api_key);
    let mut secret_token = String::new();
    base64::encode_config_buf(&[0x22u8; 32], base64::URL_SAFE, &mut secret_token);
    ApiConfig { auth: ApiAuth { api_key, secret_token } }
}

fn fresh_daemon() -> Daemon {
    Daemon::new(
        RootManifest::fresh(),
        Some(test_api_cfg()),
        None,
        test_system_setup(),
    )
}

#[test]
fn auth_flow_sets_session_and_durable_bit() {
    let mut d = fresh_daemon();
    d.note_connected();

    // Before anything was sent the acknowledgement is pending.
    let (reply, _) = d.handle_ctl(Ctl2Bot::_AckRetryApiAuth);
    assert!(matches!(reply, Bot2Ctl::_AckRetryApiAuth(Ack::Pending)));

    // The retry request dispatches an authentication message.
    let (reply, actions) = d.handle_ctl(Ctl2Bot::_RetryApiAuth);
    assert!(matches!(reply, Bot2Ctl::_RetryApiAuth(Some(()))));
    assert_eq!(actions.len(), 1);
    match &actions[0] {
        DaemonAction::SendRegistry(Bot2RegistryV0::Auth { api_key }) => {
            assert_eq!(api_key, &vec![0x11u8; 48]);
        }
        _ => panic!("expected an authentication send"),
    }
    d.note_auth_sent();

    // A positive confirmation first persists the durable bit.
    let actions = d.handle_registry(Registry2BotV0::Auth(Some(())));
    assert_eq!(actions.len(), 1);
    assert!(matches!(actions[0], DaemonAction::PersistRootManifest));
    let (reply, _) = d.handle_ctl(Ctl2Bot::_AckRetryApiAuth);
    assert!(matches!(reply, Bot2Ctl::_AckRetryApiAuth(Ack::Pending)));

    // Once the write lands, the session is authenticated.
    let actions = d.auth_persist_outcome(true);
    assert!(actions.is_empty());
    let (reply, _) = d.handle_ctl(Ctl2Bot::_QueryApiAuthState);
    match reply {
        Bot2Ctl::_QueryApiAuthState(Some(q)) => {
            assert!(q.auth);
            assert!(q.auth_bit);
        }
        _ => panic!("expected an authentication state"),
    }
    let (reply, _) = d.handle_ctl(Ctl2Bot::_AckRetryApiAuth);
    assert!(matches!(reply, Bot2Ctl::_AckRetryApiAuth(Ack::Done(()))));

    // A later rejection clears both, whatever came before.
    let actions = d.handle_registry(Registry2BotV0::Auth(None));
    assert_eq!(actions.len(), 1);
    assert!(matches!(actions[0], DaemonAction::PersistRootManifest));
    let (reply, _) = d.handle_ctl(Ctl2Bot::_QueryApiAuthState);
    match reply {
        Bot2Ctl::_QueryApiAuthState(Some(q)) => {
            assert!(!q.auth);
            assert!(!q.auth_bit);
        }
        _ => panic!("expected an authentication state"),
    }
    let (reply, _) = d.handle_ctl(Ctl2Bot::_AckRetryApiAuth);
    assert!(matches!(reply, Bot2Ctl::_AckRetryApiAuth(Ack::Stopped)));
}

#[test]
fn failed_bit_write_resets_to_unauthenticated() {
    let mut d = fresh_daemon();
    d.note_connected();
    let _ = d.handle_ctl(Ctl2Bot::_RetryApiAuth);
    d.note_auth_sent();
    let _ = d.handle_registry(Registry2BotV0::Auth(Some(())));
    let actions = d.auth_persist_outcome(false);
    // The safe state is force-persisted.
    assert_eq!(actions.len(), 1);
    assert!(matches!(actions[0], DaemonAction::PersistRootManifest));
    let (reply, _) = d.handle_ctl(Ctl2Bot::_QueryApiAuthState);
    match reply {
        Bot2Ctl::_QueryApiAuthState(Some(q)) => {
            assert!(!q.auth);
            assert!(!q.auth_bit);
        }
        _ => panic!("expected an authentication state"),
    }
}

#[test]
fn new_ci_run_with_two_tasks_reports_in_order() {
    let mut d = fresh_daemon();
    d.note_connected();

    // The registry announces a run; the daemon asks for checkout+parse.
    let actions = d.handle_registry(Registry2BotV0::_NewCiRun {
        api_key: vec![0x11; 48],
        ci_run_key: b"run-1".to_vec(),
        repo_clone_url: "https://example.invalid/repo.git".to_owned(),
        originator: None,
        ref_full: None,
        commit_hash: None,
        runspec: None,
    });
    assert_eq!(actions.len(), 1);
    let (api_key, ci_run_key, _url) = match &actions[0] {
        DaemonAction::PrepareCiRun { api_key, ci_run_key, repo_clone_url } => {
            (api_key.clone(), ci_run_key.clone(), repo_clone_url.clone())
        }
        _ => panic!("expected a prepare action"),
    };

    // The checkout produced a two-task directive stream.
    let stream = b"#-guppy:v0.task:begin\n\
#-guppy:v0.task:name one\n\
#-guppy:v0.task:require_distro debian ==9\n\
#-guppy:v0.task:end\n\
#-guppy:v0.task:begin\n\
#-guppy:v0.task:name two\n\
#-guppy:v0.task:require_distro debian ==9\n\
#-guppy:v0.task:end\n";
    let tasks = parse_taskspecs(stream).expect("two tasks parse");
    assert_eq!(tasks.len(), 2);
    let actions =
        d.handle_new_ci_run_prepared(api_key.clone(), ci_run_key.clone(), Some(tasks), None);

    // Exactly one acceptance with the task count, then one dispatch per
    // task with task numbers counting from 1.
    assert_eq!(actions.len(), 3);
    match &actions[0] {
        DaemonAction::SendRegistry(Bot2RegistryV0::_NewCiRun(Some(_NewCiRunV0::Accept {
            task_count,
            failed_early,
            ..
        }))) => {
            assert_eq!(*task_count, Some(2));
            assert!(!failed_early);
        }
        _ => panic!("expected an acceptance"),
    }
    for (i, a) in actions[1..].iter().enumerate() {
        match a {
            DaemonAction::DispatchTask { task_nr, task, .. } => {
                assert_eq!(*task_nr, i as u64 + 1);
                let expected = if i == 0 { b"one".to_vec() } else { b"two".to_vec() };
                assert_eq!(task.name, expected);
            }
            _ => panic!("expected a dispatch"),
        }
    }

    // Each task reports a start, chunks, then exactly one done.
    let start = d
        .handle_worker_report(
            LoopbackMsg::StartCiTask {
                api_key: api_key.clone(),
                ci_run_key: ci_run_key.clone(),
                task_nr: 1,
                task_name: Some(b"one".to_vec()),
                taskspec: None,
            },
            None,
        )
        .expect("connected daemon forwards the start");
    assert!(matches!(start, Bot2RegistryV0::_StartCiTask { task_nr: 1, .. }));

    let done = d
        .handle_worker_report(
            LoopbackMsg::DoneCiTask {
                api_key,
                ci_run_key,
                task_nr: 1,
                failed: false,
            },
            None,
        )
        .expect("connected daemon forwards the done");
    assert!(matches!(done, Bot2RegistryV0::_DoneCiTask { task_nr: 1, failed: false, .. }));
}

#[test]
fn failed_checkout_reports_failed_early() {
    let mut d = fresh_daemon();
    d.note_connected();
    let actions = d.handle_new_ci_run_prepared(vec![1], vec![2], None, None);
    assert_eq!(actions.len(), 1);
    match &actions[0] {
        DaemonAction::SendRegistry(Bot2RegistryV0::_NewCiRun(Some(_NewCiRunV0::Accept {
            task_count,
            failed_early,
            ..
        }))) => {
            assert_eq!(*task_count, None);
            assert!(*failed_early);
        }
        _ => panic!("expected a failed-early acceptance"),
    }
}

#[test]
fn chunk_part_numbers_increase_from_one() {
    let mut buf = ChunkBuffer::new(8);
    let mut parts: Vec<u64> = Vec::new();
    let mut chunks: Vec<Vec<u8>> = Vec::new();
    for line in [&b"aaaa"[..], b"bb", b"cccccccc", b"d"] {
        if let Some((part, chunk)) = buf.push_line(line) {
            parts.push(part);
            chunks.push(chunk);
        }
    }
    if let Some((part, chunk)) = buf.flush() {
        parts.push(part);
        chunks.push(chunk);
    }
    // Strictly increasing from 1, and nothing lost or reordered.
    assert_eq!(parts, vec![1, 2, 3]);
    let joined: Vec<u8> = chunks.concat();
    assert_eq!(joined, b"aaaa\nbb\ncccccccc\nd\n".to_vec());
    assert!(chunks[0].len() >= 8 && chunks[1].len() >= 8);
}

#[test]
fn disconnected_daemon_reports_nothing() {
    let d = fresh_daemon();
    let r = d.handle_worker_report(
        LoopbackMsg::DoneCiTask {
            api_key: vec![],
            ci_run_key: vec![],
            task_nr: 1,
            failed: true,
        },
        None,
    );
    assert!(r.is_none());
}

#[test]
fn live_echo_pings_and_stale_echo_is_ignored() {
    let mut d = fresh_daemon();
    d.note_connected();
    let c1 = d.next_echo();
    let c2 = d.next_echo();
    assert!(d.handle_echo(c1).is_none());
    let ping = d.handle_echo(c2).expect("latest counter pings");
    match ping {
        Bot2RegistryV0::_Ping { api_key, machine_key } => {
            assert!(api_key.is_empty());
            assert_eq!(&machine_key, d.root_manifest.key_buf());
        }
        _ => panic!("expected a ping"),
    }
}

#[test]
fn registration_acks_follow_the_buffered_events() {
    let mut d = fresh_daemon();
    d.note_connected();
    let (reply, _) = d.handle_ctl(Ctl2Bot::AckRegisterCiMachine);
    assert!(matches!(reply, Bot2Ctl::AckRegisterCiMachine(Ack::Pending)));
    let _ = d.handle_registry(Registry2BotV0::RegisterCiMachine(Some(())));
    let (reply, _) = d.handle_ctl(Ctl2Bot::AckRegisterCiMachine);
    assert!(matches!(reply, Bot2Ctl::AckRegisterCiMachine(Ack::Done(()))));
    let _ = d.handle_registry(Registry2BotV0::RegisterCiMachine(None));
    let (reply, _) = d.handle_ctl(Ctl2Bot::AckRegisterCiMachine);
    assert!(matches!(reply, Bot2Ctl::AckRegisterCiMachine(Ack::Stopped)));
}

#[test]
fn unsupported_requests_get_an_explicit_reply() {
    let mut d = fresh_daemon();
    let (reply, actions) = d.handle_ctl(Ctl2Bot::RegisterCiGroupMachine {
        group_id: "g".to_owned(),
    });
    assert!(matches!(reply, Bot2Ctl::Unsupported));
    assert!(actions.is_empty());
}
