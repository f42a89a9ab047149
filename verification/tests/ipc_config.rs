//! IPC framing, configuration checking and the byte-level helpers.

use guppybot::bytes::{hex_decode, hex_string, split_lines, split_ws, u32_from_le, u32_to_le};
use guppybot::cli::{EnsureAuth, confirm_line, ensure_auth_decision};
use guppybot::config::api_config_mode_ok;
use guppybot::config_toml;
use guppybot::ipc::{IPC_MAX_PAYLOAD, IpcError, decode_ipc_frame, encode_ipc_frame};
use guppybot::schema::LocalDeviceV0;

#[test]
fn ipc_frame_round_trips() {
    let payload: Vec<u8> = b"one request".to_vec();
    let frame = encode_ipc_frame(&payload).expect("small payload frames");
    assert_eq!(frame.len(), 4 + payload.len());
    assert_eq!(decode_ipc_frame(&frame).expect("frame decodes"), payload);
}

#[test]
fn ipc_frame_respects_the_cap() {
    let at_cap: Vec<u8> = vec![0u8; IPC_MAX_PAYLOAD];
    assert!(encode_ipc_frame(&at_cap).is_ok());
    let over: Vec<u8> = vec![0u8; IPC_MAX_PAYLOAD + 1];
    assert_eq!(encode_ipc_frame(&over), Err(IpcError::Oversized));

    // A received frame claiming an oversized payload is rejected.
    let mut bad = u32_to_le((IPC_MAX_PAYLOAD + 1) as u32);
    bad.extend_from_slice(&vec![0u8; IPC_MAX_PAYLOAD + 1]);
    assert_eq!(decode_ipc_frame(&bad), Err(IpcError::Oversized));

    // Truncated header, and a length that disagrees with the bytes.
    assert_eq!(decode_ipc_frame(&vec![1, 2, 3]), Err(IpcError::TooShort));
    let mut lying = u32_to_le(5);
    lying.extend_from_slice(b"abc");
    assert_eq!(decode_ipc_frame(&lying), Err(IpcError::LengthMismatch));
}

#[test]
fn little_endian_words_round_trip() {
    for x in [0u32, 1, 255, 256, 4092, 0xdead_beef, u32::MAX] {
        let b = u32_to_le(x);
        assert_eq!(u32_from_le(b[0], b[1], b[2], b[3]), x);
    }
    assert_eq!(u32_to_le(0x0102_0304), vec![4, 3, 2, 1]);
}

#[test]
fn hex_encodes_and_decodes() {
    assert_eq!(hex_string(&[0x00, 0xff, 0x1a]), "00ff1a");
    assert_eq!(hex_decode(b"00ff1a"), Some(vec![0x00, 0xff, 0x1a]));
    assert_eq!(hex_decode(b"00FF1A"), Some(vec![0x00, 0xff, 0x1a]));
    assert_eq!(hex_decode(b"abc"), None);
    assert_eq!(hex_decode(b"zz"), None);
    assert_eq!(hex_decode(b""), Some(Vec::new()));
}

#[test]
fn tokenizing_and_line_splitting() {
    let toks = split_ws(b"  a bb\tccc \n");
    assert_eq!(toks, vec![b"a".to_vec(), b"bb".to_vec(), b"ccc".to_vec()]);
    assert!(split_ws(b"   ").is_empty());

    let lines = split_lines(b"one\ntwo\r\n\nlast");
    assert_eq!(
        lines,
        vec![b"one".to_vec(), b"two".to_vec(), b"".to_vec(), b"last".to_vec()]
    );
    // A trailing line feed opens no empty final line.
    assert_eq!(split_lines(b"x\n").len(), 1);
    assert_eq!(split_lines(b"").len(), 0);
}

#[test]
fn api_config_validation() {
    let full = config_toml::ApiConfig {
        auth: Some(config_toml::ApiAuth {
            api_key: Some("k".to_owned()),
            secret_token: Some("t".to_owned()),
        }),
    };
    let cfg = full.into_api_config().expect("complete credentials check");
    assert_eq!(cfg.auth.api_key, "k");
    assert_eq!(cfg.auth.secret_token, "t");

    let no_auth = config_toml::ApiConfig { auth: None };
    assert_eq!(
        no_auth.into_api_config().unwrap_err(),
        config_toml::ConfigError::MissingApiKey
    );
    let no_token = config_toml::ApiConfig {
        auth: Some(config_toml::ApiAuth {
            api_key: Some("k".to_owned()),
            secret_token: None,
        }),
    };
    assert_eq!(
        no_token.into_api_config().unwrap_err(),
        config_toml::ConfigError::MissingSecretToken
    );
}

#[test]
fn machine_config_fills_defaults() {
    let empty = config_toml::MachineConfig { local_machine: None };
    let mc = empty.into_machine_config();
    assert_eq!(mc.local_machine.task_workers, 1);
    assert!(mc.local_machine.gpus.is_empty());

    let cfg = config_toml::MachineConfig {
        local_machine: Some(config_toml::LocalMachine {
            task_workers: Some(3),
            gpus: Some(vec!["00:02.0".to_owned()]),
        }),
    };
    let mc = cfg.into_machine_config();
    assert_eq!(mc.local_machine.task_workers, 3);
    assert_eq!(mc.local_machine.gpus.len(), 1);
    let LocalDeviceV0::PciSlot(slot) = &mc.local_machine.gpus[0];
    assert_eq!(slot, "00:02.0");
}

#[test]
fn config_file_modes() {
    assert!(api_config_mode_ok(0o600));
    assert!(api_config_mode_ok(0o400));
    assert!(api_config_mode_ok(0o100600));
    assert!(api_config_mode_ok(0o644));
    assert!(!api_config_mode_ok(0o200));
    assert!(!api_config_mode_ok(0o000));
}

#[test]
fn auth_state_decisions() {
    assert_eq!(ensure_auth_decision(true, true), EnsureAuth::AlreadyAuthenticated);
    assert_eq!(ensure_auth_decision(false, true), EnsureAuth::RetryNeeded);
    assert_eq!(ensure_auth_decision(false, false), EnsureAuth::NotAuthenticated);
    assert_eq!(ensure_auth_decision(true, false), EnsureAuth::NotAuthenticated);
}

#[test]
fn confirmation_lines() {
    assert_eq!(confirm_line("Y\n"), Some(true));
    assert_eq!(confirm_line("y\n"), Some(true));
    assert_eq!(confirm_line("yes\n"), Some(true));
    assert_eq!(confirm_line("N\n"), Some(false));
    assert_eq!(confirm_line("n\n"), Some(false));
    assert_eq!(confirm_line("no\n"), Some(false));
    assert_eq!(confirm_line("yep\n"), None);
    assert_eq!(confirm_line("y"), None);
}
