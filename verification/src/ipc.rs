//! The local IPC protocol between the control process and the daemon.
//!
//! One connection carries exactly one length-prefixed request and one
//! length-prefixed reply; frames are `[4-byte little-endian length]
//! [payload]` with the payload capped at 4092 bytes.  A violation is a
//! hard error for that connection only, never fatal to the daemon.

use vstd::prelude::*;
use crate::bytes::{push_bytes, spec_le_word, spec_u32_le, u32_from_le, u32_to_le};
use crate::schema::{MachineConfigV0, SystemSetupV0};

verus! {

/// The largest payload an IPC frame may carry.
pub const IPC_MAX_PAYLOAD: usize = 4092;

/// A poll-style acknowledgement: the awaited value, no outcome yet, or a
/// terminal refusal.
#[derive(Debug)]
pub enum Ack<T> {
    Done(T),
    Pending,
    Stopped,
}

/// Requests from the control process to the daemon.
#[derive(Debug)]
pub enum Ctl2Bot {
    _QueryApiAuthConfig,
    _DumpApiAuthConfig { api_id: String, secret_token: String },
    _QueryApiAuthState,
    _RetryApiAuth,
    _AckRetryApiAuth,
    _UndoApiAuth,
    _AckUndoApiAuth,
    EchoApiId,
    EchoMachineId,
    PrintConfig,
    RegisterCiGroupMachine { group_id: String },
    AckRegisterCiGroupMachine,
    RegisterCiGroupRepo { group_id: String, repo_url: String },
    AckRegisterCiGroupRepo,
    RegisterCiMachine { repo_url: String },
    AckRegisterCiMachine,
    RegisterCiRepo { repo_url: String },
    AckRegisterCiRepo,
    RegisterMachine,
    ConfirmRegisterMachine { system_setup: SystemSetupV0, machine_cfg: MachineConfigV0 },
    AckRegisterMachine,
    ReloadConfig,
    UnregisterCiMachine,
    UnregisterCiRepo,
    UnregisterMachine,
}

/// Replies from the daemon to the control process.
#[derive(Debug)]
pub enum Bot2Ctl {
    _QueryApiAuthConfig(Option<QueryApiAuthConfig>),
    _DumpApiAuthConfig(Option<()>),
    _QueryApiAuthState(Option<QueryApiAuthState>),
    _RetryApiAuth(Option<()>),
    _AckRetryApiAuth(Ack<()>),
    _UndoApiAuth(Option<()>),
    _AckUndoApiAuth(Option<()>),
    EchoApiId(Option<EchoApiId>),
    EchoMachineId(Option<EchoMachineId>),
    PrintConfig(Option<PrintConfig>),
    RegisterCiGroupMachine(Option<()>),
    AckRegisterCiGroupMachine(Ack<()>),
    RegisterCiGroupRepo(Option<()>),
    AckRegisterCiGroupRepo(Ack<()>),
    RegisterCiMachine(Option<()>),
    AckRegisterCiMachine(Ack<()>),
    RegisterCiRepo(Option<()>),
    AckRegisterCiRepo(Ack<RegisterCiRepo>),
    RegisterMachine(Option<(SystemSetupV0, MachineConfigV0)>),
    ConfirmRegisterMachine(Option<()>),
    AckRegisterMachine(Ack<()>),
    ReloadConfig(Option<()>),
    UnregisterCiMachine(Option<()>),
    UnregisterCiRepo(Option<()>),
    UnregisterMachine(Option<()>),
    /// A request this daemon does not serve.
    Unsupported,
}

/// The configured credentials, echoed back to the control process.
#[derive(Debug)]
pub struct QueryApiAuthConfig {
    pub api_id: Option<String>,
    pub secret_token: Option<String>,
}

/// The authentication state: the transient session flag and the durable
/// bit.
#[derive(Clone, Copy, PartialEq, Eq, Structural, Debug)]
pub struct QueryApiAuthState {
    pub auth: bool,
    pub auth_bit: bool,
}

#[derive(Debug)]
pub struct EchoApiId {
    pub api_id: String,
}

#[derive(Debug)]
pub struct EchoMachineId {
    pub machine_id: String,
}

#[derive(Debug)]
pub struct PrintConfig {
    pub api_id: String,
    pub machine_cfg: MachineConfigV0,
}

/// The webhook configuration handed back after a repository registration.
#[derive(Debug)]
pub struct RegisterCiRepo {
    pub repo_web_url: String,
    pub webhook_payload_url: String,
    pub webhook_settings_url: Option<String>,
    pub webhook_secret: String,
}

// ---------------------------------------------------------------------------
// Framing
// ---------------------------------------------------------------------------

/// Why an IPC frame was rejected.
#[derive(Clone, Copy, PartialEq, Eq, Structural, Debug)]
pub enum IpcError {
    /// A payload beyond the cap.
    Oversized,
    /// A buffer shorter than a length header.
    TooShort,
    /// A declared length that disagrees with the bytes present.
    LengthMismatch,
}

/// The frame for a payload: its length word followed by the payload.
pub open spec fn spec_ipc_frame(payload: Seq<u8>) -> Seq<u8> {
    spec_u32_le(payload.len() as u32) + payload
}

/// What decoding a byte buffer yields.
pub open spec fn spec_ipc_decode(buf: Seq<u8>) -> Result<Seq<u8>, IpcError> {
    if buf.len() < 4 {
        Err(IpcError::TooShort)
    } else if spec_le_word(buf.subrange(0, 4)) > IPC_MAX_PAYLOAD {
        Err(IpcError::Oversized)
    } else if spec_le_word(buf.subrange(0, 4)) != buf.len() - 4 {
        Err(IpcError::LengthMismatch)
    } else {
        Ok(buf.skip(4))
    }
}

/// Frame a payload; fails exactly when the payload is over the cap.
pub fn encode_ipc_frame(payload: &Vec<u8>) -> (r: Result<Vec<u8>, IpcError>)
    ensures
        match r {
            Ok(frame) => payload@.len() <= IPC_MAX_PAYLOAD
                && frame@ == spec_ipc_frame(payload@),
            Err(e) => payload@.len() > IPC_MAX_PAYLOAD && e == IpcError::Oversized,
        },
{
    if payload.len() > IPC_MAX_PAYLOAD {
        return Err(IpcError::Oversized);
    }
    let mut frame = u32_to_le(payload.len() as u32);
    push_bytes(&mut frame, payload.as_slice());
    assert(frame@ =~= spec_ipc_frame(payload@));
    Ok(frame)
}

/// Unframe a received byte buffer, yielding its payload.
pub fn decode_ipc_frame(buf: &Vec<u8>) -> (r: Result<Vec<u8>, IpcError>)
    ensures
        match r {
            Ok(payload) => spec_ipc_decode(buf@) == Ok::<_, IpcError>(payload@),
            Err(e) => spec_ipc_decode(buf@) == Err::<Seq<u8>, _>(e),
        },
{
    if buf.len() < 4 {
        return Err(IpcError::TooShort);
    }
    let declared: u32 = u32_from_le(buf[0], buf[1], buf[2], buf[3]);
    assert(seq![buf@[0], buf@[1], buf@[2], buf@[3]] =~= buf@.subrange(0, 4));
    if declared as usize > IPC_MAX_PAYLOAD {
        return Err(IpcError::Oversized);
    }
    if !(declared as usize == buf.len() - 4) {
        return Err(IpcError::LengthMismatch);
    }
    let (_, payload) = buf.as_slice().split_at(4);
    assert(payload@ =~= buf@.skip(4));
    Ok(vstd::slice::slice_to_vec(payload))
}

/// Law: unframing a framed payload within the cap yields it back.
pub proof fn lemma_ipc_round_trip(payload: Seq<u8>)
    requires
        payload.len() <= IPC_MAX_PAYLOAD,
    ensures
        spec_ipc_decode(spec_ipc_frame(payload)) == Ok::<_, IpcError>(payload),
{
    let frame = spec_ipc_frame(payload);
    crate::bytes::lemma_u32_le_word(payload.len() as u32);
    assert(frame.subrange(0, 4) =~= spec_u32_le(payload.len() as u32));
    assert(frame.skip(4) =~= payload);
}

} // verus!
