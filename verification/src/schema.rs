//! Wire-level data types shared by the registry protocol, the task
//! directives and the image descriptions: CUDA versions, distribution
//! identities and codenames, with their canonical textual names.

use vstd::prelude::*;
use vstd::string::StringSliceAdditionalSpecFns;
use crate::bytes::bytes_eq_str;

verus! {

/// A CUDA toolkit version.
#[derive(Clone, Copy, PartialEq, Eq, Structural, Debug)]
pub struct CudaVersionV0 {
    pub major: u32,
    pub minor: u32,
}

impl CudaVersionV0 {
    /// The versions with a canonical textual name; every CUDA version that
    /// the parsers accept and the image tables know is one of these.
    pub open spec fn known(self) -> bool {
        (self.major == 6 && self.minor == 5) || (self.major == 7 && (self.minor == 0
            || self.minor == 5)) || (self.major == 8 && self.minor == 0) || (self.major == 9
            && self.minor <= 2) || (self.major == 10 && self.minor <= 1)
    }

    /// Canonical name of a known version, as it appears in an image
    /// description: `v<major>_<minor>`.
    pub fn to_desc_str(&self) -> (r: &'static str)
        requires
            self.known(),
        ensures
            r.spec_bytes() == spec_cuda_desc(*self),
    {
        if self.major == 6 {
            "v6_5"
        } else if self.major == 7 {
            if self.minor == 0 {
                "v7_0"
            } else {
                "v7_5"
            }
        } else if self.major == 8 {
            "v8_0"
        } else if self.major == 9 {
            if self.minor == 0 {
                "v9_0"
            } else if self.minor == 1 {
                "v9_1"
            } else {
                "v9_2"
            }
        } else {
            if self.minor == 0 {
                "v10_0"
            } else {
                "v10_1"
            }
        }
    }
}

/// Canonical name of a known CUDA version, in bytes.
pub open spec fn spec_cuda_desc(v: CudaVersionV0) -> Seq<u8> {
    if v.major == 6 {
        "v6_5".spec_bytes()
    } else if v.major == 7 {
        if v.minor == 0 {
            "v7_0".spec_bytes()
        } else {
            "v7_5".spec_bytes()
        }
    } else if v.major == 8 {
        "v8_0".spec_bytes()
    } else if v.major == 9 {
        if v.minor == 0 {
            "v9_0".spec_bytes()
        } else if v.minor == 1 {
            "v9_1".spec_bytes()
        } else {
            "v9_2".spec_bytes()
        }
    } else {
        if v.minor == 0 {
            "v10_0".spec_bytes()
        } else {
            "v10_1".spec_bytes()
        }
    }
}

/// The CUDA version named by an image-description token, if any.
pub open spec fn spec_cuda_from_desc(s: Seq<u8>) -> Option<CudaVersionV0> {
    if s == "v6_5".spec_bytes() {
        Some(CudaVersionV0 { major: 6, minor: 5 })
    } else if s == "v7_0".spec_bytes() {
        Some(CudaVersionV0 { major: 7, minor: 0 })
    } else if s == "v7_5".spec_bytes() {
        Some(CudaVersionV0 { major: 7, minor: 5 })
    } else if s == "v8_0".spec_bytes() {
        Some(CudaVersionV0 { major: 8, minor: 0 })
    } else if s == "v9_0".spec_bytes() {
        Some(CudaVersionV0 { major: 9, minor: 0 })
    } else if s == "v9_1".spec_bytes() {
        Some(CudaVersionV0 { major: 9, minor: 1 })
    } else if s == "v9_2".spec_bytes() {
        Some(CudaVersionV0 { major: 9, minor: 2 })
    } else if s == "v10_0".spec_bytes() {
        Some(CudaVersionV0 { major: 10, minor: 0 })
    } else if s == "v10_1".spec_bytes() {
        Some(CudaVersionV0 { major: 10, minor: 1 })
    } else {
        None
    }
}

/// Parse an image-description CUDA version token.
pub fn cuda_from_desc(s: &[u8]) -> (r: Option<CudaVersionV0>)
    ensures
        r == spec_cuda_from_desc(s@),
        r matches Some(v) ==> v.known(),
{
    if bytes_eq_str(s, "v6_5") {
        Some(CudaVersionV0 { major: 6, minor: 5 })
    } else if bytes_eq_str(s, "v7_0") {
        Some(CudaVersionV0 { major: 7, minor: 0 })
    } else if bytes_eq_str(s, "v7_5") {
        Some(CudaVersionV0 { major: 7, minor: 5 })
    } else if bytes_eq_str(s, "v8_0") {
        Some(CudaVersionV0 { major: 8, minor: 0 })
    } else if bytes_eq_str(s, "v9_0") {
        Some(CudaVersionV0 { major: 9, minor: 0 })
    } else if bytes_eq_str(s, "v9_1") {
        Some(CudaVersionV0 { major: 9, minor: 1 })
    } else if bytes_eq_str(s, "v9_2") {
        Some(CudaVersionV0 { major: 9, minor: 2 })
    } else if bytes_eq_str(s, "v10_0") {
        Some(CudaVersionV0 { major: 10, minor: 0 })
    } else if bytes_eq_str(s, "v10_1") {
        Some(CudaVersionV0 { major: 10, minor: 1 })
    } else {
        None
    }
}

/// A distribution identity.
#[derive(Clone, Copy, PartialEq, Eq, Structural, Debug)]
pub enum DistroIdV0 {
    Alpine,
    Centos,
    Debian,
    Fedora,
    RedHat,
    Ubuntu,
}

/// Canonical name of a distribution identity, in bytes.
pub open spec fn spec_distro_id_desc(id: DistroIdV0) -> Seq<u8> {
    match id {
        DistroIdV0::Alpine => "alpine".spec_bytes(),
        DistroIdV0::Centos => "centos".spec_bytes(),
        DistroIdV0::Debian => "debian".spec_bytes(),
        DistroIdV0::Fedora => "fedora".spec_bytes(),
        DistroIdV0::RedHat => "redhat".spec_bytes(),
        DistroIdV0::Ubuntu => "ubuntu".spec_bytes(),
    }
}

impl DistroIdV0 {
    pub fn to_desc_str(&self) -> (r: &'static str)
        ensures
            r.spec_bytes() == spec_distro_id_desc(*self),
    {
        match self {
            DistroIdV0::Alpine => "alpine",
            DistroIdV0::Centos => "centos",
            DistroIdV0::Debian => "debian",
            DistroIdV0::Fedora => "fedora",
            DistroIdV0::RedHat => "redhat",
            DistroIdV0::Ubuntu => "ubuntu",
        }
    }
}

/// The distribution identity named by a token, if any.
pub open spec fn spec_distro_id_from_desc(s: Seq<u8>) -> Option<DistroIdV0> {
    if s == "alpine".spec_bytes() {
        Some(DistroIdV0::Alpine)
    } else if s == "centos".spec_bytes() {
        Some(DistroIdV0::Centos)
    } else if s == "debian".spec_bytes() {
        Some(DistroIdV0::Debian)
    } else if s == "fedora".spec_bytes() {
        Some(DistroIdV0::Fedora)
    } else if s == "redhat".spec_bytes() {
        Some(DistroIdV0::RedHat)
    } else if s == "ubuntu".spec_bytes() {
        Some(DistroIdV0::Ubuntu)
    } else {
        None
    }
}

pub fn distro_id_from_desc(s: &[u8]) -> (r: Option<DistroIdV0>)
    ensures
        r == spec_distro_id_from_desc(s@),
{
    if bytes_eq_str(s, "alpine") {
        Some(DistroIdV0::Alpine)
    } else if bytes_eq_str(s, "centos") {
        Some(DistroIdV0::Centos)
    } else if bytes_eq_str(s, "debian") {
        Some(DistroIdV0::Debian)
    } else if bytes_eq_str(s, "fedora") {
        Some(DistroIdV0::Fedora)
    } else if bytes_eq_str(s, "redhat") {
        Some(DistroIdV0::RedHat)
    } else if bytes_eq_str(s, "ubuntu") {
        Some(DistroIdV0::Ubuntu)
    } else {
        None
    }
}

/// A distribution release codename.
#[derive(Clone, Copy, PartialEq, Eq, Structural, Debug)]
pub enum DistroCodenameV0 {
    Alpine3_8,
    Alpine3_9,
    Centos6,
    Centos7,
    DebianWheezy,
    DebianJessie,
    DebianStretch,
    DebianBuster,
    UbuntuTrusty,
    UbuntuXenial,
    UbuntuBionic,
}

/// Canonical name of a codename, in bytes.
pub open spec fn spec_codename_desc(c: DistroCodenameV0) -> Seq<u8> {
    match c {
        DistroCodenameV0::Alpine3_8 => "alpine_3_8".spec_bytes(),
        DistroCodenameV0::Alpine3_9 => "alpine_3_9".spec_bytes(),
        DistroCodenameV0::Centos6 => "centos_6".spec_bytes(),
        DistroCodenameV0::Centos7 => "centos_7".spec_bytes(),
        DistroCodenameV0::DebianWheezy => "debian_wheezy".spec_bytes(),
        DistroCodenameV0::DebianJessie => "debian_jessie".spec_bytes(),
        DistroCodenameV0::DebianStretch => "debian_stretch".spec_bytes(),
        DistroCodenameV0::DebianBuster => "debian_buster".spec_bytes(),
        DistroCodenameV0::UbuntuTrusty => "ubuntu_trusty".spec_bytes(),
        DistroCodenameV0::UbuntuXenial => "ubuntu_xenial".spec_bytes(),
        DistroCodenameV0::UbuntuBionic => "ubuntu_bionic".spec_bytes(),
    }
}

/// The identity that a codename belongs to.
pub open spec fn spec_codename_id(c: DistroCodenameV0) -> DistroIdV0 {
    match c {
        DistroCodenameV0::Alpine3_8 | DistroCodenameV0::Alpine3_9 => DistroIdV0::Alpine,
        DistroCodenameV0::Centos6 | DistroCodenameV0::Centos7 => DistroIdV0::Centos,
        DistroCodenameV0::DebianWheezy | DistroCodenameV0::DebianJessie
            | DistroCodenameV0::DebianStretch | DistroCodenameV0::DebianBuster
            => DistroIdV0::Debian,
        DistroCodenameV0::UbuntuTrusty | DistroCodenameV0::UbuntuXenial
            | DistroCodenameV0::UbuntuBionic => DistroIdV0::Ubuntu,
    }
}

impl DistroCodenameV0 {
    pub fn to_desc_str(&self) -> (r: &'static str)
        ensures
            r.spec_bytes() == spec_codename_desc(*self),
    {
        match self {
            DistroCodenameV0::Alpine3_8 => "alpine_3_8",
            DistroCodenameV0::Alpine3_9 => "alpine_3_9",
            DistroCodenameV0::Centos6 => "centos_6",
            DistroCodenameV0::Centos7 => "centos_7",
            DistroCodenameV0::DebianWheezy => "debian_wheezy",
            DistroCodenameV0::DebianJessie => "debian_jessie",
            DistroCodenameV0::DebianStretch => "debian_stretch",
            DistroCodenameV0::DebianBuster => "debian_buster",
            DistroCodenameV0::UbuntuTrusty => "ubuntu_trusty",
            DistroCodenameV0::UbuntuXenial => "ubuntu_xenial",
            DistroCodenameV0::UbuntuBionic => "ubuntu_bionic",
        }
    }

    /// The identity that this codename belongs to.
    pub fn to_id(&self) -> (r: DistroIdV0)
        ensures
            r == spec_codename_id(*self),
    {
        match self {
            DistroCodenameV0::Alpine3_8 | DistroCodenameV0::Alpine3_9 => DistroIdV0::Alpine,
            DistroCodenameV0::Centos6 | DistroCodenameV0::Centos7 => DistroIdV0::Centos,
            DistroCodenameV0::DebianWheezy | DistroCodenameV0::DebianJessie
                | DistroCodenameV0::DebianStretch | DistroCodenameV0::DebianBuster
                => DistroIdV0::Debian,
            DistroCodenameV0::UbuntuTrusty | DistroCodenameV0::UbuntuXenial
                | DistroCodenameV0::UbuntuBionic => DistroIdV0::Ubuntu,
        }
    }
}

/// The codename named by an image-description token, if any.
pub open spec fn spec_codename_from_desc(s: Seq<u8>) -> Option<DistroCodenameV0> {
    if s == "alpine_3_8".spec_bytes() {
        Some(DistroCodenameV0::Alpine3_8)
    } else if s == "alpine_3_9".spec_bytes() {
        Some(DistroCodenameV0::Alpine3_9)
    } else if s == "centos_6".spec_bytes() {
        Some(DistroCodenameV0::Centos6)
    } else if s == "centos_7".spec_bytes() {
        Some(DistroCodenameV0::Centos7)
    } else if s == "debian_wheezy".spec_bytes() {
        Some(DistroCodenameV0::DebianWheezy)
    } else if s == "debian_jessie".spec_bytes() {
        Some(DistroCodenameV0::DebianJessie)
    } else if s == "debian_stretch".spec_bytes() {
        Some(DistroCodenameV0::DebianStretch)
    } else if s == "debian_buster".spec_bytes() {
        Some(DistroCodenameV0::DebianBuster)
    } else if s == "ubuntu_trusty".spec_bytes() {
        Some(DistroCodenameV0::UbuntuTrusty)
    } else if s == "ubuntu_xenial".spec_bytes() {
        Some(DistroCodenameV0::UbuntuXenial)
    } else if s == "ubuntu_bionic".spec_bytes() {
        Some(DistroCodenameV0::UbuntuBionic)
    } else {
        None
    }
}

/// A local device declared in the machine configuration.
#[derive(Debug)]
pub enum LocalDeviceV0 {
    PciSlot(String),
}

/// The local machine's declared capabilities.
#[derive(Debug)]
pub struct LocalMachineV0 {
    pub task_workers: u32,
    pub gpus: Vec<LocalDeviceV0>,
}

/// Declared local capabilities, supplied to the registry only during
/// registration.
#[derive(Debug)]
pub struct MachineConfigV0 {
    pub local_machine: LocalMachineV0,
}

/// A CPU architecture.
#[derive(Clone, Copy, PartialEq, Eq, Structural, Debug)]
pub enum CpuArchV0 {
    I386,
    I686,
    Ppc64Le,
    X86_64,
}

#[derive(Clone, Copy, PartialEq, Eq, Structural, Debug)]
pub struct CpuInfoV0 {
    pub arch: CpuArchV0,
    pub num_cpus: u64,
}

#[derive(Clone, Copy, PartialEq, Eq, Structural, Debug)]
pub struct DistroInfoV0 {
    pub id: DistroIdV0,
    pub codename: Option<DistroCodenameV0>,
}

#[derive(Clone, Copy, PartialEq, Eq, Structural, Debug)]
pub struct DriverVersionV0 {
    pub major: u32,
    pub minor: u32,
}

#[derive(Clone, Copy, PartialEq, Eq, Structural, Debug)]
pub struct GpuInfoV0 {
    pub driver_version: Option<DriverVersionV0>,
    pub driver_cuda_version: Option<CudaVersionV0>,
    pub toolkit_cuda_version: Option<CudaVersionV0>,
}

/// A PCI slot address.
#[derive(Clone, Copy, PartialEq, Eq, Structural, Debug)]
pub struct PciSlotV0 {
    pub domain: Option<u32>,
    pub bus: u8,
    pub device: u8,
    pub function: u8,
}

/// One record of the PCI device scan.
#[derive(Clone, Copy, PartialEq, Eq, Structural, Debug)]
pub struct PciRecordV0 {
    pub slot: PciSlotV0,
    pub class: u16,
    pub vendor: u16,
    pub device: u16,
    pub svendor: Option<u16>,
    pub sdevice: Option<u16>,
    pub rev: Option<u8>,
}

#[derive(Debug)]
pub struct GpusV0 {
    pub pci_records: Vec<PciRecordV0>,
}

/// The machine's system snapshot, gathered outside and carried through to
/// registration.
#[derive(Debug)]
pub struct SystemSetupV0 {
    pub cpu_info: CpuInfoV0,
    pub distro_info: DistroInfoV0,
    pub gpu_info: GpuInfoV0,
    pub gpus: GpusV0,
}

/// The registry's reply to a repository registration: the webhook the
/// repository owner must install.
#[derive(Debug)]
pub struct RegisterCiRepoV0 {
    pub repo_web_url: String,
    pub webhook_payload_url: String,
    pub webhook_settings_url: Option<String>,
    pub webhook_secret: String,
}

/// The agent's answer to a CI run request.
#[derive(Debug)]
pub enum _NewCiRunV0 {
    Accept {
        api_key: Vec<u8>,
        ci_run_key: Vec<u8>,
        task_count: Option<u64>,
        failed_early: bool,
        ts: Option<String>,
    },
}

/// Messages the agent sends to the registry over the signed channel.
#[derive(Debug)]
pub enum Bot2RegistryV0 {
    Auth {
        api_key: Vec<u8>,
    },
    RegisterCiMachine {
        api_key: Vec<u8>,
        machine_key: Vec<u8>,
        repo_url: String,
    },
    RegisterCiRepo {
        api_key: Vec<u8>,
        group_key: Option<Vec<u8>>,
        repo_url: String,
    },
    RegisterMachine {
        api_key: Vec<u8>,
        machine_key: Vec<u8>,
        system_setup: SystemSetupV0,
        machine_cfg: MachineConfigV0,
    },
    _Ping {
        api_key: Vec<u8>,
        machine_key: Vec<u8>,
    },
    _StartCiTask {
        api_key: Vec<u8>,
        machine_key: Vec<u8>,
        ci_run_key: Vec<u8>,
        task_nr: u64,
        task_name: Option<Vec<u8>>,
        taskspec: Option<Vec<u8>>,
        ts: Option<String>,
    },
    _AppendCiTaskData {
        api_key: Vec<u8>,
        ci_run_key: Vec<u8>,
        task_nr: u64,
        part_nr: u64,
        ts: Option<String>,
        key: String,
        data: Vec<u8>,
    },
    _DoneCiTask {
        api_key: Vec<u8>,
        ci_run_key: Vec<u8>,
        task_nr: u64,
        failed: bool,
        ts: Option<String>,
    },
    _NewCiRun(Option<_NewCiRunV0>),
}

/// Messages the registry sends to the agent over the signed channel.
#[derive(Debug)]
pub enum Registry2BotV0 {
    _Pong,
    _NewCiRun {
        api_key: Vec<u8>,
        ci_run_key: Vec<u8>,
        repo_clone_url: String,
        originator: Option<String>,
        ref_full: Option<String>,
        commit_hash: Option<Vec<u8>>,
        runspec: Option<Vec<u8>>,
    },
    _StartCiTask(Option<()>),
    _AppendCiTaskData(Option<()>),
    _DoneCiTask(Option<()>),
    Auth(Option<()>),
    RegisterCiMachine(Option<()>),
    RegisterCiRepo(Option<RegisterCiRepoV0>),
    RegisterMachine(Option<()>),
}

pub fn codename_from_desc(s: &[u8]) -> (r: Option<DistroCodenameV0>)
    ensures
        r == spec_codename_from_desc(s@),
{
    if bytes_eq_str(s, "alpine_3_8") {
        Some(DistroCodenameV0::Alpine3_8)
    } else if bytes_eq_str(s, "alpine_3_9") {
        Some(DistroCodenameV0::Alpine3_9)
    } else if bytes_eq_str(s, "centos_6") {
        Some(DistroCodenameV0::Centos6)
    } else if bytes_eq_str(s, "centos_7") {
        Some(DistroCodenameV0::Centos7)
    } else if bytes_eq_str(s, "debian_wheezy") {
        Some(DistroCodenameV0::DebianWheezy)
    } else if bytes_eq_str(s, "debian_jessie") {
        Some(DistroCodenameV0::DebianJessie)
    } else if bytes_eq_str(s, "debian_stretch") {
        Some(DistroCodenameV0::DebianStretch)
    } else if bytes_eq_str(s, "debian_buster") {
        Some(DistroCodenameV0::DebianBuster)
    } else if bytes_eq_str(s, "ubuntu_trusty") {
        Some(DistroCodenameV0::UbuntuTrusty)
    } else if bytes_eq_str(s, "ubuntu_xenial") {
        Some(DistroCodenameV0::UbuntuXenial)
    } else if bytes_eq_str(s, "ubuntu_bionic") {
        Some(DistroCodenameV0::UbuntuBionic)
    } else {
        None
    }
}

} // verus!
