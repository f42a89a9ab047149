//! Persistent agent state: toolchain identities, image descriptors with
//! their canonical descriptions and keyed content hashes, the image
//! manifest, and the root manifest holding the per-machine secret key and
//! the durable authentication and registration bits.

use vstd::prelude::*;
use vstd::string::StringSliceAdditionalSpecFns;
use crate::bytes::{bytes_eq_str, push_str_bytes};
use crate::crypto::{KEY_LEN, generic_hash, spec_generic_hash};
use crate::schema::{CudaVersionV0, DistroCodenameV0, DistroIdV0, spec_codename_desc,
    spec_cuda_desc, spec_distro_id_desc};

verus! {

/// A build toolchain identity.
#[derive(Clone, Copy, PartialEq, Eq, Structural, Debug)]
pub enum Toolchain {
    Builtin,
    Default,
    Python2,
    Python3,
    RustNightly,
}

/// Canonical name of a toolchain, in bytes.
pub open spec fn spec_toolchain_desc(t: Toolchain) -> Seq<u8> {
    match t {
        Toolchain::Builtin => "_builtin".spec_bytes(),
        Toolchain::Default => "default".spec_bytes(),
        Toolchain::Python2 => "python2".spec_bytes(),
        Toolchain::Python3 => "python3".spec_bytes(),
        Toolchain::RustNightly => "rust_nightly".spec_bytes(),
    }
}

/// The toolchain named by a token, if any.
pub open spec fn spec_toolchain_from_desc(s: Seq<u8>) -> Option<Toolchain> {
    if s == "_builtin".spec_bytes() {
        Some(Toolchain::Builtin)
    } else if s == "default".spec_bytes() {
        Some(Toolchain::Default)
    } else if s == "python2".spec_bytes() {
        Some(Toolchain::Python2)
    } else if s == "python3".spec_bytes() {
        Some(Toolchain::Python3)
    } else if s == "rust_nightly".spec_bytes() {
        Some(Toolchain::RustNightly)
    } else {
        None
    }
}

/// As `spec_toolchain_from_desc`, with the builtin toolchain excluded.
pub open spec fn spec_toolchain_from_desc_no_builtin(s: Seq<u8>) -> Option<Toolchain> {
    match spec_toolchain_from_desc(s) {
        Some(Toolchain::Builtin) | None => None,
        Some(t) => Some(t),
    }
}

/// Parse a toolchain token, accepting every named toolchain.
pub fn toolchain_from_desc_bytes(s: &[u8]) -> (r: Option<Toolchain>)
    ensures
        r == spec_toolchain_from_desc(s@),
{
    if bytes_eq_str(s, "_builtin") {
        Some(Toolchain::Builtin)
    } else if bytes_eq_str(s, "default") {
        Some(Toolchain::Default)
    } else if bytes_eq_str(s, "python2") {
        Some(Toolchain::Python2)
    } else if bytes_eq_str(s, "python3") {
        Some(Toolchain::Python3)
    } else if bytes_eq_str(s, "rust_nightly") {
        Some(Toolchain::RustNightly)
    } else {
        None
    }
}

/// Parse a toolchain token, rejecting the builtin toolchain.
pub fn toolchain_from_desc_bytes_no_builtin(s: &[u8]) -> (r: Option<Toolchain>)
    ensures
        r == spec_toolchain_from_desc_no_builtin(s@),
{
    match toolchain_from_desc_bytes(s) {
        Some(Toolchain::Builtin) | None => None,
        Some(t) => Some(t),
    }
}

impl Toolchain {
    /// Parse a toolchain name, accepting every named toolchain but no
    /// custom one.
    pub fn from_desc_str_nocustom(s: &str) -> (r: Option<Toolchain>)
        ensures
            r == spec_toolchain_from_desc(s.spec_bytes()),
    {
        toolchain_from_desc_bytes(s.as_bytes())
    }

    /// Parse a toolchain name, rejecting the builtin toolchain as well.
    pub fn from_desc_str_no_builtin(s: &str) -> (r: Option<Toolchain>)
        ensures
            r == spec_toolchain_from_desc_no_builtin(s.spec_bytes()),
    {
        toolchain_from_desc_bytes_no_builtin(s.as_bytes())
    }

    pub fn to_desc_str(&self) -> (r: &'static str)
        ensures
            r.spec_bytes() == spec_toolchain_desc(*self),
    {
        match self {
            Toolchain::Builtin => "_builtin",
            Toolchain::Default => "default",
            Toolchain::Python2 => "python2",
            Toolchain::Python3 => "python3",
            Toolchain::RustNightly => "rust_nightly",
        }
    }

    /// The canonical name as an owned string.
    pub fn to_desc_string(&self) -> (r: String)
        ensures
            vstd::utf8::encode_utf8(r@) == spec_toolchain_desc(*self),
    {
        self.to_desc_str().to_owned()
    }
}

// ---------------------------------------------------------------------------
// Image descriptors
// ---------------------------------------------------------------------------

/// A value-typed descriptor of a container execution environment.  Two
/// descriptors are equal exactly when every field is equal; the canonical
/// description and the keyed content hash derive from the fields alone.
#[derive(Clone, Copy, Debug)]
pub struct ImageSpec {
    pub cuda: Option<CudaVersionV0>,
    pub distro_codename: DistroCodenameV0,
    pub distro_id: DistroIdV0,
    pub docker: bool,
    pub nvidia_docker: bool,
    pub toolchain: Option<Toolchain>,
}

impl ImageSpec {
    /// Every CUDA version a descriptor carries has a canonical name.
    pub open spec fn wf(self) -> bool {
        self.cuda matches Some(v) ==> v.known()
    }

    /// The descriptor of the built-in bootstrap image, used to run
    /// checkouts and the directive interpreter.
    pub fn builtin_default() -> (r: ImageSpec)
        ensures
            r == spec_builtin_default(),
    {
        ImageSpec {
            cuda: None,
            distro_codename: DistroCodenameV0::Alpine3_8,
            distro_id: DistroIdV0::Alpine,
            docker: true,
            nvidia_docker: false,
            toolchain: Some(Toolchain::Builtin),
        }
    }

    /// Field-wise equality.
    pub fn same(&self, other: &ImageSpec) -> (r: bool)
        ensures
            r == (*self == *other),
    {
        let cuda_eq = match (self.cuda, other.cuda) {
            (None, None) => true,
            (Some(a), Some(b)) => a == b,
            _ => false,
        };
        let toolchain_eq = match (self.toolchain, other.toolchain) {
            (None, None) => true,
            (Some(a), Some(b)) => a == b,
            _ => false,
        };
        cuda_eq && toolchain_eq && self.distro_codename == other.distro_codename
            && self.distro_id == other.distro_id && self.docker == other.docker
            && self.nvidia_docker == other.nvidia_docker
    }

    /// The canonical description: the fields in a fixed order, each token
    /// preceded by one space.
    pub fn to_desc(&self) -> (r: Vec<u8>)
        requires
            self.wf(),
        ensures
            r@ == spec_desc(*self),
    {
        let mut buf: Vec<u8> = Vec::new();
        match self.cuda {
            Some(v) => {
                push_str_bytes(&mut buf, " cuda=");
                push_str_bytes(&mut buf, v.to_desc_str());
            }
            None => {}
        }
        push_str_bytes(&mut buf, " distro_codename=");
        push_str_bytes(&mut buf, self.distro_codename.to_desc_str());
        push_str_bytes(&mut buf, " distro_id=");
        push_str_bytes(&mut buf, self.distro_id.to_desc_str());
        if self.docker {
            push_str_bytes(&mut buf, " docker");
        }
        if self.nvidia_docker {
            push_str_bytes(&mut buf, " nvidia_docker");
        }
        match self.toolchain {
            Some(t) => {
                push_str_bytes(&mut buf, " toolchain=");
                push_str_bytes(&mut buf, t.to_desc_str());
            }
            None => {}
        }
        proof {
            assert(buf@ =~= spec_desc(*self));
        }
        buf
    }

    /// The keyed content hash of the canonical description under the root
    /// manifest's secret key: the stable external identity of the image.
    pub fn to_hash(&self, root_manifest: &RootManifest) -> (r: Vec<u8>)
        requires
            self.wf(),
            root_manifest.wf(),
        ensures
            r@ == spec_image_hash(root_manifest.key(), *self),
            r@.len() == KEY_LEN,
    {
        let desc = self.to_desc();
        generic_hash(root_manifest.key_buf().as_slice(), desc.as_slice())
    }

    /// The content hash in lower-case hexadecimal.
    pub fn to_hash_digest(&self, root_manifest: &RootManifest) -> (r: String)
        requires
            self.wf(),
            root_manifest.wf(),
        ensures
            r@ == spec_image_digest(root_manifest.key(), *self),
    {
        let hash_buf = self.to_hash(root_manifest);
        crate::bytes::hex_string(hash_buf.as_slice())
    }

    fn to_nvidia_docker_base_image(&self) -> (r: Option<&'static str>)
        ensures
            match r {
                Some(s) => spec_nvidia_base_image(self.distro_codename, self.cuda)
                    == Some(s@),
                None => spec_nvidia_base_image(self.distro_codename, self.cuda) is None,
            },
    {
        match self.distro_codename {
            DistroCodenameV0::Centos6 => match self.cuda {
                Some(v) => if v.major == 7 && v.minor == 0 {
                    Some("nvidia/cuda:7.0-devel-centos6")
                } else if v.major == 7 && v.minor == 5 {
                    Some("nvidia/cuda:7.5-devel-centos6")
                } else if v.major == 8 && v.minor == 0 {
                    Some("nvidia/cuda:8.0-devel-centos6")
                } else if v.major == 9 && v.minor == 0 {
                    Some("nvidia/cuda:9.0-devel-centos6")
                } else if v.major == 9 && v.minor == 1 {
                    Some("nvidia/cuda:9.1-devel-centos6")
                } else if v.major == 9 && v.minor == 2 {
                    Some("nvidia/cuda:9.2-devel-centos6")
                } else if v.major == 10 && v.minor == 0 {
                    Some("nvidia/cuda:10.0-devel-centos6")
                } else if v.major == 10 && v.minor == 1 {
                    Some("nvidia/cuda:10.1-devel-centos6")
                } else {
                    None
                },
                None => None,
            },
            DistroCodenameV0::Centos7 => match self.cuda {
                Some(v) => if v.major == 7 && v.minor == 0 {
                    Some("nvidia/cuda:7.0-devel-centos7")
                } else if v.major == 7 && v.minor == 5 {
                    Some("nvidia/cuda:7.5-devel-centos7")
                } else if v.major == 8 && v.minor == 0 {
                    Some("nvidia/cuda:8.0-devel-centos7")
                } else if v.major == 9 && v.minor == 0 {
                    Some("nvidia/cuda:9.0-devel-centos7")
                } else if v.major == 9 && v.minor == 1 {
                    Some("nvidia/cuda:9.1-devel-centos7")
                } else if v.major == 9 && v.minor == 2 {
                    Some("nvidia/cuda:9.2-devel-centos7")
                } else if v.major == 10 && v.minor == 0 {
                    Some("nvidia/cuda:10.0-devel-centos7")
                } else if v.major == 10 && v.minor == 1 {
                    Some("nvidia/cuda:10.1-devel-centos7")
                } else {
                    None
                },
                None => Some("nvidia/driver:396.37-centos7"),
            },
            DistroCodenameV0::UbuntuTrusty => match self.cuda {
                Some(v) => if v.major == 6 && v.minor == 5 {
                    Some("nvidia/cuda:6.5-devel-ubuntu14.04")
                } else if v.major == 7 && v.minor == 0 {
                    Some("nvidia/cuda:7.0-devel-ubuntu14.04")
                } else if v.major == 7 && v.minor == 5 {
                    Some("nvidia/cuda:7.5-devel-ubuntu14.04")
                } else if v.major == 8 && v.minor == 0 {
                    Some("nvidia/cuda:8.0-devel-ubuntu14.04")
                } else {
                    None
                },
                None => None,
            },
            DistroCodenameV0::UbuntuXenial => match self.cuda {
                Some(v) => if v.major == 8 && v.minor == 0 {
                    Some("nvidia/cuda:8.0-devel-ubuntu16.04")
                } else if v.major == 9 && v.minor == 0 {
                    Some("nvidia/cuda:9.0-devel-ubuntu16.04")
                } else if v.major == 9 && v.minor == 1 {
                    Some("nvidia/cuda:9.1-devel-ubuntu16.04")
                } else if v.major == 9 && v.minor == 2 {
                    Some("nvidia/cuda:9.2-devel-ubuntu16.04")
                } else if v.major == 10 && v.minor == 0 {
                    Some("nvidia/cuda:10.0-devel-ubuntu16.04")
                } else if v.major == 10 && v.minor == 1 {
                    Some("nvidia/cuda:10.1-devel-ubuntu16.04")
                } else {
                    None
                },
                None => Some("nvidia/driver:396.37-ubuntu16.04"),
            },
            DistroCodenameV0::UbuntuBionic => match self.cuda {
                Some(v) => if v.major == 9 && v.minor == 2 {
                    Some("nvidia/cuda:9.2-devel-ubuntu18.04")
                } else if v.major == 10 && v.minor == 0 {
                    Some("nvidia/cuda:10.0-devel-ubuntu18.04")
                } else if v.major == 10 && v.minor == 1 {
                    Some("nvidia/cuda:10.1-devel-ubuntu18.04")
                } else {
                    None
                },
                None => None,
            },
            _ => None,
        }
    }

    fn to_distro_docker_base_image(&self) -> (r: Option<&'static str>)
        ensures
            match r {
                Some(s) => spec_distro_base_image(self.distro_codename) == Some(s@),
                None => spec_distro_base_image(self.distro_codename) is None,
            },
    {
        match self.distro_codename {
            DistroCodenameV0::Alpine3_8 => Some("alpine:3.8"),
            DistroCodenameV0::Alpine3_9 => Some("alpine:3.9"),
            DistroCodenameV0::Centos6 => Some("centos:centos6"),
            DistroCodenameV0::Centos7 => Some("centos:centos7"),
            DistroCodenameV0::DebianWheezy => Some("debian:wheezy"),
            DistroCodenameV0::DebianJessie => Some("debian:jessie"),
            DistroCodenameV0::DebianStretch => Some("debian:stretch"),
            DistroCodenameV0::DebianBuster => Some("debian:buster"),
            DistroCodenameV0::UbuntuTrusty => Some("ubuntu:14.04"),
            DistroCodenameV0::UbuntuXenial => Some("ubuntu:16.04"),
            DistroCodenameV0::UbuntuBionic => Some("ubuntu:18.04"),
        }
    }

    /// The container base image to build this descriptor on, chosen by a
    /// fixed lookup table; `None` when the combination is unsupported.
    pub fn to_docker_base_image(&self) -> (r: Option<String>)
        ensures
            match r {
                Some(s) => spec_base_image(*self) == Some(s@),
                None => spec_base_image(*self) is None,
            },
    {
        if self.nvidia_docker {
            match self.to_nvidia_docker_base_image() {
                Some(s) => Some(s.to_owned()),
                None => None,
            }
        } else {
            if self.cuda.is_some() {
                return None;
            }
            match self.to_distro_docker_base_image() {
                Some(s) => Some(s.to_owned()),
                None => None,
            }
        }
    }
}

/// The descriptor of the built-in bootstrap image.
pub open spec fn spec_builtin_default() -> ImageSpec {
    ImageSpec {
        cuda: None,
        distro_codename: DistroCodenameV0::Alpine3_8,
        distro_id: DistroIdV0::Alpine,
        docker: true,
        nvidia_docker: false,
        toolchain: Some(Toolchain::Builtin),
    }
}

/// The canonical description of a descriptor, in bytes.
pub open spec fn spec_desc(s: ImageSpec) -> Seq<u8> {
    (match s.cuda {
        Some(v) => " cuda=".spec_bytes() + spec_cuda_desc(v),
        None => Seq::empty(),
    }) + " distro_codename=".spec_bytes() + spec_codename_desc(s.distro_codename)
        + " distro_id=".spec_bytes() + spec_distro_id_desc(s.distro_id) + (if s.docker {
        " docker".spec_bytes()
    } else {
        Seq::empty()
    }) + (if s.nvidia_docker {
        " nvidia_docker".spec_bytes()
    } else {
        Seq::empty()
    }) + (match s.toolchain {
        Some(t) => " toolchain=".spec_bytes() + spec_toolchain_desc(t),
        None => Seq::empty(),
    })
}

/// The keyed content hash of a descriptor under a key.
pub open spec fn spec_image_hash(key: Seq<u8>, s: ImageSpec) -> Seq<u8> {
    spec_generic_hash(key, spec_desc(s))
}

/// The content hash in lower-case hexadecimal.
pub open spec fn spec_image_digest(key: Seq<u8>, s: ImageSpec) -> Seq<char> {
    crate::bytes::spec_hex(spec_image_hash(key, s))
}

/// The nvidia-docker base image table.
pub open spec fn spec_nvidia_base_image(c: DistroCodenameV0, cuda: Option<CudaVersionV0>)
    -> Option<Seq<char>> {
    match c {
        DistroCodenameV0::Centos6 => match cuda {
            Some(v) => if v.major == 7 && v.minor == 0 {
                Some("nvidia/cuda:7.0-devel-centos6"@)
            } else if v.major == 7 && v.minor == 5 {
                Some("nvidia/cuda:7.5-devel-centos6"@)
            } else if v.major == 8 && v.minor == 0 {
                Some("nvidia/cuda:8.0-devel-centos6"@)
            } else if v.major == 9 && v.minor == 0 {
                Some("nvidia/cuda:9.0-devel-centos6"@)
            } else if v.major == 9 && v.minor == 1 {
                Some("nvidia/cuda:9.1-devel-centos6"@)
            } else if v.major == 9 && v.minor == 2 {
                Some("nvidia/cuda:9.2-devel-centos6"@)
            } else if v.major == 10 && v.minor == 0 {
                Some("nvidia/cuda:10.0-devel-centos6"@)
            } else if v.major == 10 && v.minor == 1 {
                Some("nvidia/cuda:10.1-devel-centos6"@)
            } else {
                None
            },
            None => None,
        },
        DistroCodenameV0::Centos7 => match cuda {
            Some(v) => if v.major == 7 && v.minor == 0 {
                Some("nvidia/cuda:7.0-devel-centos7"@)
            } else if v.major == 7 && v.minor == 5 {
                Some("nvidia/cuda:7.5-devel-centos7"@)
            } else if v.major == 8 && v.minor == 0 {
                Some("nvidia/cuda:8.0-devel-centos7"@)
            } else if v.major == 9 && v.minor == 0 {
                Some("nvidia/cuda:9.0-devel-centos7"@)
            } else if v.major == 9 && v.minor == 1 {
                Some("nvidia/cuda:9.1-devel-centos7"@)
            } else if v.major == 9 && v.minor == 2 {
                Some("nvidia/cuda:9.2-devel-centos7"@)
            } else if v.major == 10 && v.minor == 0 {
                Some("nvidia/cuda:10.0-devel-centos7"@)
            } else if v.major == 10 && v.minor == 1 {
                Some("nvidia/cuda:10.1-devel-centos7"@)
            } else {
                None
            },
            None => Some("nvidia/driver:396.37-centos7"@),
        },
        DistroCodenameV0::UbuntuTrusty => match cuda {
            Some(v) => if v.major == 6 && v.minor == 5 {
                Some("nvidia/cuda:6.5-devel-ubuntu14.04"@)
            } else if v.major == 7 && v.minor == 0 {
                Some("nvidia/cuda:7.0-devel-ubuntu14.04"@)
            } else if v.major == 7 && v.minor == 5 {
                Some("nvidia/cuda:7.5-devel-ubuntu14.04"@)
            } else if v.major == 8 && v.minor == 0 {
                Some("nvidia/cuda:8.0-devel-ubuntu14.04"@)
            } else {
                None
            },
            None => None,
        },
        DistroCodenameV0::UbuntuXenial => match cuda {
            Some(v) => if v.major == 8 && v.minor == 0 {
                Some("nvidia/cuda:8.0-devel-ubuntu16.04"@)
            } else if v.major == 9 && v.minor == 0 {
                Some("nvidia/cuda:9.0-devel-ubuntu16.04"@)
            } else if v.major == 9 && v.minor == 1 {
                Some("nvidia/cuda:9.1-devel-ubuntu16.04"@)
            } else if v.major == 9 && v.minor == 2 {
                Some("nvidia/cuda:9.2-devel-ubuntu16.04"@)
            } else if v.major == 10 && v.minor == 0 {
                Some("nvidia/cuda:10.0-devel-ubuntu16.04"@)
            } else if v.major == 10 && v.minor == 1 {
                Some("nvidia/cuda:10.1-devel-ubuntu16.04"@)
            } else {
                None
            },
            None => Some("nvidia/driver:396.37-ubuntu16.04"@),
        },
        DistroCodenameV0::UbuntuBionic => match cuda {
            Some(v) => if v.major == 9 && v.minor == 2 {
                Some("nvidia/cuda:9.2-devel-ubuntu18.04"@)
            } else if v.major == 10 && v.minor == 0 {
                Some("nvidia/cuda:10.0-devel-ubuntu18.04"@)
            } else if v.major == 10 && v.minor == 1 {
                Some("nvidia/cuda:10.1-devel-ubuntu18.04"@)
            } else {
                None
            },
            None => None,
        },
        _ => None,
    }
}

/// The plain distribution base image table.
pub open spec fn spec_distro_base_image(c: DistroCodenameV0) -> Option<Seq<char>> {
    match c {
        DistroCodenameV0::Alpine3_8 => Some("alpine:3.8"@),
        DistroCodenameV0::Alpine3_9 => Some("alpine:3.9"@),
        DistroCodenameV0::Centos6 => Some("centos:centos6"@),
        DistroCodenameV0::Centos7 => Some("centos:centos7"@),
        DistroCodenameV0::DebianWheezy => Some("debian:wheezy"@),
        DistroCodenameV0::DebianJessie => Some("debian:jessie"@),
        DistroCodenameV0::DebianStretch => Some("debian:stretch"@),
        DistroCodenameV0::DebianBuster => Some("debian:buster"@),
        DistroCodenameV0::UbuntuTrusty => Some("ubuntu:14.04"@),
        DistroCodenameV0::UbuntuXenial => Some("ubuntu:16.04"@),
        DistroCodenameV0::UbuntuBionic => Some("ubuntu:18.04"@),
    }
}

/// The base image of a descriptor: the nvidia table when nvidia-docker is
/// required, else the plain table — but a CUDA requirement without
/// nvidia-docker has no base image.
pub open spec fn spec_base_image(s: ImageSpec) -> Option<Seq<char>> {
    if s.nvidia_docker {
        spec_nvidia_base_image(s.distro_codename, s.cuda)
    } else if s.cuda is Some {
        None
    } else {
        spec_distro_base_image(s.distro_codename)
    }
}

// ---------------------------------------------------------------------------
// The image manifest
// ---------------------------------------------------------------------------

/// Why an image manifest was rejected.  The manifest is self-verifying: a
/// rejected manifest is discarded whole and the cache starts empty.
#[derive(Clone, Copy, PartialEq, Eq, Structural, Debug)]
pub enum ManifestError {
    /// A line without a leading hash token.
    MissingHash,
    /// A hash token that is not hexadecimal.
    HashDecode,
    /// A hash of the wrong length.
    HashLength,
    /// An unknown field token.
    BadEntry,
    /// A line without a distribution codename.
    MissingDistroCodename,
    /// A line without a distribution identity.
    MissingDistroId,
    /// A line whose hash does not match its description under this
    /// machine's key.
    HashMismatch,
}

/// An image descriptor under construction while a manifest line is read.
#[derive(Clone, Copy, Debug)]
pub struct ImageSpecBuilder {
    pub cuda: Option<CudaVersionV0>,
    pub distro_codename: Option<DistroCodenameV0>,
    pub distro_id: Option<DistroIdV0>,
    pub docker: bool,
    pub nvidia_docker: bool,
    pub toolchain: Option<Toolchain>,
}

/// A fresh line builder: everything unset.
pub open spec fn spec_empty_imagespec_builder() -> ImageSpecBuilder {
    ImageSpecBuilder {
        cuda: None,
        distro_codename: None,
        distro_id: None,
        docker: false,
        nvidia_docker: false,
        toolchain: None,
    }
}

impl ImageSpecBuilder {
    pub fn new() -> (r: ImageSpecBuilder)
        ensures
            r == spec_empty_imagespec_builder(),
    {
        ImageSpecBuilder {
            cuda: None,
            distro_codename: None,
            distro_id: None,
            docker: false,
            nvidia_docker: false,
            toolchain: None,
        }
    }

    /// Close the builder into a descriptor; the codename and the identity
    /// are mandatory.
    pub fn into_imagespec(self) -> (r: Result<ImageSpec, ManifestError>)
        ensures
            r == spec_into_imagespec(self),
    {
        let distro_codename = match self.distro_codename {
            None => {
                return Err(ManifestError::MissingDistroCodename);
            }
            Some(c) => c,
        };
        let distro_id = match self.distro_id {
            None => {
                return Err(ManifestError::MissingDistroId);
            }
            Some(d) => d,
        };
        Ok(ImageSpec {
            cuda: self.cuda,
            distro_codename,
            distro_id,
            docker: self.docker,
            nvidia_docker: self.nvidia_docker,
            toolchain: self.toolchain,
        })
    }
}

/// Builder validity: any CUDA version it carries has a canonical name.
pub open spec fn spec_builder_wf(b: ImageSpecBuilder) -> bool {
    b.cuda matches Some(v) ==> v.known()
}

/// Closing a line builder.
pub open spec fn spec_into_imagespec(b: ImageSpecBuilder) -> Result<ImageSpec, ManifestError> {
    match b.distro_codename {
        None => Err(ManifestError::MissingDistroCodename),
        Some(c) => match b.distro_id {
            None => Err(ManifestError::MissingDistroId),
            Some(d) => Ok(ImageSpec {
                cuda: b.cuda,
                distro_codename: c,
                distro_id: d,
                docker: b.docker,
                nvidia_docker: b.nvidia_docker,
                toolchain: b.toolchain,
            }),
        },
    }
}

/// One field token of a manifest line applied to the builder: either a
/// bare flag, or `key=value`.
#[verifier::opaque]
pub open spec fn spec_manifest_token_step(b: ImageSpecBuilder, tok: Seq<u8>) -> Result<
    ImageSpecBuilder,
    ManifestError,
> {
    let p = crate::bytes::find_from(tok, 61, 0);
    if p >= tok.len() {
        if tok == "docker".spec_bytes() {
            Ok(ImageSpecBuilder { docker: true, ..b })
        } else if tok == "nvidia_docker".spec_bytes() {
            Ok(ImageSpecBuilder { nvidia_docker: true, ..b })
        } else {
            Err(ManifestError::BadEntry)
        }
    } else {
        let k = tok.subrange(0, p);
        let v = tok.skip(p + 1);
        if k == "cuda".spec_bytes() {
            match crate::schema::spec_cuda_from_desc(v) {
                None => Err(ManifestError::BadEntry),
                Some(c) => Ok(ImageSpecBuilder { cuda: Some(c), ..b }),
            }
        } else if k == "distro_codename".spec_bytes() {
            match crate::schema::spec_codename_from_desc(v) {
                None => Err(ManifestError::BadEntry),
                Some(c) => Ok(ImageSpecBuilder { distro_codename: Some(c), ..b }),
            }
        } else if k == "distro_id".spec_bytes() {
            match crate::docker::spec_distro_id_require(v) {
                None => Err(ManifestError::BadEntry),
                Some(d) => Ok(ImageSpecBuilder { distro_id: Some(d), ..b }),
            }
        } else if k == "toolchain".spec_bytes() {
            match spec_toolchain_from_desc(v) {
                None => Err(ManifestError::BadEntry),
                Some(t) => Ok(ImageSpecBuilder { toolchain: Some(t), ..b }),
            }
        } else {
            Err(ManifestError::BadEntry)
        }
    }
}

fn manifest_token_step(b: ImageSpecBuilder, tok: &[u8]) -> (r: Result<
    ImageSpecBuilder,
    ManifestError,
>)
    ensures
        r == spec_manifest_token_step(b, tok@),
{
    proof {
        reveal(spec_manifest_token_step);
    }
    match crate::bytes::split_at_byte(tok, 61) {
        None => {
            proof {
                crate::bytes::lemma_find_from_bounds(tok@, 61, 0);
                assert(tok@.subrange(0, tok@.len() as int) =~= tok@);
            }
            if bytes_eq_str(tok, "docker") {
                Ok(ImageSpecBuilder { docker: true, ..b })
            } else if bytes_eq_str(tok, "nvidia_docker") {
                Ok(ImageSpecBuilder { nvidia_docker: true, ..b })
            } else {
                Err(ManifestError::BadEntry)
            }
        }
        Some((k, v)) => {
            if bytes_eq_str(k.as_slice(), "cuda") {
                match crate::schema::cuda_from_desc(v.as_slice()) {
                    None => Err(ManifestError::BadEntry),
                    Some(c) => Ok(ImageSpecBuilder { cuda: Some(c), ..b }),
                }
            } else if bytes_eq_str(k.as_slice(), "distro_codename") {
                match crate::schema::codename_from_desc(v.as_slice()) {
                    None => Err(ManifestError::BadEntry),
                    Some(c) => Ok(ImageSpecBuilder { distro_codename: Some(c), ..b }),
                }
            } else if bytes_eq_str(k.as_slice(), "distro_id") {
                match crate::docker::distro_id_require(v.as_slice()) {
                    None => Err(ManifestError::BadEntry),
                    Some(d) => Ok(ImageSpecBuilder { distro_id: Some(d), ..b }),
                }
            } else if bytes_eq_str(k.as_slice(), "toolchain") {
                match toolchain_from_desc_bytes(v.as_slice()) {
                    None => Err(ManifestError::BadEntry),
                    Some(t) => Ok(ImageSpecBuilder { toolchain: Some(t), ..b }),
                }
            } else {
                Err(ManifestError::BadEntry)
            }
        }
    }
}

/// The field tokens from index `i` on, applied in order.
pub open spec fn spec_manifest_tokens_from(b: ImageSpecBuilder, toks: Seq<Seq<u8>>, i: int)
    -> Result<ImageSpecBuilder, ManifestError>
    recommends
        0 <= i <= toks.len(),
    decreases toks.len() - i when 0 <= i <= toks.len()
{
    if i >= toks.len() {
        Ok(b)
    } else {
        match spec_manifest_token_step(b, toks[i]) {
            Err(e) => Err(e),
            Ok(b2) => spec_manifest_tokens_from(b2, toks, i + 1),
        }
    }
}

/// What one manifest line yields under a key: a descriptor whose hash
/// token matches its description's keyed hash, or the first error.
#[verifier::opaque]
pub open spec fn spec_manifest_line(key: Seq<u8>, line: Seq<u8>) -> Result<
    ImageSpec,
    ManifestError,
> {
    let toks = crate::bytes::spec_tokens(line);
    if toks.len() == 0 {
        Err(ManifestError::MissingHash)
    } else {
        match crate::bytes::spec_hex_decode(toks[0]) {
            None => Err(ManifestError::HashDecode),
            Some(h) => if h.len() != KEY_LEN {
                Err(ManifestError::HashLength)
            } else {
                match spec_manifest_tokens_from(spec_empty_imagespec_builder(), toks, 1) {
                    Err(e) => Err(e),
                    Ok(b) => match spec_into_imagespec(b) {
                        Err(e) => Err(e),
                        Ok(img) => if spec_image_hash(key, img) == h {
                            Ok(img)
                        } else {
                            Err(ManifestError::HashMismatch)
                        },
                    },
                }
            },
        }
    }
}

/// The lines from index `i` on, each yielding one descriptor.
pub open spec fn spec_manifest_parse_from(key: Seq<u8>, acc: Seq<ImageSpec>,
    lines: Seq<Seq<u8>>, i: int) -> Result<Seq<ImageSpec>, ManifestError>
    recommends
        0 <= i <= lines.len(),
    decreases lines.len() - i when 0 <= i <= lines.len()
{
    if i >= lines.len() {
        Ok(acc)
    } else {
        match spec_manifest_line(key, lines[i]) {
            Err(e) => Err(e),
            Ok(img) => spec_manifest_parse_from(key, acc.push(img), lines, i + 1),
        }
    }
}

/// What parsing a whole manifest yields under a key.
pub open spec fn spec_manifest_parse(key: Seq<u8>, input: Seq<u8>) -> Result<
    Seq<ImageSpec>,
    ManifestError,
> {
    spec_manifest_parse_from(key, Seq::empty(), crate::bytes::spec_lines(input), 0)
}

/// The byte form of a manifest: one line per image, the hexadecimal hash
/// followed by the description and a line feed.
pub open spec fn spec_manifest_serialize_from(key: Seq<u8>, specs: Seq<ImageSpec>, i: int)
    -> Seq<u8>
    recommends
        0 <= i <= specs.len(),
    decreases specs.len() - i when 0 <= i <= specs.len()
{
    if i >= specs.len() {
        Seq::empty()
    } else {
        crate::bytes::spec_hex_bytes(spec_image_hash(key, specs[i])) + spec_desc(specs[i])
            + seq![10u8] + spec_manifest_serialize_from(key, specs, i + 1)
    }
}

pub open spec fn spec_manifest_serialize(key: Seq<u8>, specs: Seq<ImageSpec>) -> Seq<u8> {
    spec_manifest_serialize_from(key, specs, 0)
}

/// Does the manifest hold an entry equal to `s`?
pub open spec fn spec_manifest_contains(specs: Seq<ImageSpec>, s: ImageSpec) -> bool {
    exists|i: int| 0 <= i < specs.len() && specs[i] == s
}

/// The ordered list of image descriptors successfully built on this
/// machine.  The byte form is self-verifying: every line's hash is checked
/// against its description on parse, and a manifest that fails any check
/// is discarded whole.
#[derive(Debug)]
pub struct ImageManifest {
    pub imagespecs: Vec<ImageSpec>,
}

impl ImageManifest {
    /// Every stored descriptor is well-formed.
    pub open spec fn wf(&self) -> bool {
        forall|i: int| 0 <= i < self.imagespecs@.len() ==> (#[trigger] self.imagespecs@[i]).wf()
    }

    /// An empty manifest, the fallback when the persisted file is missing
    /// or corrupt.
    pub fn empty() -> (r: ImageManifest)
        ensures
            r.imagespecs@ =~= Seq::<ImageSpec>::empty(),
            r.wf(),
    {
        ImageManifest { imagespecs: Vec::new() }
    }

    /// Parse the persisted byte form, re-checking every line's hash under
    /// this machine's key.
    pub fn parse(input: &[u8], root_manifest: &RootManifest) -> (r: Result<
        ImageManifest,
        ManifestError,
    >)
        requires
            root_manifest.wf(),
        ensures
            match r {
                Ok(m) => spec_manifest_parse(root_manifest.key(), input@)
                    == Ok::<_, ManifestError>(m.imagespecs@) && m.wf(),
                Err(e) => spec_manifest_parse(root_manifest.key(), input@)
                    == Err::<Seq<ImageSpec>, _>(e),
            },
    {
        let ghost key = root_manifest.key();
        let lines = crate::bytes::split_lines(input);
        let ghost linesv = crate::bytes::spec_lines(input@);
        let mut imagespecs: Vec<ImageSpec> = Vec::new();
        let n = lines.len();
        let mut i: usize = 0;
        while i < n
            invariant
                n == lines@.len(),
                i <= n,
                lines.deep_view() == linesv,
                linesv == crate::bytes::spec_lines(input@),
                root_manifest.wf(),
                key == root_manifest.key(),
                spec_manifest_parse_from(key, Seq::empty(), linesv, 0)
                    == spec_manifest_parse_from(key, imagespecs@, linesv, i as int),
                forall|k: int| 0 <= k < imagespecs@.len()
                    ==> (#[trigger] imagespecs@[k]).wf(),
            decreases n - i,
        {
            proof {
                assert(lines@[i as int]@ == linesv[i as int]);
            }
            match Self::parse_line(&lines[i], root_manifest) {
                Err(e) => {
                    proof {
                        assert(spec_manifest_parse_from(key, imagespecs@, linesv, i as int)
                            == Err::<Seq<ImageSpec>, ManifestError>(e));
                        assert(spec_manifest_parse(key, input@) == Err::<Seq<ImageSpec>,
                            ManifestError>(e));
                    }
                    return Err(e);
                }
                Ok(img) => {
                    imagespecs.push(img);
                }
            }
            i = i + 1;
        }
        proof {
            assert(spec_manifest_parse_from(key, imagespecs@, linesv, n as int)
                == Ok::<Seq<ImageSpec>, ManifestError>(imagespecs@));
        }
        Ok(ImageManifest { imagespecs })
    }

    /// Parse and check one manifest line.
    fn parse_line(line: &Vec<u8>, root_manifest: &RootManifest) -> (r: Result<
        ImageSpec,
        ManifestError,
    >)
        requires
            root_manifest.wf(),
        ensures
            r == spec_manifest_line(root_manifest.key(), line@),
            r matches Ok(img) ==> img.wf(),
    {
        proof {
            reveal(spec_manifest_line);
        }
        let toks = crate::bytes::split_ws(line.as_slice());
        let ghost toksv = crate::bytes::spec_tokens(line@);
        if toks.len() == 0 {
            return Err(ManifestError::MissingHash);
        }
        proof {
            assert(toks@[0]@ == toksv[0]);
        }
        let h = match crate::bytes::hex_decode(toks[0].as_slice()) {
            None => {
                return Err(ManifestError::HashDecode);
            }
            Some(h) => h,
        };
        if h.len() != KEY_LEN {
            return Err(ManifestError::HashLength);
        }
        let mut b = ImageSpecBuilder::new();
        let n = toks.len();
        let mut i: usize = 1;
        while i < n
            invariant
                n == toks@.len(),
                1 <= i <= n,
                toks.deep_view() == toksv,
                toksv == crate::bytes::spec_tokens(line@),
                toksv.len() > 0,
                crate::bytes::spec_hex_decode(toksv[0]) == Some(h@),
                h@.len() == KEY_LEN,
                root_manifest.wf(),
                spec_manifest_tokens_from(spec_empty_imagespec_builder(), toksv, 1)
                    == spec_manifest_tokens_from(b, toksv, i as int),
                spec_builder_wf(b),
            decreases n - i,
        {
            proof {
                assert(toks@[i as int]@ == toksv[i as int]);
            }
            match manifest_token_step(b, toks[i].as_slice()) {
                Err(e) => {
                    proof {
                        assert(spec_manifest_tokens_from(b, toksv, i as int)
                            == Err::<ImageSpecBuilder, ManifestError>(e));
                        reveal(spec_manifest_line);
                        assert(spec_manifest_line(root_manifest.key(), line@)
                            == Err::<ImageSpec, ManifestError>(e));
                    }
                    return Err(e);
                }
                Ok(b2) => {
                    b = b2;
                    proof {
                        reveal(spec_manifest_token_step);
                    }
                }
            }
            i = i + 1;
        }
        proof {
            reveal(spec_manifest_line);
            assert(spec_manifest_tokens_from(b, toksv, n as int) == Ok::<ImageSpecBuilder,
                ManifestError>(b));
        }
        let img = match b.into_imagespec() {
            Err(e) => {
                return Err(e);
            }
            Ok(img) => img,
        };
        let hash = img.to_hash(root_manifest);
        if crate::bytes::bytes_eq(hash.as_slice(), h.as_slice()) {
            Ok(img)
        } else {
            Err(ManifestError::HashMismatch)
        }
    }

    /// The byte form to persist, recomputing every hash so the file is
    /// self-verifying.
    pub fn serialize(&self, root_manifest: &RootManifest) -> (r: Vec<u8>)
        requires
            self.wf(),
            root_manifest.wf(),
        ensures
            r@ == spec_manifest_serialize(root_manifest.key(), self.imagespecs@),
    {
        let ghost key = root_manifest.key();
        let ghost specsv = self.imagespecs@;
        let mut out: Vec<u8> = Vec::new();
        let n = self.imagespecs.len();
        let mut i: usize = 0;
        proof {
            assert(out@ + spec_manifest_serialize_from(key, specsv, 0)
                =~= spec_manifest_serialize_from(key, specsv, 0));
        }
        while i < n
            invariant
                n == self.imagespecs@.len(),
                i <= n,
                self.wf(),
                root_manifest.wf(),
                key == root_manifest.key(),
                specsv == self.imagespecs@,
                spec_manifest_serialize(key, specsv) == out@ + spec_manifest_serialize_from(
                    key,
                    specsv,
                    i as int,
                ),
            decreases n - i,
        {
            let img = &self.imagespecs[i];
            let hash = img.to_hash(root_manifest);
            let hex = crate::bytes::hex_bytes(hash.as_slice());
            let desc = img.to_desc();
            let ghost before = out@;
            crate::bytes::push_bytes(&mut out, hex.as_slice());
            crate::bytes::push_bytes(&mut out, desc.as_slice());
            out.push(10u8);
            proof {
                assert(out@ =~= before + (crate::bytes::spec_hex_bytes(spec_image_hash(key,
                    specsv[i as int])) + spec_desc(specsv[i as int]) + seq![10u8]));
                assert(before + (crate::bytes::spec_hex_bytes(spec_image_hash(key,
                    specsv[i as int])) + spec_desc(specsv[i as int]) + seq![10u8])
                    + spec_manifest_serialize_from(key, specsv, i as int + 1)
                    =~= before + spec_manifest_serialize_from(key, specsv, i as int));
            }
            i = i + 1;
        }
        proof {
            assert(out@ + spec_manifest_serialize_from(key, specsv, n as int) =~= out@);
        }
        out
    }

    /// Scan for an entry equal to `lookup_image`; a hit yields a handle
    /// keyed by the precomputed digest, with no further work.
    pub fn lookup_docker_image(&self, lookup_image: &ImageSpec, root_manifest: &RootManifest)
        -> (r: Option<crate::docker::DockerImage>)
        requires
            self.wf(),
            lookup_image.wf(),
            root_manifest.wf(),
        ensures
            match r {
                Some(im) => spec_manifest_contains(self.imagespecs@, *lookup_image)
                    && im.imagespec == *lookup_image
                    && im.hash_digest@ == spec_image_digest(root_manifest.key(), *lookup_image),
                None => !spec_manifest_contains(self.imagespecs@, *lookup_image),
            },
    {
        let n = self.imagespecs.len();
        let mut i: usize = 0;
        while i < n
            invariant
                n == self.imagespecs@.len(),
                i <= n,
                self.wf(),
                lookup_image.wf(),
                root_manifest.wf(),
                forall|k: int| 0 <= k < i ==> self.imagespecs@[k] != *lookup_image,
            decreases n - i,
        {
            if self.imagespecs[i].same(lookup_image) {
                let hash_digest = lookup_image.to_hash_digest(root_manifest);
                return Some(crate::docker::DockerImage {
                    imagespec: *lookup_image,
                    hash_digest,
                });
            }
            i = i + 1;
        }
        None
    }

    /// Record a freshly built image: append its descriptor.  The caller
    /// persists the new byte form afterwards; the append happens only
    /// after a successful build.
    pub fn record_built(&mut self, spec: ImageSpec)
        requires
            old(self).wf(),
            spec.wf(),
        ensures
            final(self).imagespecs@ == old(self).imagespecs@.push(spec),
            final(self).wf(),
    {
        self.imagespecs.push(spec);
    }
}

/// Law: once a descriptor is recorded, looking the same descriptor up is a
/// hit, so resolving it again never triggers a second build; and because
/// the digest is a function of the key and the descriptor alone, every
/// handle for it carries the same digest.
pub proof fn lemma_resolve_idempotent(specs: Seq<ImageSpec>, s: ImageSpec)
    ensures
        spec_manifest_contains(specs.push(s), s),
        spec_manifest_contains(specs, s) ==> spec_manifest_contains(specs.push(s), s),
{
    assert(specs.push(s)[specs.len() as int] == s);
    if spec_manifest_contains(specs, s) {
        let i = choose|i: int| 0 <= i < specs.len() && specs[i] == s;
        assert(specs.push(s)[i] == s);
    }
}

// ---------------------------------------------------------------------------
// The root manifest
// ---------------------------------------------------------------------------

/// The persisted per-machine state: a 32-byte secret key used as the keyed
/// hash key for image identities, and two durable bits recording whether
/// authentication and machine registration were ever confirmed.  The byte
/// form is the key followed by one flag byte.
pub struct RootManifest {
    root_key_buf: Vec<u8>,
    auth_bit: bool,
    mach_reg_bit: bool,
}

impl RootManifest {
    pub open spec fn wf(&self) -> bool {
        self.key().len() == KEY_LEN
    }

    pub closed spec fn key(&self) -> Seq<u8> {
        self.root_key_buf@
    }

    pub closed spec fn spec_auth_bit(&self) -> bool {
        self.auth_bit
    }

    pub closed spec fn spec_mach_reg_bit(&self) -> bool {
        self.mach_reg_bit
    }

    /// Parse the byte form: 32 key bytes, then one optional flag byte
    /// whose low bits carry the authentication and registration flags.  A
    /// missing flag byte reads as zero; trailing bytes are ignored.
    pub fn parse(input: &[u8]) -> (r: Option<RootManifest>)
        ensures
            match r {
                Some(m) => input@.len() >= KEY_LEN && m.wf()
                    && m.key() == input@.subrange(0, KEY_LEN as int)
                    && m.spec_auth_bit() == (input@.len() > KEY_LEN
                        && input@[KEY_LEN as int] & 0x01 == 0x01)
                    && m.spec_mach_reg_bit() == (input@.len() > KEY_LEN
                        && input@[KEY_LEN as int] & 0x02 == 0x02),
                None => input@.len() < KEY_LEN,
            },
    {
        if input.len() < KEY_LEN {
            return None;
        }
        let (key_sl, rest) = input.split_at(KEY_LEN);
        let root_key_buf = vstd::slice::slice_to_vec(key_sl);
        assert(root_key_buf@ =~= input@.subrange(0, KEY_LEN as int));
        let flag_bits: u8 = if rest.len() > 0 {
            rest[0]
        } else {
            0
        };
        proof {
            if input@.len() > KEY_LEN {
                assert(rest@[0] == input@[KEY_LEN as int]);
            }
            assert(0u8 & 0x01u8 == 0u8) by (bit_vector);
            assert(0u8 & 0x02u8 == 0u8) by (bit_vector);
        }
        Some(RootManifest {
            root_key_buf,
            auth_bit: flag_bits & 0x01 == 0x01,
            mach_reg_bit: flag_bits & 0x02 == 0x02,
        })
    }

    /// A fresh manifest: a random key and both bits clear.
    pub fn fresh() -> (r: RootManifest)
        ensures
            r.wf(),
            !r.spec_auth_bit(),
            !r.spec_mach_reg_bit(),
    {
        RootManifest {
            root_key_buf: crate::crypto::random_key(),
            auth_bit: false,
            mach_reg_bit: false,
        }
    }

    /// The single byte holding both durable bits.
    pub open spec fn spec_flag_byte(&self) -> u8 {
        ((if self.spec_auth_bit() { 0x01u8 } else { 0x00u8 })
            | (if self.spec_mach_reg_bit() { 0x02u8 } else { 0x00u8 })) as u8
    }

    pub fn flag_byte(&self) -> (r: u8)
        ensures
            r == self.spec_flag_byte(),
    {
        let auth_mask: u8 = if self.auth_bit { 0x01 } else { 0x00 };
        let mach_reg_mask: u8 = if self.mach_reg_bit { 0x02 } else { 0x00 };
        auth_mask | mach_reg_mask
    }

    /// The byte form: the key followed by the flag byte.
    pub fn serialize(&self) -> (r: Vec<u8>)
        ensures
            r@ == self.key() + seq![self.spec_flag_byte()],
    {
        let mut out = vstd::slice::slice_to_vec(self.root_key_buf.as_slice());
        out.push(self.flag_byte());
        assert(out@ =~= self.key() + seq![self.spec_flag_byte()]);
        out
    }

    pub fn key_buf(&self) -> (r: &Vec<u8>)
        ensures
            r@ == self.key(),
    {
        &self.root_key_buf
    }

    /// The key in base64 text form.
    pub fn key_as_base64(&self) -> (r: String)
        ensures
            r@ == crate::crypto::base64_encode_of(self.key()),
    {
        crate::crypto::base64_encode(self.root_key_buf.as_slice())
    }

    pub fn auth_bit(&self) -> (r: bool)
        ensures
            r == self.spec_auth_bit(),
    {
        self.auth_bit
    }

    /// Set the durable authentication bit, yielding its previous value.
    /// The caller persists the new byte form; a failure to persist must be
    /// answered by resetting the bit.
    pub fn set_auth_bit(&mut self, bit: bool) -> (prev: bool)
        ensures
            prev == old(self).spec_auth_bit(),
            final(self).spec_auth_bit() == bit,
            final(self).spec_mach_reg_bit() == old(self).spec_mach_reg_bit(),
            final(self).key() == old(self).key(),
    {
        let prev = self.auth_bit;
        self.auth_bit = bit;
        prev
    }

    pub fn mach_reg_bit(&self) -> (r: bool)
        ensures
            r == self.spec_mach_reg_bit(),
    {
        self.mach_reg_bit
    }

    /// Set the durable machine-registration bit, yielding its previous
    /// value.
    pub fn set_mach_reg_bit(&mut self, bit: bool) -> (prev: bool)
        ensures
            prev == old(self).spec_mach_reg_bit(),
            final(self).spec_mach_reg_bit() == bit,
            final(self).spec_auth_bit() == old(self).spec_auth_bit(),
            final(self).key() == old(self).key(),
    {
        let prev = self.mach_reg_bit;
        self.mach_reg_bit = bit;
        prev
    }
}

} // verus!
