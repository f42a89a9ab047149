//! Task directives and their parser.
//!
//! A containerized interpreter run prints a line-oriented byte stream.
//! Lines beginning with the directive marker `#-guppy:` are control lines;
//! every other line, while a task block is open, is a shell command line of
//! that task.  The parse is all-or-nothing: a shell line outside a block, a
//! modifier without an open block, an unknown directive, or an unterminated
//! block fails the whole parse and no partial task list is returned.

use vstd::prelude::*;
use vstd::string::StringSliceAdditionalSpecFns;
use crate::bytes::{bytes_eq_str, find_from, rest_after_first_token, spec_lines,
    spec_rest_after_first_token, spec_starts_with, spec_tokens, split_at_byte, split_lines,
    split_ws, strip_prefix_str};
use crate::schema::{CudaVersionV0, DistroCodenameV0, DistroIdV0};
use crate::state::{Toolchain, spec_toolchain_from_desc_no_builtin,
    toolchain_from_desc_bytes_no_builtin};

verus! {

/// How a required version constrains the provided one.
#[derive(Clone, Copy, PartialEq, Eq, Structural, Debug)]
pub enum Version {
    /// Exactly the named version.
    Exact,
    /// The named version or any later one.
    AtLeast,
    /// Any version at all.
    Any,
}

/// Why a directive stream was rejected.
#[derive(Clone, Copy, PartialEq, Eq, Structural, Debug)]
pub enum ParseError {
    /// A shell line outside a task block, a modifier or end without an open
    /// block, a second begin, an unterminated block, or an unknown
    /// directive.
    Syntax,
    /// A directive of the stream that lies outside this engine.
    UnsupportedDirective,
    /// A directive that needs arguments came without them.
    MissingArgument,
    /// An argument that must be `true` or `false` was neither.
    BadBool,
    /// An unknown toolchain name.
    UnknownToolchain,
    /// An unknown distribution name.
    UnknownDistro,
    /// An unknown distribution version or codename.
    UnknownDistroVersion,
    /// An unknown CUDA version.
    UnknownCudaVersion,
    /// A task block ended without a required distribution.
    MissingDistro,
}

/// A required distribution: a comparator and a codename.
#[derive(Clone, Copy, PartialEq, Eq, Structural, Debug)]
pub struct DistroReq {
    pub version: Version,
    pub codename: DistroCodenameV0,
}

/// A required CUDA toolkit: a comparator and, unless any version is
/// accepted, a version.
#[derive(Clone, Copy, PartialEq, Eq, Structural, Debug)]
pub struct CudaReq {
    pub version: Version,
    pub cuda: Option<CudaVersionV0>,
}

/// One parsed unit of CI work.
#[derive(Clone, Debug)]
pub struct TaskSpec {
    pub name: Vec<u8>,
    pub toolchain: Option<Toolchain>,
    pub require_docker: bool,
    pub require_nvidia_docker: bool,
    pub require_distro: DistroReq,
    pub require_cuda: Option<CudaReq>,
    pub allow_errors: bool,
    pub sh: Vec<Vec<u8>>,
}

/// The mathematical shadow of a `TaskSpec`.
#[verifier::ext_equal]
pub struct TaskSpecV {
    pub name: Seq<u8>,
    pub toolchain: Option<Toolchain>,
    pub require_docker: bool,
    pub require_nvidia_docker: bool,
    pub require_distro: DistroReq,
    pub require_cuda: Option<CudaReq>,
    pub allow_errors: bool,
    pub sh: Seq<Seq<u8>>,
}

impl View for TaskSpec {
    type V = TaskSpecV;

    open spec fn view(&self) -> TaskSpecV {
        TaskSpecV {
            name: self.name@,
            toolchain: self.toolchain,
            require_docker: self.require_docker,
            require_nvidia_docker: self.require_nvidia_docker,
            require_distro: self.require_distro,
            require_cuda: self.require_cuda,
            allow_errors: self.allow_errors,
            sh: self.sh.deep_view(),
        }
    }
}

impl DeepView for TaskSpec {
    type V = TaskSpecV;

    open spec fn deep_view(&self) -> TaskSpecV {
        self.view()
    }
}

/// A task block under construction.
pub struct TaskSpecBuilder {
    pub name: Vec<u8>,
    pub toolchain: Option<Toolchain>,
    pub require_docker: bool,
    pub require_nvidia_docker: bool,
    pub require_distro: Option<DistroReq>,
    pub require_cuda: Option<CudaReq>,
    pub allow_errors: bool,
    pub sh: Vec<Vec<u8>>,
}

/// The mathematical shadow of a `TaskSpecBuilder`.
#[verifier::ext_equal]
pub struct BuilderV {
    pub name: Seq<u8>,
    pub toolchain: Option<Toolchain>,
    pub require_docker: bool,
    pub require_nvidia_docker: bool,
    pub require_distro: Option<DistroReq>,
    pub require_cuda: Option<CudaReq>,
    pub allow_errors: bool,
    pub sh: Seq<Seq<u8>>,
}

impl View for TaskSpecBuilder {
    type V = BuilderV;

    open spec fn view(&self) -> BuilderV {
        BuilderV {
            name: self.name@,
            toolchain: self.toolchain,
            require_docker: self.require_docker,
            require_nvidia_docker: self.require_nvidia_docker,
            require_distro: self.require_distro,
            require_cuda: self.require_cuda,
            allow_errors: self.allow_errors,
            sh: self.sh.deep_view(),
        }
    }
}

/// A fresh block: everything unset.
pub open spec fn spec_empty_builder() -> BuilderV {
    BuilderV {
        name: Seq::empty(),
        toolchain: None,
        require_docker: false,
        require_nvidia_docker: false,
        require_distro: None,
        require_cuda: None,
        allow_errors: false,
        sh: Seq::empty(),
    }
}

impl TaskSpecBuilder {
    pub fn new() -> (r: TaskSpecBuilder)
        ensures
            r@ == spec_empty_builder(),
    {
        let r = TaskSpecBuilder {
            name: Vec::new(),
            toolchain: None,
            require_docker: false,
            require_nvidia_docker: false,
            require_distro: None,
            require_cuda: None,
            allow_errors: false,
            sh: Vec::new(),
        };
        proof {
            assert(r@ =~= spec_empty_builder());
        }
        r
    }

    /// Close the block into a finished task; fails when no required
    /// distribution was given.
    pub fn into_task(self) -> (r: Result<TaskSpec, ParseError>)
        ensures
            match r {
                Ok(t) => spec_finish(self@) == Some(t@),
                Err(e) => spec_finish(self@) is None && e == ParseError::MissingDistro,
            },
    {
        match self.require_distro {
            None => Err(ParseError::MissingDistro),
            Some(rd) => {
                let t = TaskSpec {
                    name: self.name,
                    toolchain: self.toolchain,
                    require_docker: self.require_docker,
                    require_nvidia_docker: self.require_nvidia_docker,
                    require_distro: rd,
                    require_cuda: self.require_cuda,
                    allow_errors: self.allow_errors,
                    sh: self.sh,
                };
                proof {
                    assert(spec_finish(self@) matches Some(tv) && tv =~= t@);
                }
                Ok(t)
            }
        }
    }
}

/// The finished task of a block, if its required distribution was given.
pub open spec fn spec_finish(b: BuilderV) -> Option<TaskSpecV> {
    match b.require_distro {
        None => None,
        Some(rd) => Some(TaskSpecV {
            name: b.name,
            toolchain: b.toolchain,
            require_docker: b.require_docker,
            require_nvidia_docker: b.require_nvidia_docker,
            require_distro: rd,
            require_cuda: b.require_cuda,
            allow_errors: b.allow_errors,
            sh: b.sh,
        }),
    }
}

/// The parser's running state: the finished tasks and the open block, if
/// one is open.
#[verifier::ext_equal]
pub struct ParseStateV {
    pub tasks: Seq<TaskSpecV>,
    pub builder: Option<BuilderV>,
}

/// View of the exec parser's block slot.
pub open spec fn spec_opt_builder(b: &Option<TaskSpecBuilder>) -> Option<BuilderV> {
    match b {
        None => None,
        Some(x) => Some(x@),
    }
}

// ---------------------------------------------------------------------------
// Token-level pieces
// ---------------------------------------------------------------------------

/// `true` or `false`, as Rust's boolean parse accepts them.
pub open spec fn spec_parse_bool(s: Seq<u8>) -> Option<bool> {
    if s == "true".spec_bytes() {
        Some(true)
    } else if s == "false".spec_bytes() {
        Some(false)
    } else {
        None
    }
}

fn parse_bool(s: &[u8]) -> (r: Option<bool>)
    ensures
        r == spec_parse_bool(s@),
{
    if bytes_eq_str(s, "true") {
        Some(true)
    } else if bytes_eq_str(s, "false") {
        Some(false)
    } else {
        None
    }
}

/// Split a version argument into its comparator and the version text: a
/// leading `==` means exact, a leading `>=` means at-least, no comparator
/// means exact.
pub open spec fn spec_split_version(s: Seq<u8>) -> (Version, Seq<u8>) {
    if spec_starts_with(s, "==".spec_bytes()) {
        (Version::Exact, s.skip("==".spec_bytes().len() as int))
    } else if spec_starts_with(s, ">=".spec_bytes()) {
        (Version::AtLeast, s.skip(">=".spec_bytes().len() as int))
    } else {
        (Version::Exact, s)
    }
}

fn split_version(s: &[u8]) -> (r: (Version, Vec<u8>))
    ensures
        (r.0, r.1@) == spec_split_version(s@),
{
    match strip_prefix_str(s, "==") {
        Some(rest) => (Version::Exact, rest),
        None => match strip_prefix_str(s, ">=") {
            Some(rest) => (Version::AtLeast, rest),
            None => (Version::Exact, vstd::slice::slice_to_vec(s)),
        },
    }
}

/// The codename that a distribution and a version or codename text name,
/// if the pair is supported.
pub open spec fn spec_distro_version(id: DistroIdV0, s: Seq<u8>) -> Option<DistroCodenameV0> {
    match id {
        DistroIdV0::Alpine => if s == "3.8".spec_bytes() {
            Some(DistroCodenameV0::Alpine3_8)
        } else if s == "3.9".spec_bytes() {
            Some(DistroCodenameV0::Alpine3_9)
        } else {
            None
        },
        DistroIdV0::Centos => if s == "6".spec_bytes() {
            Some(DistroCodenameV0::Centos6)
        } else if s == "7".spec_bytes() {
            Some(DistroCodenameV0::Centos7)
        } else {
            None
        },
        DistroIdV0::Debian => if s == "7".spec_bytes() || s == "wheezy".spec_bytes() {
            Some(DistroCodenameV0::DebianWheezy)
        } else if s == "8".spec_bytes() || s == "jessie".spec_bytes() {
            Some(DistroCodenameV0::DebianJessie)
        } else if s == "9".spec_bytes() || s == "stretch".spec_bytes() {
            Some(DistroCodenameV0::DebianStretch)
        } else if s == "10".spec_bytes() || s == "buster".spec_bytes() {
            Some(DistroCodenameV0::DebianBuster)
        } else {
            None
        },
        DistroIdV0::Ubuntu => if s == "14.04".spec_bytes() || s == "trusty".spec_bytes() {
            Some(DistroCodenameV0::UbuntuTrusty)
        } else if s == "16.04".spec_bytes() || s == "xenial".spec_bytes() {
            Some(DistroCodenameV0::UbuntuXenial)
        } else if s == "18.04".spec_bytes() || s == "bionic".spec_bytes() {
            Some(DistroCodenameV0::UbuntuBionic)
        } else {
            None
        },
        _ => None,
    }
}

fn distro_version(id: DistroIdV0, s: &[u8]) -> (r: Option<DistroCodenameV0>)
    ensures
        r == spec_distro_version(id, s@),
{
    match id {
        DistroIdV0::Alpine => if bytes_eq_str(s, "3.8") {
            Some(DistroCodenameV0::Alpine3_8)
        } else if bytes_eq_str(s, "3.9") {
            Some(DistroCodenameV0::Alpine3_9)
        } else {
            None
        },
        DistroIdV0::Centos => if bytes_eq_str(s, "6") {
            Some(DistroCodenameV0::Centos6)
        } else if bytes_eq_str(s, "7") {
            Some(DistroCodenameV0::Centos7)
        } else {
            None
        },
        DistroIdV0::Debian => if bytes_eq_str(s, "7") || bytes_eq_str(s, "wheezy") {
            Some(DistroCodenameV0::DebianWheezy)
        } else if bytes_eq_str(s, "8") || bytes_eq_str(s, "jessie") {
            Some(DistroCodenameV0::DebianJessie)
        } else if bytes_eq_str(s, "9") || bytes_eq_str(s, "stretch") {
            Some(DistroCodenameV0::DebianStretch)
        } else if bytes_eq_str(s, "10") || bytes_eq_str(s, "buster") {
            Some(DistroCodenameV0::DebianBuster)
        } else {
            None
        },
        DistroIdV0::Ubuntu => if bytes_eq_str(s, "14.04") || bytes_eq_str(s, "trusty") {
            Some(DistroCodenameV0::UbuntuTrusty)
        } else if bytes_eq_str(s, "16.04") || bytes_eq_str(s, "xenial") {
            Some(DistroCodenameV0::UbuntuXenial)
        } else if bytes_eq_str(s, "18.04") || bytes_eq_str(s, "bionic") {
            Some(DistroCodenameV0::UbuntuBionic)
        } else {
            None
        },
        _ => None,
    }
}

/// The CUDA version that a dotted version text names, if it is supported.
pub open spec fn spec_cuda_version(s: Seq<u8>) -> Option<CudaVersionV0> {
    if s == "6.5".spec_bytes() {
        Some(CudaVersionV0 { major: 6, minor: 5 })
    } else if s == "7.0".spec_bytes() {
        Some(CudaVersionV0 { major: 7, minor: 0 })
    } else if s == "7.5".spec_bytes() {
        Some(CudaVersionV0 { major: 7, minor: 5 })
    } else if s == "8.0".spec_bytes() {
        Some(CudaVersionV0 { major: 8, minor: 0 })
    } else if s == "9.0".spec_bytes() {
        Some(CudaVersionV0 { major: 9, minor: 0 })
    } else if s == "9.1".spec_bytes() {
        Some(CudaVersionV0 { major: 9, minor: 1 })
    } else if s == "9.2".spec_bytes() {
        Some(CudaVersionV0 { major: 9, minor: 2 })
    } else if s == "10.0".spec_bytes() {
        Some(CudaVersionV0 { major: 10, minor: 0 })
    } else if s == "10.1".spec_bytes() {
        Some(CudaVersionV0 { major: 10, minor: 1 })
    } else {
        None
    }
}

fn cuda_version(s: &[u8]) -> (r: Option<CudaVersionV0>)
    ensures
        r == spec_cuda_version(s@),
{
    if bytes_eq_str(s, "6.5") {
        Some(CudaVersionV0 { major: 6, minor: 5 })
    } else if bytes_eq_str(s, "7.0") {
        Some(CudaVersionV0 { major: 7, minor: 0 })
    } else if bytes_eq_str(s, "7.5") {
        Some(CudaVersionV0 { major: 7, minor: 5 })
    } else if bytes_eq_str(s, "8.0") {
        Some(CudaVersionV0 { major: 8, minor: 0 })
    } else if bytes_eq_str(s, "9.0") {
        Some(CudaVersionV0 { major: 9, minor: 0 })
    } else if bytes_eq_str(s, "9.1") {
        Some(CudaVersionV0 { major: 9, minor: 1 })
    } else if bytes_eq_str(s, "9.2") {
        Some(CudaVersionV0 { major: 9, minor: 2 })
    } else if bytes_eq_str(s, "10.0") {
        Some(CudaVersionV0 { major: 10, minor: 0 })
    } else if bytes_eq_str(s, "10.1") {
        Some(CudaVersionV0 { major: 10, minor: 1 })
    } else {
        None
    }
}

// ---------------------------------------------------------------------------
// The directive grammar
// ---------------------------------------------------------------------------

/// One `v0.task` directive applied to the parser state.  `d1` is the text
/// after the second colon.
#[verifier::opaque]
pub open spec fn spec_task_directive(st: ParseStateV, d1: Seq<u8>) -> Result<
    ParseStateV,
    ParseError,
> {
    let args = spec_tokens(d1);
    if args.len() == 0 {
        Err(ParseError::Syntax)
    } else if args[0] == "begin".spec_bytes() {
        if st.builder is Some {
            Err(ParseError::Syntax)
        } else {
            Ok(ParseStateV { tasks: st.tasks, builder: Some(spec_empty_builder()) })
        }
    } else if args[0] == "end".spec_bytes() {
        match st.builder {
            None => Err(ParseError::Syntax),
            Some(b) => match spec_finish(b) {
                None => Err(ParseError::MissingDistro),
                Some(t) => Ok(ParseStateV { tasks: st.tasks.push(t), builder: None }),
            },
        }
    } else if args[0] == "name".spec_bytes() {
        match st.builder {
            None => Err(ParseError::Syntax),
            Some(b) => if args.len() <= 1 {
                Err(ParseError::MissingArgument)
            } else {
                Ok(ParseStateV {
                    tasks: st.tasks,
                    builder: Some(BuilderV { name: spec_rest_after_first_token(d1), ..b }),
                })
            },
        }
    } else if args[0] == "toolchain".spec_bytes() {
        match st.builder {
            None => Err(ParseError::Syntax),
            Some(b) => if args.len() <= 1 {
                Err(ParseError::MissingArgument)
            } else {
                match spec_toolchain_from_desc_no_builtin(args[1]) {
                    None => Err(ParseError::UnknownToolchain),
                    Some(t) => Ok(ParseStateV {
                        tasks: st.tasks,
                        builder: Some(BuilderV { toolchain: Some(t), ..b }),
                    }),
                }
            },
        }
    } else if args[0] == "require_docker".spec_bytes() {
        match st.builder {
            None => Err(ParseError::Syntax),
            Some(b) => if args.len() <= 1 {
                Err(ParseError::MissingArgument)
            } else {
                match spec_parse_bool(args[1]) {
                    None => Err(ParseError::BadBool),
                    Some(v) => Ok(ParseStateV {
                        tasks: st.tasks,
                        builder: Some(BuilderV { require_docker: v, ..b }),
                    }),
                }
            },
        }
    } else if args[0] == "require_nvidia_docker".spec_bytes() {
        match st.builder {
            None => Err(ParseError::Syntax),
            Some(b) => if args.len() <= 1 {
                Err(ParseError::MissingArgument)
            } else {
                match spec_parse_bool(args[1]) {
                    None => Err(ParseError::BadBool),
                    Some(v) => Ok(ParseStateV {
                        tasks: st.tasks,
                        builder: Some(BuilderV { require_nvidia_docker: v, ..b }),
                    }),
                }
            },
        }
    } else if args[0] == "require_distro".spec_bytes() {
        match st.builder {
            None => Err(ParseError::Syntax),
            Some(b) => if args.len() <= 2 {
                Err(ParseError::MissingArgument)
            } else {
                match spec_distro_id_require(args[1]) {
                    None => Err(ParseError::UnknownDistro),
                    Some(id) => {
                        let (ver, code_txt) = spec_split_version(args[2]);
                        match spec_distro_version(id, code_txt) {
                            None => Err(ParseError::UnknownDistroVersion),
                            Some(code) => Ok(ParseStateV {
                                tasks: st.tasks,
                                builder: Some(BuilderV {
                                    require_distro: Some(DistroReq { version: ver, codename: code }),
                                    ..b
                                }),
                            }),
                        }
                    },
                }
            },
        }
    } else if args[0] == "require_cuda".spec_bytes() {
        match st.builder {
            None => Err(ParseError::Syntax),
            Some(b) => if args.len() <= 1 {
                Err(ParseError::MissingArgument)
            } else if args[1] == "*".spec_bytes() {
                Ok(ParseStateV {
                    tasks: st.tasks,
                    builder: Some(BuilderV {
                        require_cuda: Some(CudaReq { version: Version::Any, cuda: None }),
                        ..b
                    }),
                })
            } else {
                let (ver, code_txt) = spec_split_version(args[1]);
                match spec_cuda_version(code_txt) {
                    None => Err(ParseError::UnknownCudaVersion),
                    Some(code) => Ok(ParseStateV {
                        tasks: st.tasks,
                        builder: Some(BuilderV {
                            require_cuda: Some(CudaReq { version: ver, cuda: Some(code) }),
                            ..b
                        }),
                    }),
                }
            },
        }
    } else if args[0] == "require_gpu_arch".spec_bytes() {
        match st.builder {
            None => Err(ParseError::Syntax),
            Some(b) => if args.len() <= 1 {
                Err(ParseError::MissingArgument)
            } else if args[1] == "*".spec_bytes() {
                Ok(st)
            } else {
                Err(ParseError::Syntax)
            },
        }
    } else if args[0] == "allow_errors".spec_bytes() {
        match st.builder {
            None => Err(ParseError::Syntax),
            Some(b) => if args.len() <= 1 {
                Err(ParseError::MissingArgument)
            } else {
                match spec_parse_bool(args[1]) {
                    None => Err(ParseError::BadBool),
                    Some(v) => Ok(ParseStateV {
                        tasks: st.tasks,
                        builder: Some(BuilderV { allow_errors: v, ..b }),
                    }),
                }
            },
        }
    } else {
        Err(ParseError::Syntax)
    }
}

/// The distributions a task may require: only these four have supported
/// container images.
pub open spec fn spec_distro_id_require(s: Seq<u8>) -> Option<DistroIdV0> {
    if s == "alpine".spec_bytes() {
        Some(DistroIdV0::Alpine)
    } else if s == "centos".spec_bytes() {
        Some(DistroIdV0::Centos)
    } else if s == "debian".spec_bytes() {
        Some(DistroIdV0::Debian)
    } else if s == "ubuntu".spec_bytes() {
        Some(DistroIdV0::Ubuntu)
    } else {
        None
    }
}

pub fn distro_id_require(s: &[u8]) -> (r: Option<DistroIdV0>)
    ensures
        r == spec_distro_id_require(s@),
{
    if bytes_eq_str(s, "alpine") {
        Some(DistroIdV0::Alpine)
    } else if bytes_eq_str(s, "centos") {
        Some(DistroIdV0::Centos)
    } else if bytes_eq_str(s, "debian") {
        Some(DistroIdV0::Debian)
    } else if bytes_eq_str(s, "ubuntu") {
        Some(DistroIdV0::Ubuntu)
    } else {
        None
    }
}

/// One control line applied to the parser state.  `rest` is the text after
/// the directive marker.
pub open spec fn spec_directive_step(st: ParseStateV, rest: Seq<u8>) -> Result<
    ParseStateV,
    ParseError,
> {
    let p = find_from(rest, 58, 0);
    let d0 = rest.subrange(0, p);
    if d0 == "v0.pre_run".spec_bytes() || d0 == "v0.run_prelude".spec_bytes()
        || d0 == "v0.post_run".spec_bytes() {
        Ok(st)
    } else if d0 == "v0.mutable_cache".spec_bytes() {
        Err(ParseError::UnsupportedDirective)
    } else if d0 == "v0.task".spec_bytes() {
        if p >= rest.len() {
            Err(ParseError::Syntax)
        } else {
            spec_task_directive(st, rest.skip(p + 1))
        }
    } else {
        Err(ParseError::Syntax)
    }
}

/// One line applied to the parser state: a control line steps the
/// directive machine; any other line is a shell line of the open block.
#[verifier::opaque]
pub open spec fn spec_line_step(st: ParseStateV, line: Seq<u8>) -> Result<
    ParseStateV,
    ParseError,
> {
    if spec_starts_with(line, "#-guppy:".spec_bytes()) {
        spec_directive_step(st, line.skip("#-guppy:".spec_bytes().len() as int))
    } else {
        match st.builder {
            None => Err(ParseError::Syntax),
            Some(b) => Ok(ParseStateV {
                tasks: st.tasks,
                builder: Some(BuilderV { sh: b.sh.push(line), ..b }),
            }),
        }
    }
}

/// The lines from index `i` on, applied in order.
pub open spec fn spec_parse_from(st: ParseStateV, lines: Seq<Seq<u8>>, i: int) -> Result<
    ParseStateV,
    ParseError,
>
    recommends
        0 <= i <= lines.len(),
    decreases lines.len() - i when 0 <= i <= lines.len()
{
    if i >= lines.len() {
        Ok(st)
    } else {
        match spec_line_step(st, lines[i]) {
            Err(e) => Err(e),
            Ok(st2) => spec_parse_from(st2, lines, i + 1),
        }
    }
}

/// What parsing a whole byte stream yields: the finished tasks, or the
/// first error.  An unterminated block at end of stream is a syntax error.
pub open spec fn spec_taskspecs(input: Seq<u8>) -> Result<Seq<TaskSpecV>, ParseError> {
    let init = ParseStateV { tasks: Seq::empty(), builder: None };
    match spec_parse_from(init, spec_lines(input), 0) {
        Err(e) => Err(e),
        Ok(st) => if st.builder is Some {
            Err(ParseError::Syntax)
        } else {
            Ok(st.tasks)
        },
    }
}

// ---------------------------------------------------------------------------
// The executable parser
// ---------------------------------------------------------------------------

/// Apply one `v0.task` directive.
fn task_directive(tasks: &mut Vec<TaskSpec>, builder: Option<TaskSpecBuilder>, d1: &Vec<u8>) -> (r:
    Result<Option<TaskSpecBuilder>, ParseError>)
    ensures
        ({
            let pre = ParseStateV {
                tasks: old(tasks).deep_view(),
                builder: spec_opt_builder(&builder),
            };
            match r {
                Ok(b2) => spec_task_directive(pre, d1@) == Ok::<_, ParseError>(ParseStateV {
                    tasks: final(tasks).deep_view(),
                    builder: spec_opt_builder(&b2),
                }),
                Err(e) => spec_task_directive(pre, d1@) == Err::<ParseStateV, _>(e),
            }
        }),
{
    proof {
        reveal(spec_task_directive);
    }
    let ghost pre = ParseStateV {
        tasks: tasks.deep_view(),
        builder: spec_opt_builder(&builder),
    };
    let args = split_ws(d1.as_slice());
    proof {
        assert(args.deep_view() == spec_tokens(d1@));
    }
    if args.len() == 0 {
        return Err(ParseError::Syntax);
    }
    proof {
        assert(args[0]@ == spec_tokens(d1@)[0]);
        assert(args@.len() > 1 ==> args[1]@ == spec_tokens(d1@)[1]);
    }
    if bytes_eq_str(args[0].as_slice(), "begin") {
        if builder.is_some() {
            Err(ParseError::Syntax)
        } else {
            Ok(Some(TaskSpecBuilder::new()))
        }
    } else if bytes_eq_str(args[0].as_slice(), "end") {
        match builder {
            None => Err(ParseError::Syntax),
            Some(b) => match b.into_task() {
                Err(e) => Err(e),
                Ok(t) => {
                    tasks.push(t);
                    proof {
                        assert(tasks.deep_view() =~= pre.tasks.push(t@));
                    }
                    Ok(None)
                }
            },
        }
    } else if bytes_eq_str(args[0].as_slice(), "name") {
        match builder {
            None => Err(ParseError::Syntax),
            Some(mut b) => if args.len() <= 1 {
                Err(ParseError::MissingArgument)
            } else {
                b.name = rest_after_first_token(d1.as_slice());
                Ok(Some(b))
            },
        }
    } else if bytes_eq_str(args[0].as_slice(), "toolchain") {
        match builder {
            None => Err(ParseError::Syntax),
            Some(mut b) => if args.len() <= 1 {
                Err(ParseError::MissingArgument)
            } else {
                match toolchain_from_desc_bytes_no_builtin(args[1].as_slice()) {
                    None => Err(ParseError::UnknownToolchain),
                    Some(t) => {
                        b.toolchain = Some(t);
                        Ok(Some(b))
                    }
                }
            },
        }
    } else if bytes_eq_str(args[0].as_slice(), "require_docker") {
        match builder {
            None => Err(ParseError::Syntax),
            Some(mut b) => if args.len() <= 1 {
                Err(ParseError::MissingArgument)
            } else {
                match parse_bool(args[1].as_slice()) {
                    None => Err(ParseError::BadBool),
                    Some(v) => {
                        b.require_docker = v;
                        Ok(Some(b))
                    }
                }
            },
        }
    } else if bytes_eq_str(args[0].as_slice(), "require_nvidia_docker") {
        match builder {
            None => Err(ParseError::Syntax),
            Some(mut b) => if args.len() <= 1 {
                Err(ParseError::MissingArgument)
            } else {
                match parse_bool(args[1].as_slice()) {
                    None => Err(ParseError::BadBool),
                    Some(v) => {
                        b.require_nvidia_docker = v;
                        Ok(Some(b))
                    }
                }
            },
        }
    } else if bytes_eq_str(args[0].as_slice(), "require_distro") {
        match builder {
            None => Err(ParseError::Syntax),
            Some(mut b) => if args.len() <= 2 {
                Err(ParseError::MissingArgument)
            } else {
                proof {
                    assert(args[2]@ == spec_tokens(d1@)[2]);
                }
                match distro_id_require(args[1].as_slice()) {
                    None => Err(ParseError::UnknownDistro),
                    Some(id) => {
                        let (ver, code_txt) = split_version(args[2].as_slice());
                        match distro_version(id, code_txt.as_slice()) {
                            None => Err(ParseError::UnknownDistroVersion),
                            Some(code) => {
                                b.require_distro = Some(DistroReq { version: ver, codename: code });
                                Ok(Some(b))
                            }
                        }
                    }
                }
            },
        }
    } else if bytes_eq_str(args[0].as_slice(), "require_cuda") {
        match builder {
            None => Err(ParseError::Syntax),
            Some(mut b) => if args.len() <= 1 {
                Err(ParseError::MissingArgument)
            } else if bytes_eq_str(args[1].as_slice(), "*") {
                b.require_cuda = Some(CudaReq { version: Version::Any, cuda: None });
                Ok(Some(b))
            } else {
                let (ver, code_txt) = split_version(args[1].as_slice());
                match cuda_version(code_txt.as_slice()) {
                    None => Err(ParseError::UnknownCudaVersion),
                    Some(code) => {
                        b.require_cuda = Some(CudaReq { version: ver, cuda: Some(code) });
                        Ok(Some(b))
                    }
                }
            },
        }
    } else if bytes_eq_str(args[0].as_slice(), "require_gpu_arch") {
        match builder {
            None => Err(ParseError::Syntax),
            Some(b) => if args.len() <= 1 {
                Err(ParseError::MissingArgument)
            } else if bytes_eq_str(args[1].as_slice(), "*") {
                Ok(Some(b))
            } else {
                Err(ParseError::Syntax)
            },
        }
    } else if bytes_eq_str(args[0].as_slice(), "allow_errors") {
        match builder {
            None => Err(ParseError::Syntax),
            Some(mut b) => if args.len() <= 1 {
                Err(ParseError::MissingArgument)
            } else {
                match parse_bool(args[1].as_slice()) {
                    None => Err(ParseError::BadBool),
                    Some(v) => {
                        b.allow_errors = v;
                        Ok(Some(b))
                    }
                }
            },
        }
    } else {
        Err(ParseError::Syntax)
    }
}

/// Apply one line.
#[verifier::rlimit(60)]
fn line_step(tasks: &mut Vec<TaskSpec>, builder: Option<TaskSpecBuilder>, line: &Vec<u8>) -> (r:
    Result<Option<TaskSpecBuilder>, ParseError>)
    ensures
        ({
            let pre = ParseStateV {
                tasks: old(tasks).deep_view(),
                builder: spec_opt_builder(&builder),
            };
            match r {
                Ok(b2) => spec_line_step(pre, line@) == Ok::<_, ParseError>(ParseStateV {
                    tasks: final(tasks).deep_view(),
                    builder: spec_opt_builder(&b2),
                }),
                Err(e) => spec_line_step(pre, line@) == Err::<ParseStateV, _>(e),
            }
        }),
{
    proof {
        reveal(spec_line_step);
    }
    let ghost pre = ParseStateV {
        tasks: tasks.deep_view(),
        builder: spec_opt_builder(&builder),
    };
    match strip_prefix_str(line.as_slice(), "#-guppy:") {
        Some(rest) => {
            match split_at_byte(rest.as_slice(), 58) {
                Some((d0, d1)) => {
                    proof {
                        assert(d0@ == rest@.subrange(0, find_from(rest@, 58, 0)));
                    }
                    if bytes_eq_str(d0.as_slice(), "v0.pre_run")
                        || bytes_eq_str(d0.as_slice(), "v0.run_prelude")
                        || bytes_eq_str(d0.as_slice(), "v0.post_run") {
                        Ok(builder)
                    } else if bytes_eq_str(d0.as_slice(), "v0.mutable_cache") {
                        Err(ParseError::UnsupportedDirective)
                    } else if bytes_eq_str(d0.as_slice(), "v0.task") {
                        task_directive(tasks, builder, &d1)
                    } else {
                        Err(ParseError::Syntax)
                    }
                }
                None => {
                    proof {
                        crate::bytes::lemma_find_from_bounds(rest@, 58, 0);
                        assert(find_from(rest@, 58, 0) == rest@.len());
                        assert(rest@.subrange(0, find_from(rest@, 58, 0)) =~= rest@);
                    }
                    if bytes_eq_str(rest.as_slice(), "v0.pre_run")
                        || bytes_eq_str(rest.as_slice(), "v0.run_prelude")
                        || bytes_eq_str(rest.as_slice(), "v0.post_run") {
                        Ok(builder)
                    } else if bytes_eq_str(rest.as_slice(), "v0.mutable_cache") {
                        Err(ParseError::UnsupportedDirective)
                    } else if bytes_eq_str(rest.as_slice(), "v0.task") {
                        Err(ParseError::Syntax)
                    } else {
                        Err(ParseError::Syntax)
                    }
                }
            }
        }
        None => {
            match builder {
                None => Err(ParseError::Syntax),
                Some(mut b) => {
                    let ghost old_sh = b.sh.deep_view();
                    let line2 = vstd::slice::slice_to_vec(line.as_slice());
                    proof {
                        assert(line2.deep_view() =~= line@);
                    }
                    b.sh.push(line2);
                    proof {
                        assert(b.sh.deep_view() =~= old_sh.push(line@));
                    }
                    Ok(Some(b))
                }
            }
        }
    }
}

/// Parse a whole directive stream into its task list; all-or-nothing.
#[verifier::rlimit(60)]
pub fn parse_taskspecs(input: &[u8]) -> (r: Result<Vec<TaskSpec>, ParseError>)
    ensures
        match r {
            Ok(ts) => spec_taskspecs(input@) == Ok::<_, ParseError>(ts.deep_view()),
            Err(e) => spec_taskspecs(input@) == Err::<Seq<TaskSpecV>, _>(e),
        },
{
    let lines = split_lines(input);
    let ghost linesv = spec_lines(input@);
    let ghost init = ParseStateV { tasks: Seq::empty(), builder: None };
    let mut tasks: Vec<TaskSpec> = Vec::new();
    let mut builder: Option<TaskSpecBuilder> = None;
    proof {
        assert(tasks.deep_view() =~= Seq::<TaskSpecV>::empty());
    }
    let n = lines.len();
    let mut i: usize = 0;
    while i < n
        invariant
            n == lines@.len(),
            i <= n,
            lines.deep_view() == linesv,
            linesv == spec_lines(input@),
            init == (ParseStateV { tasks: Seq::empty(), builder: None }),
            spec_parse_from(init, linesv, 0) == spec_parse_from(
                ParseStateV { tasks: tasks.deep_view(), builder: spec_opt_builder(&builder) },
                linesv,
                i as int,
            ),
        decreases n - i,
    {
        proof {
            assert(lines@[i as int]@ == linesv[i as int]);
        }
        let ghost stv = ParseStateV {
            tasks: tasks.deep_view(),
            builder: spec_opt_builder(&builder),
        };
        match line_step(&mut tasks, builder, &lines[i]) {
            Err(e) => {
                proof {
                    assert(spec_parse_from(stv, linesv, i as int) == Err::<ParseStateV,
                        ParseError>(e));
                    assert(spec_parse_from(
                        ParseStateV { tasks: Seq::empty(), builder: None },
                        linesv,
                        0,
                    ) == Err::<ParseStateV, ParseError>(e));
                    assert(spec_taskspecs(input@) == Err::<Seq<TaskSpecV>, ParseError>(e));
                }
                return Err(e);
            }
            Ok(b2) => {
                builder = b2;
                proof {
                    assert(spec_parse_from(stv, linesv, i as int) == spec_parse_from(
                        ParseStateV {
                            tasks: tasks.deep_view(),
                            builder: spec_opt_builder(&builder),
                        },
                        linesv,
                        i as int + 1,
                    ));
                }
            }
        }
        i = i + 1;
    }
    let ghost stv = ParseStateV { tasks: tasks.deep_view(), builder: spec_opt_builder(&builder) };
    proof {
        assert(spec_parse_from(stv, linesv, n as int) == Ok::<ParseStateV, ParseError>(stv));
    }
    if builder.is_some() {
        proof {
            assert(spec_taskspecs(input@) == Err::<Seq<TaskSpecV>, ParseError>(
                ParseError::Syntax));
        }
        return Err(ParseError::Syntax);
    }
    proof {
        assert(spec_taskspecs(input@) == Ok::<Seq<TaskSpecV>, ParseError>(tasks.deep_view()));
    }
    Ok(tasks)
}

/// A parser state whose finished tasks and open block all carry only
/// known CUDA versions.
pub open spec fn spec_state_cuda_known(st: ParseStateV) -> bool {
    &&& forall|i: int| 0 <= i < st.tasks.len() ==> (#[trigger] st.tasks[i]).cuda_known()
    &&& (st.builder matches Some(b) ==> spec_builder_cuda_known(b))
}

/// A block whose CUDA requirement, if any, names a known version.
pub open spec fn spec_builder_cuda_known(b: BuilderV) -> bool {
    b.require_cuda matches Some(req) ==> (req.cuda matches Some(v) ==> v.known())
}

/// One line preserves CUDA well-formedness: the only directive that sets
/// a CUDA requirement draws it from the fixed version table.
proof fn lemma_line_step_cuda_known(st: ParseStateV, line: Seq<u8>)
    requires
        spec_state_cuda_known(st),
    ensures
        spec_line_step(st, line) matches Ok(st2) ==> spec_state_cuda_known(st2),
{
    reveal(spec_line_step);
    reveal(spec_task_directive);
    match spec_line_step(st, line) {
        Err(_) => {}
        Ok(st2) => {
            assert forall|i: int| 0 <= i < st2.tasks.len() implies (#[trigger] st2.tasks[i])
                .cuda_known() by {
                if i < st.tasks.len() {
                    assert(st.tasks[i].cuda_known());
                }
            }
        }
    }
}

proof fn lemma_parse_from_cuda_known(st: ParseStateV, lines: Seq<Seq<u8>>, i: int)
    requires
        0 <= i <= lines.len(),
        spec_state_cuda_known(st),
    ensures
        spec_parse_from(st, lines, i) matches Ok(st2) ==> spec_state_cuda_known(st2),
    decreases lines.len() - i,
{
    if i < lines.len() {
        match spec_line_step(st, lines[i]) {
            Err(_) => {}
            Ok(st2) => {
                lemma_line_step_cuda_known(st, lines[i]);
                lemma_parse_from_cuda_known(st2, lines, i + 1);
            }
        }
    }
}

/// Law: every task a successful parse yields carries only known CUDA
/// versions, so its image candidate is a well-formed descriptor.
pub proof fn lemma_taskspecs_cuda_known(input: Seq<u8>)
    ensures
        spec_taskspecs(input) matches Ok(ts) ==> forall|i: int| 0 <= i < ts.len()
            ==> (#[trigger] ts[i]).cuda_known(),
{
    let init = ParseStateV { tasks: Seq::empty(), builder: None };
    lemma_parse_from_cuda_known(init, spec_lines(input), 0);
}

// ---------------------------------------------------------------------------
// Images and task execution artifacts
// ---------------------------------------------------------------------------

/// Where a container run's console output goes: the local standard output,
/// or chunks of at least `buf_sz` bytes handed to a consumer.
#[derive(Clone, Copy, PartialEq, Eq, Structural, Debug)]
pub enum DockerOutput {
    Stdout,
    Buffer { buf_sz: usize },
}

/// How a container run ended.
#[derive(Clone, Copy, PartialEq, Eq, Structural, Debug)]
pub enum DockerRunStatus {
    Success,
    Failure,
}

/// A resolved image: its descriptor and the hexadecimal content digest
/// that names it.
#[derive(Debug)]
pub struct DockerImage {
    pub imagespec: crate::state::ImageSpec,
    pub hash_digest: String,
}

/// An image selected for building but not yet built.
pub struct DockerPreImage {
}

impl TaskSpec {
    /// The image a task requires: none when it runs outside a container,
    /// and a wildcard CUDA requirement names the fixed default CUDA
    /// version.
    pub fn image_candidate(&self) -> (r: Option<crate::state::ImageSpec>)
        ensures
            r == spec_image_candidate(self@),
            r matches Some(im) ==> (self@.cuda_known() ==> im.wf()),
    {
        if !self.require_docker {
            return None;
        }
        let cuda = match self.require_cuda {
            None => None,
            Some(req) => match (req.version, req.cuda) {
                (Version::Exact, Some(v)) => Some(v),
                (Version::AtLeast, Some(v)) => Some(v),
                (Version::Any, None) => Some(CudaVersionV0 { major: 10, minor: 0 }),
                _ => {
                    return None;
                }
            },
        };
        Some(crate::state::ImageSpec {
            cuda,
            distro_codename: self.require_distro.codename,
            distro_id: self.require_distro.codename.to_id(),
            docker: self.require_docker,
            nvidia_docker: self.require_nvidia_docker,
            toolchain: self.toolchain,
        })
    }
}

impl TaskSpec {
    /// Copy a task.
    pub fn dup(&self) -> (r: TaskSpec)
        ensures
            r@ == self@,
    {
        let mut sh: Vec<Vec<u8>> = Vec::new();
        let n = self.sh.len();
        let mut i: usize = 0;
        while i < n
            invariant
                n == self.sh@.len(),
                i <= n,
                sh@.len() == i,
                forall|k: int| 0 <= k < i ==> (#[trigger] sh@[k])@ == self.sh@[k]@,
            decreases n - i,
        {
            let line = crate::bytes::clone_bytes(&self.sh[i]);
            sh.push(line);
            i = i + 1;
        }
        proof {
            assert forall|k: int| 0 <= k < n implies sh.deep_view()[k]
                == self.sh.deep_view()[k] by {
                assert(sh@[k].deep_view() =~= sh@[k]@);
                assert(self.sh@[k].deep_view() =~= self.sh@[k]@);
            }
            assert(sh.deep_view() =~= self.sh.deep_view());
        }
        let r = TaskSpec {
            name: crate::bytes::clone_bytes(&self.name),
            toolchain: self.toolchain,
            require_docker: self.require_docker,
            require_nvidia_docker: self.require_nvidia_docker,
            require_distro: self.require_distro,
            require_cuda: self.require_cuda,
            allow_errors: self.allow_errors,
            sh,
        };
        proof {
            assert(r@ =~= self@);
        }
        r
    }
}

impl TaskSpecV {
    /// Any CUDA version the task requires has a canonical name.
    pub open spec fn cuda_known(self) -> bool {
        self.require_cuda matches Some(req) ==> (req.cuda matches Some(v) ==> v.known())
    }
}

/// The image descriptor a task asks for.
pub open spec fn spec_image_candidate(t: TaskSpecV) -> Option<crate::state::ImageSpec> {
    if !t.require_docker {
        None
    } else {
        let cuda_or_reject: Result<Option<CudaVersionV0>, ()> = match t.require_cuda {
            None => Ok(None),
            Some(req) => match (req.version, req.cuda) {
                (Version::Exact, Some(v)) => Ok(Some(v)),
                (Version::AtLeast, Some(v)) => Ok(Some(v)),
                (Version::Any, None) => Ok(Some(CudaVersionV0 { major: 10, minor: 0 })),
                _ => Err(()),
            },
        };
        match cuda_or_reject {
            Err(_) => None,
            Ok(cuda) => Some(crate::state::ImageSpec {
                cuda,
                distro_codename: t.require_distro.codename,
                distro_id: crate::schema::spec_codename_id(t.require_distro.codename),
                docker: t.require_docker,
                nvidia_docker: t.require_nvidia_docker,
                toolchain: t.toolchain,
            }),
        }
    }
}

/// The shell script that runs a task inside its container: a fixed shell
/// prologue — tracing on, unset variables fatal, pipeline failures fatal,
/// and, unless the task allows errors, any failing command fatal — then
/// the task's command lines, each followed by a line feed.
pub open spec fn spec_task_script(t: TaskSpecV) -> Seq<u8> {
    "#!/bin/sh\n".spec_bytes() + "set -u\n".spec_bytes() + "set -x\n".spec_bytes()
        + "set -o pipefail\n".spec_bytes() + (if t.allow_errors {
        Seq::empty()
    } else {
        "set -e\n".spec_bytes()
    }) + spec_script_lines(t.sh, 0)
}

/// The task's command lines, each followed by a line feed.
pub open spec fn spec_script_lines(sh: Seq<Seq<u8>>, i: int) -> Seq<u8>
    recommends
        0 <= i <= sh.len(),
    decreases sh.len() - i when 0 <= i <= sh.len()
{
    if i >= sh.len() {
        Seq::empty()
    } else {
        sh[i] + seq![10u8] + spec_script_lines(sh, i + 1)
    }
}

impl TaskSpec {
    /// The task's container entry script.
    pub fn task_script(&self) -> (r: Vec<u8>)
        ensures
            r@ == spec_task_script(self@),
    {
        let mut out: Vec<u8> = Vec::new();
        crate::bytes::push_str_bytes(&mut out, "#!/bin/sh\n");
        crate::bytes::push_str_bytes(&mut out, "set -u\n");
        crate::bytes::push_str_bytes(&mut out, "set -x\n");
        crate::bytes::push_str_bytes(&mut out, "set -o pipefail\n");
        if !self.allow_errors {
            crate::bytes::push_str_bytes(&mut out, "set -e\n");
        }
        let ghost prefix = out@;
        let ghost shv = self.sh.deep_view();
        let n = self.sh.len();
        let mut i: usize = 0;
        proof {
            assert(prefix + spec_script_lines(shv, 0) =~= out@ + spec_script_lines(shv, 0));
        }
        while i < n
            invariant
                n == self.sh@.len(),
                i <= n,
                shv == self.sh.deep_view(),
                prefix + spec_script_lines(shv, 0) == out@ + spec_script_lines(shv, i as int),
            decreases n - i,
        {
            proof {
                assert(self.sh@[i as int]@ == shv[i as int]);
            }
            let ghost before = out@;
            crate::bytes::push_bytes(&mut out, self.sh[i].as_slice());
            out.push(10u8);
            proof {
                assert(out@ =~= before + (shv[i as int] + seq![10u8]));
                assert(before + (shv[i as int] + seq![10u8]) + spec_script_lines(shv,
                    i as int + 1) =~= before + spec_script_lines(shv, i as int));
            }
            i = i + 1;
        }
        proof {
            assert(out@ + spec_script_lines(shv, n as int) =~= out@);
            assert(out@ =~= spec_task_script(self@));
        }
        out
    }
}

// ---------------------------------------------------------------------------
// Console output chunking
// ---------------------------------------------------------------------------

/// Accumulates console lines into ordered chunks for delivery to a sink.
///
/// Lines are appended in arrival order, each with a terminating line feed;
/// once the buffer holds at least `buf_sz` bytes a chunk is emitted,
/// carrying a per-task part number that starts at 1 and increases by one
/// with every chunk.
pub struct ChunkBuffer {
    buf: Vec<u8>,
    buf_sz: usize,
    next_part: u64,
}

impl ChunkBuffer {
    /// The bytes accumulated and not yet emitted.
    pub closed spec fn pending(&self) -> Seq<u8> {
        self.buf@
    }

    /// The part number the next chunk will carry.
    pub closed spec fn next_part_nr(&self) -> u64 {
        self.next_part
    }

    /// The emission threshold.
    pub closed spec fn threshold(&self) -> usize {
        self.buf_sz
    }

    pub fn new(buf_sz: usize) -> (r: ChunkBuffer)
        ensures
            r.pending() == Seq::<u8>::empty(),
            r.next_part_nr() == 1,
            r.threshold() == buf_sz,
    {
        ChunkBuffer { buf: Vec::new(), buf_sz, next_part: 1 }
    }

    /// Append one line; emit a chunk once the threshold is reached.  An
    /// emitted chunk holds everything accumulated, in arrival order, and
    /// carries the next part number.
    pub fn push_line(&mut self, line: &[u8]) -> (r: Option<(u64, Vec<u8>)>)
        requires
            old(self).pending().len() + line@.len() + 1 <= usize::MAX,
            old(self).next_part_nr() < u64::MAX,
        ensures
            final(self).threshold() == old(self).threshold(),
            match r {
                Some((part, chunk)) => {
                    &&& part == old(self).next_part_nr()
                    &&& chunk@ == old(self).pending() + line@ + seq![10u8]
                    &&& chunk@.len() >= old(self).threshold()
                    &&& final(self).next_part_nr() == old(self).next_part_nr() + 1
                    &&& final(self).pending() == Seq::<u8>::empty()
                },
                None => {
                    &&& final(self).pending() == old(self).pending() + line@ + seq![10u8]
                    &&& final(self).pending().len() < old(self).threshold()
                    &&& final(self).next_part_nr() == old(self).next_part_nr()
                },
            },
    {
        crate::bytes::push_bytes(&mut self.buf, line);
        self.buf.push(10u8);
        proof {
            assert(self.buf@ =~= old(self).buf@ + line@ + seq![10u8]);
        }
        if self.buf.len() >= self.buf_sz {
            let part = self.next_part;
            let chunk = vstd::slice::slice_to_vec(self.buf.as_slice());
            self.buf = Vec::new();
            self.next_part = part + 1;
            Some((part, chunk))
        } else {
            None
        }
    }

    /// Emit whatever remains, if anything.
    pub fn flush(&mut self) -> (r: Option<(u64, Vec<u8>)>)
        requires
            old(self).next_part_nr() < u64::MAX,
        ensures
            final(self).threshold() == old(self).threshold(),
            final(self).pending() == Seq::<u8>::empty(),
            match r {
                Some((part, chunk)) => {
                    &&& old(self).pending().len() > 0
                    &&& part == old(self).next_part_nr()
                    &&& chunk@ == old(self).pending()
                    &&& final(self).next_part_nr() == old(self).next_part_nr() + 1
                },
                None => old(self).pending().len() == 0 && final(self).next_part_nr() == old(
                    self,
                ).next_part_nr(),
            },
    {
        if self.buf.len() > 0 {
            let part = self.next_part;
            let chunk = vstd::slice::slice_to_vec(self.buf.as_slice());
            self.buf = Vec::new();
            self.next_part = part + 1;
            Some((part, chunk))
        } else {
            None
        }
    }
}

} // verus!
