//! The task-directive parser.

use guppybot::docker::{ParseError, Version, parse_taskspecs};
use guppybot::schema::{CudaVersionV0, DistroCodenameV0, DistroIdV0};
use guppybot::state::Toolchain;

#[test]
fn parses_one_debian_task() {
    let input = b"#-guppy:v0.task:begin\n\
#-guppy:v0.task:name X\n\
#-guppy:v0.task:require_docker true\n\
#-guppy:v0.task:require_distro debian ==9\n\
#-guppy:v0.task:end\n";
    let tasks = parse_taskspecs(input).expect("directive stream must parse");
    assert_eq!(tasks.len(), 1);
    let t = &tasks[0];
    assert_eq!(t.name, b"X".to_vec());
    assert!(t.require_docker);
    assert!(!t.require_nvidia_docker);
    assert_eq!(t.require_distro.version, Version::Exact);
    assert_eq!(t.require_distro.codename, DistroCodenameV0::DebianStretch);
    assert!(t.require_cuda.is_none());
    assert!(!t.allow_errors);
    assert!(t.sh.is_empty());
}

#[test]
fn shell_line_before_begin_is_a_syntax_error() {
    let input = b"echo hello\n#-guppy:v0.task:begin\n#-guppy:v0.task:end\n";
    assert!(matches!(parse_taskspecs(input), Err(ParseError::Syntax)));
}

#[test]
fn shell_lines_are_kept_verbatim_in_order() {
    let mut input = b"#-guppy:v0.task:begin\n\
#-guppy:v0.task:require_distro ubuntu bionic\n\
make all\n"
        .to_vec();
    input.extend_from_slice(b"  make test  \n");
    input.extend_from_slice(b"#-guppy:v0.task:end\n");
    let tasks = parse_taskspecs(&input).expect("must parse");
    assert_eq!(tasks.len(), 1);
    assert_eq!(tasks[0].sh, vec![b"make all".to_vec(), b"  make test  ".to_vec()]);
    assert_eq!(tasks[0].require_distro.codename, DistroCodenameV0::UbuntuBionic);
}

#[test]
fn task_name_keeps_interior_whitespace() {
    let input = b"#-guppy:v0.task:begin\n\
#-guppy:v0.task:name   build and  test\n\
#-guppy:v0.task:require_distro debian stretch\n\
#-guppy:v0.task:end\n";
    let tasks = parse_taskspecs(input).expect("must parse");
    assert_eq!(tasks[0].name, b"build and  test".to_vec());
}

#[test]
fn cuda_wildcard_and_comparators() {
    let input = b"#-guppy:v0.task:begin\n\
#-guppy:v0.task:require_distro ubuntu >=16.04\n\
#-guppy:v0.task:require_cuda *\n\
#-guppy:v0.task:end\n\
#-guppy:v0.task:begin\n\
#-guppy:v0.task:require_distro ubuntu xenial\n\
#-guppy:v0.task:require_cuda >=9.2\n\
#-guppy:v0.task:end\n";
    let tasks = parse_taskspecs(input).expect("must parse");
    assert_eq!(tasks.len(), 2);
    let c0 = tasks[0].require_cuda.unwrap();
    assert_eq!(c0.version, Version::Any);
    assert!(c0.cuda.is_none());
    assert_eq!(tasks[0].require_distro.version, Version::AtLeast);
    let c1 = tasks[1].require_cuda.unwrap();
    assert_eq!(c1.version, Version::AtLeast);
    assert_eq!(c1.cuda, Some(CudaVersionV0 { major: 9, minor: 2 }));
}

#[test]
fn end_without_begin_fails() {
    assert!(matches!(parse_taskspecs(b"#-guppy:v0.task:end\n"), Err(ParseError::Syntax)));
}

#[test]
fn second_begin_fails() {
    let input = b"#-guppy:v0.task:begin\n#-guppy:v0.task:begin\n";
    assert!(matches!(parse_taskspecs(input), Err(ParseError::Syntax)));
}

#[test]
fn unterminated_block_fails() {
    let input = b"#-guppy:v0.task:begin\n#-guppy:v0.task:require_distro centos 7\n";
    assert!(matches!(parse_taskspecs(input), Err(ParseError::Syntax)));
}

#[test]
fn missing_distro_fails_at_end() {
    let input = b"#-guppy:v0.task:begin\n#-guppy:v0.task:end\n";
    assert!(matches!(parse_taskspecs(input), Err(ParseError::MissingDistro)));
}

#[test]
fn bad_bool_and_missing_arguments() {
    let input = b"#-guppy:v0.task:begin\n#-guppy:v0.task:require_docker maybe\n";
    assert!(matches!(parse_taskspecs(input), Err(ParseError::BadBool)));
    let input2 = b"#-guppy:v0.task:begin\n#-guppy:v0.task:require_docker\n";
    assert!(matches!(parse_taskspecs(input2), Err(ParseError::MissingArgument)));
    let input3 = b"#-guppy:v0.task:begin\n#-guppy:v0.task:name\n";
    assert!(matches!(parse_taskspecs(input3), Err(ParseError::MissingArgument)));
}

#[test]
fn unknown_names_fail_with_their_errors() {
    let base = b"#-guppy:v0.task:begin\n".to_vec();
    let mut a = base.clone();
    a.extend_from_slice(b"#-guppy:v0.task:toolchain _builtin\n");
    assert!(matches!(parse_taskspecs(&a), Err(ParseError::UnknownToolchain)));
    let mut b = base.clone();
    b.extend_from_slice(b"#-guppy:v0.task:require_distro gentoo 1\n");
    assert!(matches!(parse_taskspecs(&b), Err(ParseError::UnknownDistro)));
    let mut c = base.clone();
    c.extend_from_slice(b"#-guppy:v0.task:require_distro debian ==11\n");
    assert!(matches!(parse_taskspecs(&c), Err(ParseError::UnknownDistroVersion)));
    let mut d = base.clone();
    d.extend_from_slice(b"#-guppy:v0.task:require_cuda ==11.0\n");
    assert!(matches!(parse_taskspecs(&d), Err(ParseError::UnknownCudaVersion)));
}

#[test]
fn gpu_arch_accepts_only_the_wildcard() {
    let ok = b"#-guppy:v0.task:begin\n\
#-guppy:v0.task:require_gpu_arch *\n\
#-guppy:v0.task:require_distro centos 6\n\
#-guppy:v0.task:end\n";
    assert_eq!(parse_taskspecs(ok).expect("must parse").len(), 1);
    let bad = b"#-guppy:v0.task:begin\n#-guppy:v0.task:require_gpu_arch sm_70\n";
    assert!(matches!(parse_taskspecs(bad), Err(ParseError::Syntax)));
}

#[test]
fn ignored_and_unsupported_directives() {
    let ok = b"#-guppy:v0.pre_run\n\
#-guppy:v0.task:begin\n\
#-guppy:v0.post_run:whatever\n\
#-guppy:v0.task:require_distro alpine 3.8\n\
#-guppy:v0.task:end\n";
    assert_eq!(parse_taskspecs(ok).expect("must parse").len(), 1);
    let cache = b"#-guppy:v0.mutable_cache:append x y\n";
    assert!(matches!(parse_taskspecs(cache), Err(ParseError::UnsupportedDirective)));
    let unversioned = b"#-guppy:task:begin\n";
    assert!(matches!(parse_taskspecs(unversioned), Err(ParseError::Syntax)));
    let empty_rest = b"#-guppy:v0.task\n";
    assert!(matches!(parse_taskspecs(empty_rest), Err(ParseError::Syntax)));
}

#[test]
fn toolchain_and_allow_errors_are_recorded() {
    let input = b"#-guppy:v0.task:begin\n\
#-guppy:v0.task:toolchain rust_nightly\n\
#-guppy:v0.task:allow_errors true\n\
#-guppy:v0.task:require_distro debian buster\n\
#-guppy:v0.task:end\n";
    let tasks = parse_taskspecs(input).expect("must parse");
    assert_eq!(tasks[0].toolchain, Some(Toolchain::RustNightly));
    assert!(tasks[0].allow_errors);
}

#[test]
fn image_candidate_follows_the_requirements() {
    let input = b"#-guppy:v0.task:begin\n\
#-guppy:v0.task:require_docker true\n\
#-guppy:v0.task:require_nvidia_docker true\n\
#-guppy:v0.task:require_distro ubuntu xenial\n\
#-guppy:v0.task:require_cuda *\n\
#-guppy:v0.task:end\n";
    let tasks = parse_taskspecs(input).expect("must parse");
    let im = tasks[0].image_candidate().expect("docker task has a candidate");
    assert_eq!(im.cuda, Some(CudaVersionV0 { major: 10, minor: 0 }));
    assert_eq!(im.distro_codename, DistroCodenameV0::UbuntuXenial);
    assert_eq!(im.distro_id, DistroIdV0::Ubuntu);
    assert!(im.docker);
    assert!(im.nvidia_docker);
}

#[test]
fn no_docker_means_no_image_candidate() {
    let input = b"#-guppy:v0.task:begin\n\
#-guppy:v0.task:require_distro debian jessie\n\
#-guppy:v0.task:end\n";
    let tasks = parse_taskspecs(input).expect("must parse");
    assert!(tasks[0].image_candidate().is_none());
}

#[test]
fn task_script_prologue_follows_allow_errors() {
    let input = b"#-guppy:v0.task:begin\n\
#-guppy:v0.task:require_distro debian stretch\n\
echo one\n\
#-guppy:v0.task:end\n";
    let tasks = parse_taskspecs(input).expect("must parse");
    let script = tasks[0].task_script();
    let expected = b"#!/bin/sh\nset -u\nset -x\nset -o pipefail\nset -e\necho one\n".to_vec();
    assert_eq!(script, expected);
    let mut lax = tasks[0].dup();
    lax.allow_errors = true;
    let script2 = lax.task_script();
    let expected2 = b"#!/bin/sh\nset -u\nset -x\nset -o pipefail\necho one\n".to_vec();
    assert_eq!(script2, expected2);
}
