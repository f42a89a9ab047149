//! Image descriptors, the image manifest and the root manifest.

use guppybot::schema::{CudaVersionV0, DistroCodenameV0, DistroIdV0};
use guppybot::state::{ImageManifest, ImageSpec, ManifestError, RootManifest, Toolchain};

fn cuda(major: u32, minor: u32) -> Option<CudaVersionV0> {
    Some(CudaVersionV0 { major, minor })
}

#[test]
fn toolchain_names_round_trip() {
    for t in [
        Toolchain::Builtin,
        Toolchain::Default,
        Toolchain::Python2,
        Toolchain::Python3,
        Toolchain::RustNightly,
    ] {
        let s = t.to_desc_string();
        assert_eq!(Toolchain::from_desc_str_nocustom(&s), Some(t));
    }
    assert_eq!(Toolchain::from_desc_str_no_builtin("_builtin"), None);
    assert_eq!(
        Toolchain::from_desc_str_no_builtin("python3"),
        Some(Toolchain::Python3)
    );
    assert_eq!(Toolchain::from_desc_str_nocustom("golang"), None);
}

#[test]
fn builtin_default_description_is_canonical() {
    let spec = ImageSpec::builtin_default();
    assert_eq!(
        spec.to_desc(),
        b" distro_codename=alpine_3_8 distro_id=alpine docker toolchain=_builtin".to_vec()
    );
}

#[test]
fn description_orders_every_field() {
    let spec = ImageSpec {
        cuda: cuda(10, 1),
        distro_codename: DistroCodenameV0::UbuntuXenial,
        distro_id: DistroIdV0::Ubuntu,
        docker: true,
        nvidia_docker: true,
        toolchain: Some(Toolchain::RustNightly),
    };
    assert_eq!(
        spec.to_desc(),
        b" cuda=v10_1 distro_codename=ubuntu_xenial distro_id=ubuntu docker nvidia_docker \
toolchain=rust_nightly"
            .to_vec()
    );
}

#[test]
fn hash_digest_is_hex_of_the_keyed_hash() {
    let root = RootManifest::fresh();
    let spec = ImageSpec::builtin_default();
    let d1 = spec.to_hash_digest(&root);
    let d2 = spec.to_hash_digest(&root);
    assert_eq!(d1.len(), 64);
    assert!(d1.chars().all(|c| c.is_ascii_hexdigit()));
    assert_eq!(d1, d2);
    // A different key gives a different identity.
    let other = RootManifest::fresh();
    assert_ne!(spec.to_hash_digest(&other), d1);
}

#[test]
fn base_image_tables() {
    let mut spec = ImageSpec {
        cuda: None,
        distro_codename: DistroCodenameV0::DebianStretch,
        distro_id: DistroIdV0::Debian,
        docker: true,
        nvidia_docker: false,
        toolchain: None,
    };
    assert_eq!(spec.to_docker_base_image(), Some("debian:stretch".to_owned()));
    spec.distro_codename = DistroCodenameV0::Alpine3_9;
    assert_eq!(spec.to_docker_base_image(), Some("alpine:3.9".to_owned()));
    // CUDA without nvidia-docker has no candidate.
    spec.cuda = cuda(10, 0);
    assert_eq!(spec.to_docker_base_image(), None);
    // The nvidia table.
    spec.nvidia_docker = true;
    spec.distro_codename = DistroCodenameV0::UbuntuXenial;
    assert_eq!(
        spec.to_docker_base_image(),
        Some("nvidia/cuda:10.0-devel-ubuntu16.04".to_owned())
    );
    spec.cuda = None;
    assert_eq!(
        spec.to_docker_base_image(),
        Some("nvidia/driver:396.37-ubuntu16.04".to_owned())
    );
    // Unsupported combination.
    spec.distro_codename = DistroCodenameV0::DebianStretch;
    assert_eq!(spec.to_docker_base_image(), None);
    spec.distro_codename = DistroCodenameV0::UbuntuTrusty;
    spec.cuda = cuda(10, 1);
    assert_eq!(spec.to_docker_base_image(), None);
}

#[test]
fn root_manifest_round_trips_with_flag_bits() {
    let mut root = RootManifest::fresh();
    assert!(!root.auth_bit());
    assert!(!root.mach_reg_bit());
    let prev = root.set_auth_bit(true);
    assert!(!prev);
    let bytes = root.serialize();
    assert_eq!(bytes.len(), 33);
    assert_eq!(bytes[32], 0x01);
    let reread = RootManifest::parse(&bytes).expect("33 bytes parse");
    assert!(reread.auth_bit());
    assert!(!reread.mach_reg_bit());
    assert_eq!(reread.key_buf(), root.key_buf());

    let mut root2 = reread;
    root2.set_mach_reg_bit(true);
    let bytes2 = root2.serialize();
    assert_eq!(bytes2[32], 0x03);

    // A missing flag byte reads as both bits clear.
    let key_only = &bytes[..32];
    let bare = RootManifest::parse(key_only).expect("bare key parses");
    assert!(!bare.auth_bit());
    assert!(!bare.mach_reg_bit());

    // Too short to hold a key.
    assert!(RootManifest::parse(&bytes[..31]).is_none());
}

#[test]
fn manifest_round_trips_and_checks_hashes() {
    let root = RootManifest::fresh();
    let mut manifest = ImageManifest::empty();
    manifest.record_built(ImageSpec::builtin_default());
    manifest.record_built(ImageSpec {
        cuda: cuda(9, 2),
        distro_codename: DistroCodenameV0::UbuntuBionic,
        distro_id: DistroIdV0::Ubuntu,
        docker: true,
        nvidia_docker: true,
        toolchain: Some(Toolchain::Default),
    });
    let bytes = manifest.serialize(&root);
    let reread = ImageManifest::parse(&bytes, &root).expect("self-written manifest verifies");
    assert_eq!(reread.imagespecs.len(), 2);
    assert!(reread.imagespecs[0].same(&manifest.imagespecs[0]));
    assert!(reread.imagespecs[1].same(&manifest.imagespecs[1]));

    // Flipping one hash digit breaks the self-check.
    let mut corrupt = bytes.clone();
    corrupt[0] = if corrupt[0] == b'0' { b'1' } else { b'0' };
    assert!(matches!(
        ImageManifest::parse(&corrupt, &root),
        Err(ManifestError::HashMismatch)
    ));

    // Another machine's key rejects the whole file.
    let other = RootManifest::fresh();
    assert!(matches!(
        ImageManifest::parse(&bytes, &other),
        Err(ManifestError::HashMismatch)
    ));

    // An empty file is an empty manifest.
    assert_eq!(
        ImageManifest::parse(b"", &root).expect("empty parses").imagespecs.len(),
        0
    );
}

#[test]
fn manifest_rejects_malformed_lines() {
    let root = RootManifest::fresh();
    assert!(matches!(
        ImageManifest::parse(b"zz\n", &root),
        Err(ManifestError::HashDecode)
    ));
    assert!(matches!(
        ImageManifest::parse(b"abcd\n", &root),
        Err(ManifestError::HashLength)
    ));
    let hash64 = "ab".repeat(32);
    let line = format!("{} docker\n", hash64);
    assert!(matches!(
        ImageManifest::parse(line.as_bytes(), &root),
        Err(ManifestError::MissingDistroCodename)
    ));
    let line2 = format!("{} distro_codename=debian_stretch what=ever\n", hash64);
    assert!(matches!(
        ImageManifest::parse(line2.as_bytes(), &root),
        Err(ManifestError::BadEntry)
    ));
}

#[test]
fn resolving_twice_never_builds_twice() {
    let root = RootManifest::fresh();
    let mut manifest = ImageManifest::empty();
    let spec = ImageSpec::builtin_default();

    // First resolve: a miss, so the caller builds once and records it.
    assert!(manifest.lookup_docker_image(&spec, &root).is_none());
    manifest.record_built(spec);
    let first = manifest
        .lookup_docker_image(&spec, &root)
        .expect("recorded image is found");

    // Second resolve: a hit, no build, and the same digest.
    let second = manifest
        .lookup_docker_image(&spec, &root)
        .expect("still found");
    assert_eq!(first.hash_digest, second.hash_digest);
    assert_eq!(first.hash_digest, spec.to_hash_digest(&root));
    assert!(first.imagespec.same(&second.imagespec));
    assert_eq!(manifest.imagespecs.len(), 1);
}
