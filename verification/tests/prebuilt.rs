use mnn::prebuilt::{
    checksum_ok, digest_matches, prebuilt_index, source_url, to_hex, url_name_checksum,
    TargetArch, TargetOs,
};

#[test]
fn prebuilt_package_for_linux() {
    let (url, root, sum) = url_name_checksum("3.4.0", TargetArch::X86_64, TargetOs::Linux).unwrap();
    assert_eq!(
        url,
        "https://github.com/alibaba/MNN/releases/download/3.4.0/mnn_3.4.0_linux_x64_cpu_opencl.zip"
    );
    assert_eq!(root, "mnn_3.4.0_linux_x64_cpu_opencl");
    assert_eq!(
        sum,
        "sha256:db42a3ed0eb4af791c872afc0fc82d9a13236a834c557c679fe4c9e39209129b"
    );
}

#[test]
fn prebuilt_package_indices() {
    assert_eq!(prebuilt_index(TargetArch::Arm, TargetOs::Android), Some(0));
    assert_eq!(prebuilt_index(TargetArch::AArch64, TargetOs::Android), Some(0));
    assert_eq!(prebuilt_index(TargetArch::AArch64, TargetOs::IOS), Some(1));
    assert_eq!(prebuilt_index(TargetArch::X86_64, TargetOs::Windows), Some(3));
    assert_eq!(prebuilt_index(TargetArch::AArch64, TargetOs::MacOS), Some(4));
    assert_eq!(prebuilt_index(TargetArch::X86_64, TargetOs::MacOS), Some(4));
    assert_eq!(prebuilt_index(TargetArch::Arm, TargetOs::Linux), None);
    assert!(url_name_checksum("3.4.0", TargetArch::Other, TargetOs::Linux).is_none());
}

#[test]
fn source_archive_url() {
    assert_eq!(
        source_url("3.0.5"),
        "https://api.github.com/repos/alibaba/MNN/zipball/3.0.5"
    );
}

#[test]
fn hex_text() {
    assert_eq!(to_hex(&[0x00, 0x0f, 0xa5, 0xff]), "000fa5ff");
    assert_eq!(to_hex(&[]), "");
}

#[test]
fn checksum_of_known_text() {
    let abc = "sha256:ba7816bf8f01cfea414140de5dae2223b00361a396177a9cb410ff61f20015ad";
    assert!(checksum_ok(b"abc", abc));
    assert!(!checksum_ok(b"abd", abc));
    assert!(checksum_ok(b"anything", "sha256:placeholder"));
    assert!(!checksum_ok(b"abc", "ba7816bf8f01cfea414140de5dae2223b00361a396177a9cb410ff61f20015ad"));
}

#[test]
fn digest_comparison() {
    assert!(digest_matches("sha256:0aff", &[0x0a, 0xff]));
    assert!(!digest_matches("sha256:0AFF", &[0x0a, 0xff]));
    assert!(digest_matches("sha256:placeholder", &[1, 2, 3]));
}
