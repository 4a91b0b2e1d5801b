use mnn::prebuilt::{compile_engine, parse_switch, prebuilt_link_plan, TargetArch, TargetOs};

#[test]
fn compile_switch() {
    assert_eq!(parse_switch("yes"), Some(true));
    assert_eq!(parse_switch("1"), Some(true));
    assert_eq!(parse_switch("true"), Some(true));
    assert_eq!(parse_switch("no"), Some(false));
    assert_eq!(parse_switch("0"), Some(false));
    assert_eq!(parse_switch("false"), Some(false));
    assert_eq!(parse_switch("maybe"), None);
    assert!(compile_engine(None));
    assert!(compile_engine(Some("maybe")));
    assert!(!compile_engine(Some("no")));
    assert!(compile_engine(Some("yes")));
}

#[test]
fn link_plans() {
    let p = prebuilt_link_plan(TargetArch::X86_64, TargetOs::Linux, true, false).unwrap();
    assert_eq!(p.search, vec!["lib", "Debug"]);
    assert_eq!(p.libs, vec!["static=MNN"]);
    let p = prebuilt_link_plan(TargetArch::X86_64, TargetOs::Windows, false, true).unwrap();
    assert_eq!(p.search, vec!["lib", "Release", "static", "MT"]);
    let p = prebuilt_link_plan(TargetArch::Arm, TargetOs::Android, false, false).unwrap();
    assert_eq!(p.search, vec!["armeabi-v7a"]);
    assert_eq!(p.libs.len(), 5);
    let p = prebuilt_link_plan(TargetArch::AArch64, TargetOs::Android, false, false).unwrap();
    assert_eq!(p.search, vec!["arm64-v8a"]);
    let p = prebuilt_link_plan(TargetArch::AArch64, TargetOs::MacOS, false, false).unwrap();
    assert_eq!((p.search, p.libs), (vec!["Static"], vec!["MNN"]));
    let p = prebuilt_link_plan(TargetArch::AArch64, TargetOs::IOS, false, false).unwrap();
    assert_eq!(p.libs, vec!["dylib=MNN"]);
    assert!(prebuilt_link_plan(TargetArch::Other, TargetOs::Other, false, false).is_none());
}
