use mnn::engine_build::{
    build_plan, cmake_definitions, cmake_profile, glue_definitions, macos_frameworks, BuildFeatures, BuildPlan,
    EngineOptions, LinkSource,
};
use mnn::options::CxxOptionValue;

fn none() -> BuildFeatures {
    BuildFeatures {
        vulkan: false,
        metal: false,
        coreml: false,
        opencl: false,
        openmp: false,
        opengl: false,
        crt_static: false,
        threadpool: false,
    }
}

#[test]
fn engine_options_follow_features() {
    let f = BuildFeatures { opengl: true, threadpool: true, ..none() };
    let o = EngineOptions::from_features(f);
    assert_eq!(o.opengl.name, "MNN_OPENGL");
    assert_eq!(o.opengl.value, CxxOptionValue::On);
    assert_eq!(o.crt_static.name, "MNN_WIN_RUNTIME_MT");
    assert_eq!(o.crt_static.value, CxxOptionValue::Off);
    assert_eq!(o.threadpool.value, CxxOptionValue::On);
    let o = EngineOptions::from_features(BuildFeatures { crt_static: true, ..none() });
    assert_eq!(o.crt_static.value, CxxOptionValue::On);
    assert_eq!(o.opengl.value, CxxOptionValue::Off);
}

#[test]
fn cmake_definitions_of_a_build() {
    let defs = cmake_definitions(BuildFeatures { vulkan: true, crt_static: true, ..none() }, false, false);
    assert_eq!(defs.len(), 15);
    assert_eq!(defs[0], ("CMAKE_CXX_STANDARD", "14"));
    assert_eq!(defs[3], ("MNN_PORTABLE_BUILD", "ON"));
    assert_eq!(defs[7], ("MNN_WIN_RUNTIME_MT", "ON"));
    assert_eq!(defs[8], ("MNN_USE_THREAD_POOL", "OFF"));
    assert_eq!(defs[10], ("MNN_VULKAN", "ON"));
    assert_eq!(defs[14], ("MNN_OPENGL", "OFF"));
    let win = cmake_definitions(none(), false, true);
    assert_eq!(win.len(), 16);
    assert_eq!(win[15], ("CMAKE_CXX_FLAGS", "-DWIN32=1"));
    let msvc = cmake_definitions(none(), true, true);
    assert_eq!(msvc.len(), 17);
    assert_eq!(msvc[15], ("CMAKE_MSVC_RUNTIME_LIBRARY", "MultiThreadedDLL"));
    assert_eq!(msvc[16], ("CMAKE_CXX_FLAGS", "-DWIN32=1"));
    assert_eq!(cmake_profile(true), Some("Release"));
    assert_eq!(cmake_profile(false), None);
}

#[test]
fn glue_definitions_and_frameworks() {
    assert!(glue_definitions(none()).is_empty());
    let f = BuildFeatures { opencl: true, vulkan: true, metal: true, ..none() };
    assert_eq!(
        glue_definitions(f),
        vec![("MNN_VULKAN", "1"), ("MNN_METAL", "1"), ("MNN_OPENCL", "ON")]
    );
    assert_eq!(
        macos_frameworks(f),
        vec!["Foundation", "CoreGraphics", "Metal", "OpenCL"]
    );
    assert_eq!(
        macos_frameworks(BuildFeatures { coreml: true, opengl: true, ..none() }),
        vec!["CoreML", "CoreVideo", "OpenGL"]
    );
}

#[test]
fn where_the_engine_comes_from() {
    assert_eq!(
        build_plan(None, true, None, None, None, "/v", None, None),
        Some(BuildPlan::Download { version: "3.0.5".to_string(), force: false })
    );
    assert_eq!(
        build_plan(Some("0"), true, Some("3.4.0"), Some("1"), Some("/src"), "/v", Some("0"), None),
        Some(BuildPlan::Download { version: "3.4.0".to_string(), force: true })
    );
    assert_eq!(
        build_plan(Some("1"), true, Some("3.4.0"), Some("1"), None, "/v", Some("0"), None),
        Some(BuildPlan::System)
    );
    assert_eq!(
        build_plan(Some("1"), false, None, None, None, "/v", Some("0"), None),
        Some(BuildPlan::System)
    );
    assert_eq!(
        build_plan(None, false, None, None, None, "/v", None, None),
        Some(BuildPlan::Vendored { source: "/v".to_string(), link: LinkSource::Compile })
    );
    assert_eq!(
        build_plan(Some("yes"), false, None, None, Some("/src"), "/v", Some("maybe"), Some("/lib")),
        Some(BuildPlan::Vendored { source: "/src".to_string(), link: LinkSource::Compile })
    );
    assert_eq!(
        build_plan(None, false, None, None, None, "/v", Some("no"), Some("/lib")),
        Some(BuildPlan::Vendored {
            source: "/v".to_string(),
            link: LinkSource::LibDir("/lib".to_string())
        })
    );
    assert_eq!(build_plan(None, false, None, None, None, "/v", Some("false"), None), None);
}
