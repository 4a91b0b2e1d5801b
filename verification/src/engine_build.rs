//! How the native engine is built: where its source comes from and how it is linked,
//! which build options the requested features turn on, and the definitions handed to
//! CMake, to the C++ compiler of the C glue and to the macOS linker.
use vstd::prelude::*;
use vstd::string::*;

use crate::options::{spec_cmake_value, CxxOption, CxxOptionValue};
use crate::prebuilt::{spec_switch, spec_texts};

verus! {

broadcast use vstd::seq_lib::lemma_seq_concat_contains_all_elements;

/// The engine features that the build was asked for.
#[derive(Debug, Clone, Copy, PartialEq, Eq)]
pub struct BuildFeatures {
    pub vulkan: bool,
    pub metal: bool,
    pub coreml: bool,
    pub opencl: bool,
    pub openmp: bool,
    pub opengl: bool,
    /// Link the C runtime statically on Windows.
    pub crt_static: bool,
    /// Use the engine's own thread pool.
    pub threadpool: bool,
}

/// The features of a build that asks for none: the engine's own thread pool only.
pub open spec fn spec_default_features() -> BuildFeatures {
    BuildFeatures {
        vulkan: false,
        metal: false,
        coreml: false,
        opencl: false,
        openmp: false,
        opengl: false,
        crt_static: false,
        threadpool: true,
    }
}

/// The features of a build that asks for none: the engine's own thread pool only.
pub fn default_features() -> (f: BuildFeatures)
    ensures
        f == spec_default_features(),
{
    BuildFeatures {
        vulkan: false,
        metal: false,
        coreml: false,
        opencl: false,
        openmp: false,
        opengl: false,
        crt_static: false,
        threadpool: true,
    }
}

/// The option is named `name` and is on exactly when `on` holds.
pub open spec fn spec_option_is(o: CxxOption, name: Seq<char>, on: bool) -> bool {
    o.name@ == name && o.value == CxxOptionValue::spec_from_bool(on)
}

/// The build options of the engine for the requested features.
#[derive(Debug, Clone, Copy)]
pub struct EngineOptions {
    pub vulkan: CxxOption,
    pub metal: CxxOption,
    pub coreml: CxxOption,
    pub opencl: CxxOption,
    pub openmp: CxxOption,
    pub opengl: CxxOption,
    pub crt_static: CxxOption,
    pub threadpool: CxxOption,
}

impl EngineOptions {
    /// The options for the features: each engine option is on exactly when its
    /// feature is requested; the static C runtime follows the `crt_static` feature.
    pub fn from_features(f: BuildFeatures) -> (o: Self)
        ensures
            spec_option_is(o.vulkan, "MNN_VULKAN"@, f.vulkan),
            spec_option_is(o.metal, "MNN_METAL"@, f.metal),
            spec_option_is(o.coreml, "MNN_COREML"@, f.coreml),
            spec_option_is(o.opencl, "MNN_OPENCL"@, f.opencl),
            spec_option_is(o.openmp, "MNN_OPENMP"@, f.openmp),
            spec_option_is(o.opengl, "MNN_OPENGL"@, f.opengl),
            spec_option_is(o.crt_static, "MNN_WIN_RUNTIME_MT"@, f.crt_static),
            spec_option_is(o.threadpool, "MNN_USE_THREAD_POOL"@, f.threadpool),
    {
        EngineOptions {
            vulkan: CxxOption::from_bool("MNN_VULKAN", f.vulkan),
            metal: CxxOption::from_bool("MNN_METAL", f.metal),
            coreml: CxxOption::from_bool("MNN_COREML", f.coreml),
            opencl: CxxOption::from_bool("MNN_OPENCL", f.opencl),
            openmp: CxxOption::from_bool("MNN_OPENMP", f.openmp),
            opengl: CxxOption::from_bool("MNN_OPENGL", f.opengl),
            crt_static: CxxOption::from_bool("MNN_WIN_RUNTIME_MT", f.crt_static),
            threadpool: CxxOption::from_bool("MNN_USE_THREAD_POOL", f.threadpool),
        }
    }
}

/// The texts of a list of pairs of static strings.
pub open spec fn spec_pairs(v: Seq<(&'static str, &'static str)>) -> Seq<(Seq<char>, Seq<char>)> {
    v.map_values(|p: (&'static str, &'static str)| (p.0@, p.1@))
}

/// `ON` when the switch holds, `OFF` otherwise.
pub open spec fn spec_on_off(b: bool) -> Seq<char> {
    spec_cmake_value(CxxOptionValue::spec_from_bool(b))
}

/// The CMake definitions of the engine build, in order: the fixed settings of a
/// static, portable build without the converter and tools, then the option of each
/// feature; when the build runs on a Windows host with the MSVC toolchain, the
/// multithreaded DLL runtime; and for a Windows target the flag that defines `WIN32`.
pub open spec fn spec_cmake_definitions(f: BuildFeatures, msvc_host: bool, windows: bool) -> Seq<
    (Seq<char>, Seq<char>),
> {
    seq![
        ("CMAKE_CXX_STANDARD"@, "14"@),
        ("MNN_BUILD_SHARED_LIBS"@, "OFF"@),
        ("MNN_SEP_BUILD"@, "OFF"@),
        ("MNN_PORTABLE_BUILD"@, "ON"@),
        ("MNN_USE_SYSTEM_LIB"@, "OFF"@),
        ("MNN_BUILD_CONVERTER"@, "OFF"@),
        ("MNN_BUILD_TOOLS"@, "OFF"@),
        ("MNN_WIN_RUNTIME_MT"@, spec_on_off(f.crt_static)),
        ("MNN_USE_THREAD_POOL"@, spec_on_off(f.threadpool)),
        ("MNN_OPENMP"@, spec_on_off(f.openmp)),
        ("MNN_VULKAN"@, spec_on_off(f.vulkan)),
        ("MNN_METAL"@, spec_on_off(f.metal)),
        ("MNN_COREML"@, spec_on_off(f.coreml)),
        ("MNN_OPENCL"@, spec_on_off(f.opencl)),
        ("MNN_OPENGL"@, spec_on_off(f.opengl)),
    ] + (if msvc_host {
        seq![("CMAKE_MSVC_RUNTIME_LIBRARY"@, "MultiThreadedDLL"@)]
    } else {
        Seq::empty()
    }) + if windows {
        seq![("CMAKE_CXX_FLAGS"@, "-DWIN32=1"@)]
    } else {
        Seq::empty()
    }
}

/// The CMake build profile: `Release` when the build runs on a Windows host with the
/// MSVC toolchain, else the one CMake picks for the build.
pub fn cmake_profile(msvc_host: bool) -> (p: Option<&'static str>)
    ensures
        msvc_host ==> (p matches Some(s) && s@ == "Release"@),
        !msvc_host ==> p is None,
{
    if msvc_host {
        Some("Release")
    } else {
        None
    }
}

/// The CMake definitions of the engine build for the features, on a build host with
/// or without the MSVC toolchain, for a Windows target or not; the install prefix, a
/// path of the build machine, is added by the caller.
pub fn cmake_definitions(f: BuildFeatures, msvc_host: bool, windows: bool) -> (v: Vec<
    (&'static str, &'static str),
>)
    ensures
        spec_pairs(v@) == spec_cmake_definitions(f, msvc_host, windows),
{
    let o = EngineOptions::from_features(f);
    let mut v: Vec<(&'static str, &'static str)> = Vec::new();
    v.push(("CMAKE_CXX_STANDARD", "14"));
    v.push(("MNN_BUILD_SHARED_LIBS", "OFF"));
    v.push(("MNN_SEP_BUILD", "OFF"));
    v.push(("MNN_PORTABLE_BUILD", "ON"));
    v.push(("MNN_USE_SYSTEM_LIB", "OFF"));
    v.push(("MNN_BUILD_CONVERTER", "OFF"));
    v.push(("MNN_BUILD_TOOLS", "OFF"));
    v.push(("MNN_WIN_RUNTIME_MT", o.crt_static.cmake_value()));
    v.push(("MNN_USE_THREAD_POOL", o.threadpool.cmake_value()));
    v.push(("MNN_OPENMP", o.openmp.cmake_value()));
    v.push(("MNN_VULKAN", o.vulkan.cmake_value()));
    v.push(("MNN_METAL", o.metal.cmake_value()));
    v.push(("MNN_COREML", o.coreml.cmake_value()));
    v.push(("MNN_OPENCL", o.opencl.cmake_value()));
    v.push(("MNN_OPENGL", o.opengl.cmake_value()));
    if msvc_host {
        v.push(("CMAKE_MSVC_RUNTIME_LIBRARY", "MultiThreadedDLL"));
    }
    if windows {
        v.push(("CMAKE_CXX_FLAGS", "-DWIN32=1"));
    }
    assert(spec_pairs(v@) =~= spec_cmake_definitions(f, msvc_host, windows));
    v
}

/// `ON` when the switch holds, `OFF` otherwise, as CMake writes a switch.
pub open spec fn spec_switch_text(b: bool) -> Seq<char> {
    if b {
        "ON"@
    } else {
        "OFF"@
    }
}

/// The definitions give `name` the value `value`: the pair is among them, and every
/// pair with that name carries that value.
pub open spec fn spec_defines(
    defs: Seq<(Seq<char>, Seq<char>)>,
    name: Seq<char>,
    value: Seq<char>,
) -> bool {
    &&& defs.contains((name, value))
    &&& forall|i: int| 0 <= i < defs.len() && (#[trigger] defs[i]).0 == name ==> defs[i].1 == value
}

/// Each feature's build option carries that feature's own switch in the CMake
/// definitions: Vulkan, Metal, CoreML, OpenCL, OpenMP and OpenGL are on exactly when
/// their feature is requested, the static Windows runtime exactly with `crt_static`,
/// and the engine's thread pool exactly with `threadpool`, whatever the host and
/// the target.
pub proof fn lemma_cmake_feature_switches(f: BuildFeatures, msvc_host: bool, windows: bool)
    ensures
        spec_defines(spec_cmake_definitions(f, msvc_host, windows), "MNN_VULKAN"@, spec_switch_text(f.vulkan)),
        spec_defines(spec_cmake_definitions(f, msvc_host, windows), "MNN_METAL"@, spec_switch_text(f.metal)),
        spec_defines(spec_cmake_definitions(f, msvc_host, windows), "MNN_COREML"@, spec_switch_text(f.coreml)),
        spec_defines(spec_cmake_definitions(f, msvc_host, windows), "MNN_OPENCL"@, spec_switch_text(f.opencl)),
        spec_defines(spec_cmake_definitions(f, msvc_host, windows), "MNN_OPENMP"@, spec_switch_text(f.openmp)),
        spec_defines(spec_cmake_definitions(f, msvc_host, windows), "MNN_OPENGL"@, spec_switch_text(f.opengl)),
        spec_defines(
            spec_cmake_definitions(f, msvc_host, windows),
            "MNN_WIN_RUNTIME_MT"@,
            spec_switch_text(f.crt_static),
        ),
        spec_defines(
            spec_cmake_definitions(f, msvc_host, windows),
            "MNN_USE_THREAD_POOL"@,
            spec_switch_text(f.threadpool),
        ),
{
    let d = spec_cmake_definitions(f, msvc_host, windows);
    reveal_strlit("CMAKE_CXX_STANDARD");
    reveal_strlit("MNN_BUILD_SHARED_LIBS");
    reveal_strlit("MNN_SEP_BUILD");
    reveal_strlit("MNN_PORTABLE_BUILD");
    reveal_strlit("MNN_USE_SYSTEM_LIB");
    reveal_strlit("MNN_BUILD_CONVERTER");
    reveal_strlit("MNN_BUILD_TOOLS");
    reveal_strlit("MNN_WIN_RUNTIME_MT");
    reveal_strlit("MNN_USE_THREAD_POOL");
    reveal_strlit("MNN_OPENMP");
    reveal_strlit("MNN_VULKAN");
    reveal_strlit("MNN_METAL");
    reveal_strlit("MNN_COREML");
    reveal_strlit("MNN_OPENCL");
    reveal_strlit("MNN_OPENGL");
    reveal_strlit("CMAKE_MSVC_RUNTIME_LIBRARY");
    reveal_strlit("CMAKE_CXX_FLAGS");
    reveal_strlit("ON");
    reveal_strlit("OFF");
    assert(spec_on_off(true) == "ON"@ && spec_on_off(false) == "OFF"@);
    let names = seq![
        "CMAKE_CXX_STANDARD"@,
        "MNN_BUILD_SHARED_LIBS"@,
        "MNN_SEP_BUILD"@,
        "MNN_PORTABLE_BUILD"@,
        "MNN_USE_SYSTEM_LIB"@,
        "MNN_BUILD_CONVERTER"@,
        "MNN_BUILD_TOOLS"@,
        "MNN_WIN_RUNTIME_MT"@,
        "MNN_USE_THREAD_POOL"@,
        "MNN_OPENMP"@,
        "MNN_VULKAN"@,
        "MNN_METAL"@,
        "MNN_COREML"@,
        "MNN_OPENCL"@,
        "MNN_OPENGL"@,
    ];
    assert forall|i: int| 0 <= i < d.len() implies (#[trigger] d[i]).0 == (if i < 15 {
        names[i]
    } else if i == 15 && msvc_host {
        "CMAKE_MSVC_RUNTIME_LIBRARY"@
    } else {
        "CMAKE_CXX_FLAGS"@
    }) by {}
    // Names of the same length differ at the fifth or the ninth character; the
    // others differ in length.
    assert forall|i: int, j: int| 0 <= i < 15 && 0 <= j < 15 && i != j implies names[i] != names[j] by {
        if names[i].len() == names[j].len() {
            assert(names[i][0] != names[j][0] || names[i][4] != names[j][4] || names[i][8]
                != names[j][8]);
        }
    }
    assert(d[7] == ("MNN_WIN_RUNTIME_MT"@, spec_switch_text(f.crt_static)));
    assert(d[8] == ("MNN_USE_THREAD_POOL"@, spec_switch_text(f.threadpool)));
    assert(d[9] == ("MNN_OPENMP"@, spec_switch_text(f.openmp)));
    assert(d[10] == ("MNN_VULKAN"@, spec_switch_text(f.vulkan)));
    assert(d[11] == ("MNN_METAL"@, spec_switch_text(f.metal)));
    assert(d[12] == ("MNN_COREML"@, spec_switch_text(f.coreml)));
    assert(d[13] == ("MNN_OPENCL"@, spec_switch_text(f.opencl)));
    assert(d[14] == ("MNN_OPENGL"@, spec_switch_text(f.opengl)));
    assert forall|i: int| 0 <= i < d.len() && (#[trigger] d[i]).0 == "MNN_WIN_RUNTIME_MT"@ implies i == 7 by {
        if i < 15 && i != 7 {
            assert(names[i] != names[7]);
        }
        if i >= 15 {
            assert(d[i].0[0] != "MNN_WIN_RUNTIME_MT"@[0]);
        }
    }
    assert forall|i: int| 0 <= i < d.len() && (#[trigger] d[i]).0 == "MNN_USE_THREAD_POOL"@ implies i == 8 by {
        if i < 15 && i != 8 {
            assert(names[i] != names[8]);
        }
        if i >= 15 {
            assert(d[i].0[0] != "MNN_USE_THREAD_POOL"@[0]);
        }
    }
    assert forall|i: int| 0 <= i < d.len() && (#[trigger] d[i]).0 == "MNN_OPENMP"@ implies i == 9 by {
        if i < 15 && i != 9 {
            assert(names[i] != names[9]);
        }
        if i >= 15 {
            assert(d[i].0[0] != "MNN_OPENMP"@[0]);
        }
    }
    assert forall|i: int| 0 <= i < d.len() && (#[trigger] d[i]).0 == "MNN_VULKAN"@ implies i == 10 by {
        if i < 15 && i != 10 {
            assert(names[i] != names[10]);
        }
        if i >= 15 {
            assert(d[i].0[0] != "MNN_VULKAN"@[0]);
        }
    }
    assert forall|i: int| 0 <= i < d.len() && (#[trigger] d[i]).0 == "MNN_METAL"@ implies i == 11 by {
        if i < 15 && i != 11 {
            assert(names[i] != names[11]);
        }
        if i >= 15 {
            assert(d[i].0[0] != "MNN_METAL"@[0]);
        }
    }
    assert forall|i: int| 0 <= i < d.len() && (#[trigger] d[i]).0 == "MNN_COREML"@ implies i == 12 by {
        if i < 15 && i != 12 {
            assert(names[i] != names[12]);
        }
        if i >= 15 {
            assert(d[i].0[0] != "MNN_COREML"@[0]);
        }
    }
    assert forall|i: int| 0 <= i < d.len() && (#[trigger] d[i]).0 == "MNN_OPENCL"@ implies i == 13 by {
        if i < 15 && i != 13 {
            assert(names[i] != names[13]);
        }
        if i >= 15 {
            assert(d[i].0[0] != "MNN_OPENCL"@[0]);
        }
    }
    assert forall|i: int| 0 <= i < d.len() && (#[trigger] d[i]).0 == "MNN_OPENGL"@ implies i == 14 by {
        if i < 15 && i != 14 {
            assert(names[i] != names[14]);
        }
        if i >= 15 {
            assert(d[i].0[0] != "MNN_OPENGL"@[0]);
        }
    }
}

/// The pair when the switch holds, nothing otherwise.
pub open spec fn spec_when(b: bool, name: Seq<char>, value: Seq<char>) -> Seq<(Seq<char>, Seq<char>)> {
    if b {
        seq![(name, value)]
    } else {
        Seq::empty()
    }
}

/// The definitions handed to the C++ compiler of the C glue, in order: one for each
/// requested backend among Vulkan, OpenGL, Metal, CoreML and OpenCL.
pub open spec fn spec_glue_definitions(f: BuildFeatures) -> Seq<(Seq<char>, Seq<char>)> {
    spec_when(f.vulkan, "MNN_VULKAN"@, "1"@) + spec_when(f.opengl, "MNN_OPENGL"@, "1"@)
        + spec_when(f.metal, "MNN_METAL"@, "1"@) + spec_when(f.coreml, "MNN_COREML"@, "1"@)
        + spec_when(f.opencl, "MNN_OPENCL"@, "ON"@)
}

/// The definitions handed to the C++ compiler of the C glue for the features.
pub fn glue_definitions(f: BuildFeatures) -> (v: Vec<(&'static str, &'static str)>)
    ensures
        spec_pairs(v@) == spec_glue_definitions(f),
{
    let mut v: Vec<(&'static str, &'static str)> = Vec::new();
    if f.vulkan {
        v.push(("MNN_VULKAN", "1"));
    }
    if f.opengl {
        v.push(("MNN_OPENGL", "1"));
    }
    if f.metal {
        v.push(("MNN_METAL", "1"));
    }
    if f.coreml {
        v.push(("MNN_COREML", "1"));
    }
    if f.opencl {
        v.push(("MNN_OPENCL", "ON"));
    }
    assert(spec_pairs(v@) =~= spec_glue_definitions(f));
    v
}

/// The frameworks linked on macOS, in order: Foundation, CoreGraphics and Metal for
/// Metal, CoreML and CoreVideo for CoreML, OpenCL and OpenGL for theirs.
pub open spec fn spec_macos_frameworks(f: BuildFeatures) -> Seq<Seq<char>> {
    (if f.metal {
        seq!["Foundation"@, "CoreGraphics"@, "Metal"@]
    } else {
        Seq::empty()
    }) + (if f.coreml {
        seq!["CoreML"@, "CoreVideo"@]
    } else {
        Seq::empty()
    }) + (if f.opencl {
        seq!["OpenCL"@]
    } else {
        Seq::empty()
    }) + (if f.opengl {
        seq!["OpenGL"@]
    } else {
        Seq::empty()
    })
}

/// No definition has that name.
pub open spec fn spec_undefined(defs: Seq<(Seq<char>, Seq<char>)>, name: Seq<char>) -> bool {
    forall|i: int| 0 <= i < defs.len() ==> (#[trigger] defs[i]).0 != name
}

/// What a pair that is present only when the switch holds contains.
proof fn lemma_when_contains(b: bool, name: Seq<char>, value: Seq<char>, p: (Seq<char>, Seq<char>))
    ensures
        spec_when(b, name, value).contains(p) <==> (b && p == (name, value)),
{
    if b && p == (name, value) {
        assert(spec_when(b, name, value)[0] == p);
    }
}

/// Each requested backend, and no other, gets its definition for the C glue: `1`
/// for Vulkan, OpenGL, Metal and CoreML, `ON` for OpenCL. On macOS the frameworks of
/// each requested backend, and no others, are linked: Foundation, CoreGraphics and
/// Metal for Metal, CoreML and CoreVideo for CoreML, OpenCL and OpenGL for theirs.
pub proof fn lemma_glue_and_frameworks(f: BuildFeatures)
    ensures
        f.vulkan ==> spec_defines(spec_glue_definitions(f), "MNN_VULKAN"@, "1"@),
        !f.vulkan ==> spec_undefined(spec_glue_definitions(f), "MNN_VULKAN"@),
        f.opengl ==> spec_defines(spec_glue_definitions(f), "MNN_OPENGL"@, "1"@),
        !f.opengl ==> spec_undefined(spec_glue_definitions(f), "MNN_OPENGL"@),
        f.metal ==> spec_defines(spec_glue_definitions(f), "MNN_METAL"@, "1"@),
        !f.metal ==> spec_undefined(spec_glue_definitions(f), "MNN_METAL"@),
        f.coreml ==> spec_defines(spec_glue_definitions(f), "MNN_COREML"@, "1"@),
        !f.coreml ==> spec_undefined(spec_glue_definitions(f), "MNN_COREML"@),
        f.opencl ==> spec_defines(spec_glue_definitions(f), "MNN_OPENCL"@, "ON"@),
        !f.opencl ==> spec_undefined(spec_glue_definitions(f), "MNN_OPENCL"@),
        spec_macos_frameworks(f).contains("Foundation"@) <==> f.metal,
        spec_macos_frameworks(f).contains("CoreGraphics"@) <==> f.metal,
        spec_macos_frameworks(f).contains("Metal"@) <==> f.metal,
        spec_macos_frameworks(f).contains("CoreML"@) <==> f.coreml,
        spec_macos_frameworks(f).contains("CoreVideo"@) <==> f.coreml,
        spec_macos_frameworks(f).contains("OpenCL"@) <==> f.opencl,
        spec_macos_frameworks(f).contains("OpenGL"@) <==> f.opengl,
{
    reveal_strlit("MNN_VULKAN");
    reveal_strlit("MNN_OPENGL");
    reveal_strlit("MNN_METAL");
    reveal_strlit("MNN_COREML");
    reveal_strlit("MNN_OPENCL");
    reveal_strlit("Foundation");
    reveal_strlit("CoreGraphics");
    reveal_strlit("Metal");
    reveal_strlit("CoreML");
    reveal_strlit("CoreVideo");
    reveal_strlit("OpenCL");
    reveal_strlit("OpenGL");
    let g = spec_glue_definitions(f);
    let names = seq!["MNN_VULKAN"@, "MNN_OPENGL"@, "MNN_METAL"@, "MNN_COREML"@, "MNN_OPENCL"@];
    let values = seq!["1"@, "1"@, "1"@, "1"@, "ON"@];
    let on = seq![f.vulkan, f.opengl, f.metal, f.coreml, f.opencl];
    assert(g == spec_when(on[0], names[0], values[0]) + spec_when(on[1], names[1], values[1])
        + spec_when(on[2], names[2], values[2]) + spec_when(on[3], names[3], values[3]) + spec_when(
        on[4],
        names[4],
        values[4],
    ));
    assert forall|p: (Seq<char>, Seq<char>)| #[trigger] g.contains(p) <==> exists|k: int|
        0 <= k < 5 && on[k] && p == (names[k], values[k]) by {
        lemma_when_contains(on[0], names[0], values[0], p);
        lemma_when_contains(on[1], names[1], values[1], p);
        lemma_when_contains(on[2], names[2], values[2], p);
        lemma_when_contains(on[3], names[3], values[3], p);
        lemma_when_contains(on[4], names[4], values[4], p);
        if g.contains(p) {
            if on[0] && p == (names[0], values[0]) {
                assert(0 <= 0int < 5 && on[0] && p == (names[0], values[0]));
            } else if on[1] && p == (names[1], values[1]) {
                assert(0 <= 1int < 5 && on[1] && p == (names[1], values[1]));
            } else if on[2] && p == (names[2], values[2]) {
                assert(0 <= 2int < 5 && on[2] && p == (names[2], values[2]));
            } else if on[3] && p == (names[3], values[3]) {
                assert(0 <= 3int < 5 && on[3] && p == (names[3], values[3]));
            } else {
                assert(0 <= 4int < 5 && on[4] && p == (names[4], values[4]));
            }
        }
    }
    assert forall|k: int, j: int| 0 <= k < 5 && 0 <= j < 5 && k != j implies names[k] != names[j] by {
        if names[k].len() == names[j].len() {
            assert(names[k][4] != names[j][4] || names[k][8] != names[j][8]);
        }
    }
    assert forall|k: int| 0 <= k < 5 implies {
        &&& on[k] ==> spec_defines(g, names[k], values[k])
        &&& !on[k] ==> spec_undefined(g, names[k])
    } by {
        if on[k] {
            assert(g.contains((names[k], values[k])));
        }
        assert forall|i: int| 0 <= i < g.len() && (#[trigger] g[i]).0 == names[k] implies on[k]
            && g[i].1 == values[k] by {
            assert(g.contains(g[i]));
            let t = choose|t: int| 0 <= t < 5 && on[t] && g[i] == (names[t], values[t]);
            assert(t == k);
        }
    }
    assert(on[0] == f.vulkan && names[0] == "MNN_VULKAN"@ && values[0] == "1"@);
    assert(on[1] == f.opengl && names[1] == "MNN_OPENGL"@ && values[1] == "1"@);
    assert(on[2] == f.metal && names[2] == "MNN_METAL"@ && values[2] == "1"@);
    assert(on[3] == f.coreml && names[3] == "MNN_COREML"@ && values[3] == "1"@);
    assert(on[4] == f.opencl && names[4] == "MNN_OPENCL"@ && values[4] == "ON"@);
    let fw = seq![
        "Foundation"@,
        "CoreGraphics"@,
        "Metal"@,
        "CoreML"@,
        "CoreVideo"@,
        "OpenCL"@,
        "OpenGL"@,
    ];
    let fw_on = seq![f.metal, f.metal, f.metal, f.coreml, f.coreml, f.opencl, f.opengl];
    assert forall|k: int, j: int| 0 <= k < 7 && 0 <= j < 7 && k != j implies fw[k] != fw[j] by {
        if fw[k].len() == fw[j].len() {
            assert(fw[k][0] != fw[j][0] || fw[k][4] != fw[j][4] || fw[k][5] != fw[j][5]);
        }
    }
    let l = spec_macos_frameworks(f);
    assert forall|x: Seq<char>| #[trigger] l.contains(x) <==> exists|k: int|
        0 <= k < 7 && fw_on[k] && x == fw[k] by {
        let m3 = seq!["Foundation"@, "CoreGraphics"@, "Metal"@];
        let c2 = seq!["CoreML"@, "CoreVideo"@];
        if m3.contains(x) {
            let i = choose|i: int| 0 <= i < 3 && m3[i] == x;
            assert(fw[i] == x);
        }
        if c2.contains(x) {
            let i = choose|i: int| 0 <= i < 2 && c2[i] == x;
            assert(fw[i + 3] == x);
        }
        if seq!["OpenCL"@].contains(x) {
            assert(seq!["OpenCL"@][0] == x);
        }
        if seq!["OpenGL"@].contains(x) {
            assert(seq!["OpenGL"@][0] == x);
        }
        if exists|k: int| 0 <= k < 7 && fw_on[k] && x == fw[k] {
            let k = choose|k: int| 0 <= k < 7 && fw_on[k] && x == fw[k];
            if k < 3 {
                assert(m3[k] == x);
            } else if k < 5 {
                assert(c2[k - 3] == x);
            } else if k == 5 {
                assert(seq!["OpenCL"@][0] == x);
            } else {
                assert(seq!["OpenGL"@][0] == x);
            }
        }
    }
    assert forall|k: int| 0 <= k < 7 implies (l.contains(#[trigger] fw[k]) <==> fw_on[k]) by {
        if l.contains(fw[k]) {
            let t = choose|t: int| 0 <= t < 7 && fw_on[t] && fw[k] == fw[t];
            assert(t == k);
        } else {
            assert(!(0 <= k < 7 && fw_on[k] && fw[k] == fw[k]));
        }
    }
    assert(fw[0] == "Foundation"@ && fw[1] == "CoreGraphics"@ && fw[2] == "Metal"@);
    assert(fw[3] == "CoreML"@ && fw[4] == "CoreVideo"@ && fw[5] == "OpenCL"@ && fw[6]
        == "OpenGL"@);
}

/// The frameworks linked on macOS for the features.
pub fn macos_frameworks(f: BuildFeatures) -> (v: Vec<&'static str>)
    ensures
        spec_texts(v@) == spec_macos_frameworks(f),
{
    let mut v: Vec<&'static str> = Vec::new();
    if f.metal {
        v.push("Foundation");
        v.push("CoreGraphics");
        v.push("Metal");
    }
    if f.coreml {
        v.push("CoreML");
        v.push("CoreVideo");
    }
    if f.opencl {
        v.push("OpenCL");
    }
    if f.opengl {
        v.push("OpenGL");
    }
    assert(spec_texts(v@) =~= spec_macos_frameworks(f));
    v
}

/// How the engine library is found at link time.
#[derive(Debug, Clone, PartialEq, Eq)]
pub enum LinkSource {
    /// The engine is compiled from the source with CMake.
    Compile,
    /// A prebuilt engine is taken from this directory.
    LibDir(String),
}

/// Where the engine comes from.
#[derive(Debug, Clone, PartialEq, Eq)]
pub enum BuildPlan {
    /// The engine libraries installed on the system are linked; nothing is
    /// downloaded or compiled but the C glue.
    System,
    /// The prebuilt engine and the source of this version are downloaded; with
    /// `force`, the source is downloaded again even where it is already there.
    Download { version: String, force: bool },
    /// The source at `source` is used, and the engine is linked as `link` says.
    Vendored { source: String, link: LinkSource },
}

/// The version that is downloaded when none is asked for.
pub open spec fn spec_default_version() -> Seq<char> {
    "3.0.5"@
}

/// The setting when it is set, else the default.
pub open spec fn spec_or(setting: Option<&str>, default: Seq<char>) -> Seq<char> {
    match setting {
        Some(s) => s@,
        None => default,
    }
}

/// Whether the engine is compiled, given the compile switch: yes unless the switch
/// reads as off.
pub open spec fn spec_compiles(compile: Option<&str>) -> bool {
    match compile {
        Some(s) => spec_switch(s@) != Some(false),
        None => true,
    }
}

/// The setting is set to `1`.
pub open spec fn spec_is_one(setting: Option<&str>) -> bool {
    match setting {
        Some(s) => s@ == "1"@,
        None => false,
    }
}

/// Whether the setting is set to `1`.
fn is_one(setting: Option<&str>) -> (b: bool)
    ensures
        b == spec_is_one(setting),
{
    match setting {
        Some(s) => crate::text::str_eq(s, "1"),
        None => false,
    }
}

/// The string holding the setting, or the default.
fn or_default(setting: Option<&str>, default: &str) -> (s: String)
    ensures
        s@ == spec_or(setting, default@),
{
    match setting {
        Some(v) => v.to_owned(),
        None => default.to_owned(),
    }
}

/// Where the engine comes from. With the system setting at `1`, the engine
/// installed on the system is linked. Otherwise, with downloads on, the prebuilt
/// engine of the asked version (by default 3.0.5) is fetched, the source being
/// fetched again when the force setting is at `1`. Otherwise the source is the asked
/// source directory or the vendored one, and the engine is compiled unless the
/// compile switch is off, in which case it is linked from the asked library
/// directory; with no library directory there is no plan, and the build stops.
pub fn build_plan(
    system: Option<&str>,
    download: bool,
    version: Option<&str>,
    force_download: Option<&str>,
    source: Option<&str>,
    vendor: &str,
    compile: Option<&str>,
    lib_dir: Option<&str>,
) -> (r: Option<BuildPlan>)
    ensures
        spec_is_one(system) ==> r == Some(BuildPlan::System),
        !spec_is_one(system) && download ==> (r matches Some(
            BuildPlan::Download { version: v, force: b },
        ) && v@ == spec_or(version, spec_default_version()) && b == spec_is_one(force_download)),
        !spec_is_one(system) && !download && spec_compiles(compile) ==> (r matches Some(
            BuildPlan::Vendored { source: s, link: LinkSource::Compile },
        ) && s@ == spec_or(source, vendor@)),
        !spec_is_one(system) && !download && !spec_compiles(compile) && lib_dir is Some ==> (
        r matches Some(BuildPlan::Vendored { source: s, link: LinkSource::LibDir(d) }) && s@
            == spec_or(source, vendor@) && d@ == lib_dir->Some_0@),
        !spec_is_one(system) && !download && !spec_compiles(compile) && lib_dir is None ==> r is None,
{
    if is_one(system) {
        return Some(BuildPlan::System);
    }
    if download {
        return Some(
            BuildPlan::Download {
                version: or_default(version, "3.0.5"),
                force: is_one(force_download),
            },
        );
    }
    let src = or_default(source, vendor);
    if crate::prebuilt::compile_engine(compile) {
        Some(BuildPlan::Vendored { source: src, link: LinkSource::Compile })
    } else {
        match lib_dir {
            Some(d) => Some(BuildPlan::Vendored { source: src, link: LinkSource::LibDir(d.to_owned()) }),
            None => None,
        }
    }
}

} // verus!
