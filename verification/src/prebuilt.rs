//! Where the prebuilt native engine and its source are fetched from, and how a
//! download is checked against its published checksum.
use vstd::prelude::*;
use vstd::string::*;
use sha2::Digest;

use crate::text::{str_eq, string_push};

verus! {

/// Architecture of the build target.
#[derive(Debug, Clone, Copy, PartialEq, Eq)]
pub enum TargetArch {
    AArch64,
    Arm,
    X86_64,
    /// Any other architecture
    Other,
}

/// Operating system of the build target.
#[derive(Debug, Clone, Copy, PartialEq, Eq)]
pub enum TargetOs {
    Android,
    IOS,
    Linux,
    Windows,
    MacOS,
    /// Any other operating system
    Other,
}

/// Which prebuilt package serves the target, if any.
pub open spec fn spec_prebuilt_index(arch: TargetArch, os: TargetOs) -> Option<usize> {
    match (arch, os) {
        (TargetArch::AArch64, TargetOs::Android) => Some(0),
        (TargetArch::Arm, TargetOs::Android) => Some(0),
        (TargetArch::AArch64, TargetOs::IOS) => Some(1),
        (TargetArch::X86_64, TargetOs::Linux) => Some(2),
        (TargetArch::X86_64, TargetOs::Windows) => Some(3),
        (TargetArch::X86_64, TargetOs::MacOS) => Some(4),
        (TargetArch::AArch64, TargetOs::MacOS) => Some(4),
        _ => None,
    }
}

/// The suffix that names the prebuilt package of the given index.
pub open spec fn spec_suffix(index: usize) -> Seq<char> {
    if index == 0 {
        "android_armv7_armv8_cpu_opencl_vulkan"@
    } else if index == 1 {
        "ios_armv82_cpu_metal_coreml"@
    } else if index == 2 {
        "linux_x64_cpu_opencl"@
    } else if index == 3 {
        "windows_x64_cpu_opencl"@
    } else {
        "macos_x64_arm82_cpu_opencl_metal"@
    }
}

/// The published checksum of the prebuilt package of the given index.
pub open spec fn spec_checksum(index: usize) -> Seq<char> {
    if index == 0 {
        "sha256:f85050dfcab114da9d389c3a4dcde8421cdce5a767aab5dbd1a5f0debc8b704a"@
    } else if index == 1 {
        "sha256:2405ef73ab406844be9d16768a82dd76bec7aefaf05634eaad2f5d7202587aa0"@
    } else if index == 2 {
        "sha256:db42a3ed0eb4af791c872afc0fc82d9a13236a834c557c679fe4c9e39209129b"@
    } else if index == 3 {
        "sha256:2243dfea8e8364beed3fccb5be17b804d89feae91cbdd4ce577f147347f07555"@
    } else {
        "sha256:2bb04d451fe7587107d970322cbc80083c381bc50b06dd3ae3f2349eb5c82a89"@
    }
}

/// Which prebuilt package serves the target, if any.
pub fn prebuilt_index(arch: TargetArch, os: TargetOs) -> (r: Option<usize>)
    ensures
        r == spec_prebuilt_index(arch, os),
{
    match (arch, os) {
        (TargetArch::AArch64, TargetOs::Android) => Some(0),
        (TargetArch::Arm, TargetOs::Android) => Some(0),
        (TargetArch::AArch64, TargetOs::IOS) => Some(1),
        (TargetArch::X86_64, TargetOs::Linux) => Some(2),
        (TargetArch::X86_64, TargetOs::Windows) => Some(3),
        (TargetArch::X86_64, TargetOs::MacOS) => Some(4),
        (TargetArch::AArch64, TargetOs::MacOS) => Some(4),
        _ => None,
    }
}

fn suffix(index: usize) -> (s: &'static str)
    ensures
        s@ == spec_suffix(index),
{
    if index == 0 {
        "android_armv7_armv8_cpu_opencl_vulkan"
    } else if index == 1 {
        "ios_armv82_cpu_metal_coreml"
    } else if index == 2 {
        "linux_x64_cpu_opencl"
    } else if index == 3 {
        "windows_x64_cpu_opencl"
    } else {
        "macos_x64_arm82_cpu_opencl_metal"
    }
}

fn checksum(index: usize) -> (s: &'static str)
    ensures
        s@ == spec_checksum(index),
{
    if index == 0 {
        "sha256:f85050dfcab114da9d389c3a4dcde8421cdce5a767aab5dbd1a5f0debc8b704a"
    } else if index == 1 {
        "sha256:2405ef73ab406844be9d16768a82dd76bec7aefaf05634eaad2f5d7202587aa0"
    } else if index == 2 {
        "sha256:db42a3ed0eb4af791c872afc0fc82d9a13236a834c557c679fe4c9e39209129b"
    } else if index == 3 {
        "sha256:2243dfea8e8364beed3fccb5be17b804d89feae91cbdd4ce577f147347f07555"
    } else {
        "sha256:2bb04d451fe7587107d970322cbc80083c381bc50b06dd3ae3f2349eb5c82a89"
    }
}

/// The word that names an operating system at the start of a package suffix.
pub open spec fn spec_os_word(os: TargetOs) -> Seq<char> {
    match os {
        TargetOs::Android => "android"@,
        TargetOs::IOS => "ios"@,
        TargetOs::Linux => "linux"@,
        TargetOs::Windows => "windows"@,
        TargetOs::MacOS => "macos"@,
        TargetOs::Other => Seq::empty(),
    }
}

/// What the suffix of the package of a target starts with: the word of its
/// operating system and an underscore, then `x64_` for an x86-64 target.
pub open spec fn spec_target_tag(arch: TargetArch, os: TargetOs) -> Seq<char> {
    spec_os_word(os) + "_"@ + if arch == TargetArch::X86_64 {
        "x64_"@
    } else {
        Seq::empty()
    }
}

/// The download address of the prebuilt package of a version.
pub open spec fn spec_prebuilt_url(version: Seq<char>, index: usize) -> Seq<char> {
    "https://github.com/alibaba/MNN/releases/download/"@ + version + "/mnn_"@ + version + "_"@
        + spec_suffix(index) + ".zip"@
}

/// The name of the top directory inside the prebuilt package of a version.
pub open spec fn spec_prebuilt_root(version: Seq<char>, index: usize) -> Seq<char> {
    "mnn_"@ + version + "_"@ + spec_suffix(index)
}

/// The download address, the top directory and the published checksum of the
/// prebuilt package of `version` for the target; none where no package serves the
/// target.
pub fn url_name_checksum(version: &str, arch: TargetArch, os: TargetOs) -> (r: Option<
    (String, String, String),
>)
    ensures
        spec_prebuilt_index(arch, os) is None ==> r is None,
        spec_prebuilt_index(arch, os) matches Some(i) ==> (r matches Some(t) && t.0@
            == spec_prebuilt_url(version@, i) && t.1@ == spec_prebuilt_root(version@, i) && t.2@
            == spec_checksum(i)),
        r matches Some(t) ==> ({
            let head = "mnn_"@ + version@ + "_"@ + spec_target_tag(arch, os);
            &&& head.len() <= t.1@.len()
            &&& t.1@.take(head.len() as int) == head
            &&& t.0@ == "https://github.com/alibaba/MNN/releases/download/"@ + version@ + "/"@ + t.1@
                + ".zip"@
            &&& t.2@ == spec_published_checksum(os)
        }),
{
    proof {
        lemma_package_names(version@, arch, os);
        lemma_published_checksums(arch, os);
    }
    let idx = match prebuilt_index(arch, os) {
        Some(i) => i,
        None => return None,
    };
    let sfx = suffix(idx);
    let mut url = "https://github.com/alibaba/MNN/releases/download/".to_owned();
    url.append(version);
    url.append("/mnn_");
    url.append(version);
    url.append("_");
    url.append(sfx);
    url.append(".zip");
    let mut root = "mnn_".to_owned();
    root.append(version);
    root.append("_");
    root.append(sfx);
    let sum = checksum(idx).to_owned();
    Some((url, root, sum))
}

/// The download address of the source archive of a version.
pub fn source_url(version: &str) -> (s: String)
    ensures
        s@ == "https://api.github.com/repos/alibaba/MNN/zipball/"@ + version@,
{
    let mut url = "https://api.github.com/repos/alibaba/MNN/zipball/".to_owned();
    url.append(version);
    url
}

/// The lowercase hexadecimal digit of a value below sixteen.
pub open spec fn spec_hex_digit(v: u8) -> char {
    if v < 10 {
        ('0' as u8 + v) as char
    } else {
        ('a' as u8 + (v - 10)) as char
    }
}

/// The lowercase hexadecimal text of a sequence of bytes, two digits per byte.
pub open spec fn spec_hex(data: Seq<u8>) -> Seq<char>
    decreases data.len(),
{
    if data.len() == 0 {
        Seq::empty()
    } else {
        spec_hex(data.drop_last()) + seq![
            spec_hex_digit(data.last() / 16),
            spec_hex_digit(data.last() % 16),
        ]
    }
}

fn hex_digit(v: u8) -> (c: char)
    requires
        v < 16,
    ensures
        c == spec_hex_digit(v),
{
    if v < 10 {
        (48u8 + v) as char
    } else {
        (97u8 + (v - 10)) as char
    }
}

/// The lowercase hexadecimal text of the bytes.
pub fn to_hex(data: &[u8]) -> (s: String)
    ensures
        s@ == spec_hex(data@),
{
    let mut s = String::new();
    let n = data.len();
    let mut i: usize = 0;
    while i < n
        invariant
            n == data@.len(),
            i <= n,
            s@ == spec_hex(data@.take(i as int)),
        decreases n - i,
    {
        let b = data[i];
        let hi = hex_digit(b / 16);
        let lo = hex_digit(b % 16);
        string_push(&mut s, hi);
        string_push(&mut s, lo);
        proof {
            assert(data@.take(i + 1).drop_last() =~= data@.take(i as int));
            assert(data@.take(i + 1).last() == b);
        }
        i = i + 1;
    }
    assert(data@.take(n as int) =~= data@);
    s
}

/// The digest of a text under SHA-256, as the sha2 crate computes it.
pub uninterp spec fn spec_sha256(data: Seq<u8>) -> Seq<u8>;

/// Calls `sha2::Sha256::digest`: the SHA-256 digest of the bytes, which is 32 bytes
/// long. What the digest is, is only named.
#[verifier::external_body]
fn sha256_digest(data: &[u8]) -> (d: Vec<u8>)
    ensures
        d@ == spec_sha256(data@),
        d@.len() == 32,
{
    sha2::Sha256::digest(data).to_vec()
}

/// The checksum text of a digest: `sha256:` and its lowercase hexadecimal text.
pub open spec fn spec_checksum_text(digest: Seq<u8>) -> Seq<char> {
    "sha256:"@ + spec_hex(digest)
}

/// The checksum that stands for "not published": any file passes it.
pub open spec fn spec_placeholder() -> Seq<char> {
    "sha256:placeholder"@
}

/// Whether the expected checksum is the placeholder that any file passes.
pub fn is_placeholder(expected: &str) -> (b: bool)
    ensures
        b == (expected@ == spec_placeholder()),
{
    str_eq(expected, "sha256:placeholder")
}

/// Whether a digest passes the expected checksum: it is the placeholder, or it is
/// the checksum text of the digest.
pub fn digest_matches(expected: &str, digest: &[u8]) -> (b: bool)
    ensures
        b == (expected@ == spec_placeholder() || expected@ == spec_checksum_text(digest@)),
{
    if str_eq(expected, "sha256:placeholder") {
        return true;
    }
    let mut actual = "sha256:".to_owned();
    let hex = to_hex(digest);
    actual.append(hex.as_str());
    str_eq(expected, actual.as_str())
}

/// Whether the downloaded bytes pass the expected checksum.
pub fn checksum_ok(data: &[u8], expected: &str) -> (b: bool)
    ensures
        b == (expected@ == spec_placeholder() || expected@ == spec_checksum_text(
            spec_sha256(data@),
        )),
{
    if str_eq(expected, "sha256:placeholder") {
        return true;
    }
    let digest = sha256_digest(data);
    digest_matches(expected, digest.as_slice())
}

/// Every byte is written as two hexadecimal digits.
pub proof fn lemma_hex_len(data: Seq<u8>)
    ensures
        spec_hex(data).len() == 2 * data.len(),
    decreases data.len(),
{
    if data.len() > 0 {
        lemma_hex_len(data.drop_last());
    }
}

/// What a setting of the switch that asks to compile the engine reads as: `1`,
/// `true` and `yes` are on, `0`, `false` and `no` are off, anything else is no
/// answer.
pub open spec fn spec_switch(s: Seq<char>) -> Option<bool> {
    if s == "1"@ || s == "true"@ || s == "yes"@ {
        Some(true)
    } else if s == "0"@ || s == "false"@ || s == "no"@ {
        Some(false)
    } else {
        None
    }
}

/// Reads a setting of the switch that asks to compile the engine.
pub fn parse_switch(s: &str) -> (r: Option<bool>)
    ensures
        r == spec_switch(s@),
{
    if str_eq(s, "1") || str_eq(s, "true") || str_eq(s, "yes") {
        Some(true)
    } else if str_eq(s, "0") || str_eq(s, "false") || str_eq(s, "no") {
        Some(false)
    } else {
        None
    }
}

/// Whether the engine is compiled: as the switch says, and yes when it is not set
/// or says nothing readable.
pub fn compile_engine(setting: Option<&str>) -> (b: bool)
    ensures
        setting is None ==> b,
        setting matches Some(s) ==> b == (spec_switch(s@) != Some(false)),
{
    match setting {
        Some(s) => match parse_switch(s) {
            Some(v) => v,
            None => true,
        },
        None => true,
    }
}

/// How the prebuilt engine is linked: the directories under the package to search,
/// in order, and the libraries to link.
#[derive(Debug, Clone)]
pub struct LinkPlan {
    pub search: Vec<&'static str>,
    pub libs: Vec<&'static str>,
}

/// The texts of a list of static strings.
pub open spec fn spec_texts(v: Seq<&'static str>) -> Seq<Seq<char>> {
    v.map_values(|s: &'static str| s@)
}

/// The directories to search and the libraries to link for the prebuilt package of
/// the target; none where no package serves the target.
pub open spec fn spec_link_plan(arch: TargetArch, os: TargetOs, debug: bool, crt_static: bool) -> Option<
    (Seq<Seq<char>>, Seq<Seq<char>>),
> {
    match spec_prebuilt_index(arch, os) {
        Some(0) => Some(
            (
                seq![if arch == TargetArch::Arm { "armeabi-v7a"@ } else { "arm64-v8a"@ }],
                seq![
                    "dylib=MNN"@,
                    "dylib=MNN_Vulkan"@,
                    "dylib=MNN_CL"@,
                    "dylib=c++_shared"@,
                    "dylib=mnncore"@,
                ],
            ),
        ),
        Some(1) => Some((seq!["Static"@], seq!["dylib=MNN"@])),
        Some(2) => Some(
            (seq!["lib"@, if debug { "Debug"@ } else { "Release"@ }], seq!["static=MNN"@]),
        ),
        Some(3) => Some(
            (
                seq!["lib"@, "Release"@, "static"@, if crt_static { "MT"@ } else { "MD"@ }],
                seq!["static=MNN"@],
            ),
        ),
        Some(_) => Some((seq!["Static"@], seq!["MNN"@])),
        None => None,
    }
}

/// How to link the prebuilt engine for the target, in a debug or release build,
/// with the C runtime linked statically or not.
pub fn prebuilt_link_plan(arch: TargetArch, os: TargetOs, debug: bool, crt_static: bool) -> (r:
    Option<LinkPlan>)
    ensures
        spec_link_plan(arch, os, debug, crt_static) is None ==> r is None,
        spec_link_plan(arch, os, debug, crt_static) matches Some(p) ==> (r matches Some(l)
            && spec_texts(l.search@) == p.0 && spec_texts(l.libs@) == p.1),
{
    let idx = match prebuilt_index(arch, os) {
        Some(i) => i,
        None => return None,
    };
    let mut search: Vec<&'static str> = Vec::new();
    let mut libs: Vec<&'static str> = Vec::new();
    if idx == 0 {
        let dir = match arch {
            TargetArch::Arm => "armeabi-v7a",
            _ => "arm64-v8a",
        };
        search.push(dir);
        libs.push("dylib=MNN");
        libs.push("dylib=MNN_Vulkan");
        libs.push("dylib=MNN_CL");
        libs.push("dylib=c++_shared");
        libs.push("dylib=mnncore");
    } else if idx == 1 {
        search.push("Static");
        libs.push("dylib=MNN");
    } else if idx == 2 {
        search.push("lib");
        search.push(
            if debug {
                "Debug"
            } else {
                "Release"
            },
        );
        libs.push("static=MNN");
    } else if idx == 3 {
        search.push("lib");
        search.push("Release");
        search.push("static");
        search.push(
            if crt_static {
                "MT"
            } else {
                "MD"
            },
        );
        libs.push("static=MNN");
    } else {
        search.push("Static");
        libs.push("MNN");
    }
    let plan = LinkPlan { search, libs };
    let ghost p = spec_link_plan(arch, os, debug, crt_static)->Some_0;
    assert(spec_texts(plan.search@) =~= p.0);
    assert(spec_texts(plan.libs@) =~= p.1);
    Some(plan)
}

/// The package fetched for a target is the one built for it: the name of its top
/// directory is `mnn_<version>_` followed by the word of the target's operating
/// system (and `x64` for an x86-64 target), and the download address is that name
/// under the release of the version, with `.zip` added. Different packages have
/// different names and different checksums.
pub proof fn lemma_package_names(version: Seq<char>, arch: TargetArch, os: TargetOs)
    ensures
        spec_prebuilt_index(arch, os) matches Some(i) ==> ({
            let root = spec_prebuilt_root(version, i);
            let head = "mnn_"@ + version + "_"@ + spec_target_tag(arch, os);
            &&& head.len() <= root.len()
            &&& root.take(head.len() as int) == head
            &&& spec_prebuilt_url(version, i) == "https://github.com/alibaba/MNN/releases/download/"@
                + version + "/"@ + root + ".zip"@
        }),
        forall|i: usize, j: usize|
            i < 5 && j < 5 && i != j ==> spec_suffix(i) != spec_suffix(j) && spec_checksum(i)
                != spec_checksum(j),
{
    reveal_strlit("android_armv7_armv8_cpu_opencl_vulkan");
    reveal_strlit("ios_armv82_cpu_metal_coreml");
    reveal_strlit("linux_x64_cpu_opencl");
    reveal_strlit("windows_x64_cpu_opencl");
    reveal_strlit("macos_x64_arm82_cpu_opencl_metal");
    reveal_strlit("android");
    reveal_strlit("ios");
    reveal_strlit("linux");
    reveal_strlit("windows");
    reveal_strlit("macos");
    reveal_strlit("_");
    reveal_strlit("x64_");
    reveal_strlit("/mnn_");
    reveal_strlit("/");
    reveal_strlit("mnn_");
    reveal_strlit("sha256:f85050dfcab114da9d389c3a4dcde8421cdce5a767aab5dbd1a5f0debc8b704a");
    reveal_strlit("sha256:2405ef73ab406844be9d16768a82dd76bec7aefaf05634eaad2f5d7202587aa0");
    reveal_strlit("sha256:db42a3ed0eb4af791c872afc0fc82d9a13236a834c557c679fe4c9e39209129b");
    reveal_strlit("sha256:2243dfea8e8364beed3fccb5be17b804d89feae91cbdd4ce577f147347f07555");
    reveal_strlit("sha256:2bb04d451fe7587107d970322cbc80083c381bc50b06dd3ae3f2349eb5c82a89");
    if let Some(i) = spec_prebuilt_index(arch, os) {
        let tag = spec_target_tag(arch, os);
        let sfx = spec_suffix(i);
        assert(tag.len() <= sfx.len() && sfx.take(tag.len() as int) =~= tag);
        let a = "mnn_"@ + version + "_"@;
        assert((a + sfx).take((a.len() + tag.len()) as int) =~= a + tag);
        assert(spec_prebuilt_root(version, i) == a + sfx);
        assert("/mnn_"@ =~= "/"@ + "mnn_"@);
        assert(spec_prebuilt_url(version, i) =~= "https://github.com/alibaba/MNN/releases/download/"@
            + version + "/"@ + spec_prebuilt_root(version, i) + ".zip"@);
    }
    assert forall|i: usize, j: usize|
        i < 5 && j < 5 && i != j implies spec_suffix(i) != spec_suffix(j) && spec_checksum(i)
            != spec_checksum(j) by {
        assert(spec_suffix(i)[0] != spec_suffix(j)[0]);
        assert(spec_checksum(i)[7] != spec_checksum(j)[7] || spec_checksum(i)[8]
            != spec_checksum(j)[8]);
    }
}

/// The checksum published for the package of a target's operating system.
pub open spec fn spec_published_checksum(os: TargetOs) -> Seq<char> {
    match os {
        TargetOs::Android => "sha256:f85050dfcab114da9d389c3a4dcde8421cdce5a767aab5dbd1a5f0debc8b704a"@,
        TargetOs::IOS => "sha256:2405ef73ab406844be9d16768a82dd76bec7aefaf05634eaad2f5d7202587aa0"@,
        TargetOs::Linux => "sha256:db42a3ed0eb4af791c872afc0fc82d9a13236a834c557c679fe4c9e39209129b"@,
        TargetOs::Windows => "sha256:2243dfea8e8364beed3fccb5be17b804d89feae91cbdd4ce577f147347f07555"@,
        TargetOs::MacOS => "sha256:2bb04d451fe7587107d970322cbc80083c381bc50b06dd3ae3f2349eb5c82a89"@,
        TargetOs::Other => Seq::empty(),
    }
}

/// A download for a target is checked against the checksum published for the
/// package of its operating system.
pub proof fn lemma_published_checksums(arch: TargetArch, os: TargetOs)
    ensures
        spec_prebuilt_index(arch, os) matches Some(i) ==> spec_checksum(i) == spec_published_checksum(
            os,
        ),
{
}

/// The profile of the build matters only for the Linux package, whose search path
/// ends in `Debug` for a debug build and in `Release` otherwise; the static C
/// runtime matters only for the Windows package, whose search path ends in `MT` when
/// it is linked statically and in `MD` otherwise.
pub proof fn lemma_link_plan_choices(arch: TargetArch, os: TargetOs, debug: bool, crt_static: bool)
    ensures
        arch == TargetArch::X86_64 && os == TargetOs::Linux ==> (spec_link_plan(
            arch,
            os,
            debug,
            crt_static,
        ) matches Some(p) && p.0.len() > 0 && p.0.last() == (if debug {
            "Debug"@
        } else {
            "Release"@
        })),
        arch == TargetArch::X86_64 && os == TargetOs::Windows ==> (spec_link_plan(
            arch,
            os,
            debug,
            crt_static,
        ) matches Some(p) && p.0.len() > 0 && p.0.last() == (if crt_static {
            "MT"@
        } else {
            "MD"@
        })),
        (spec_link_plan(arch, os, true, crt_static) != spec_link_plan(arch, os, false, crt_static))
            <==> (arch == TargetArch::X86_64 && os == TargetOs::Linux),
        (spec_link_plan(arch, os, debug, true) != spec_link_plan(arch, os, debug, false)) <==> (arch
            == TargetArch::X86_64 && os == TargetOs::Windows),
        spec_link_plan(arch, os, debug, crt_static) is Some <==> spec_prebuilt_index(arch, os) is Some,
        spec_link_plan(arch, os, debug, crt_static) matches Some(p) ==> p.1 == (if os
            == TargetOs::Android {
            seq![
                "dylib=MNN"@,
                "dylib=MNN_Vulkan"@,
                "dylib=MNN_CL"@,
                "dylib=c++_shared"@,
                "dylib=mnncore"@,
            ]
        } else if os == TargetOs::IOS {
            seq!["dylib=MNN"@]
        } else if os == TargetOs::MacOS {
            seq!["MNN"@]
        } else {
            seq!["static=MNN"@]
        }),
        os == TargetOs::Android && (arch == TargetArch::Arm || arch == TargetArch::AArch64) ==> (
        spec_link_plan(arch, os, debug, crt_static) matches Some(p) && p.0 == seq![
            if arch == TargetArch::Arm {
                "armeabi-v7a"@
            } else {
                "arm64-v8a"@
            },
        ]),
{
    reveal_strlit("Debug");
    reveal_strlit("Release");
    reveal_strlit("MT");
    reveal_strlit("MD");
    assert("Debug"@.len() != "Release"@.len());
    assert("MT"@[1] != "MD"@[1]);
    if arch == TargetArch::X86_64 && os == TargetOs::Linux {
        let p = spec_link_plan(arch, os, true, crt_static)->Some_0;
        let q = spec_link_plan(arch, os, false, crt_static)->Some_0;
        assert(p.0[1] != q.0[1]);
    }
    if arch == TargetArch::X86_64 && os == TargetOs::Windows {
        let p = spec_link_plan(arch, os, debug, true)->Some_0;
        let q = spec_link_plan(arch, os, debug, false)->Some_0;
        assert(p.0[3] != q.0[3]);
    }
}

/// Each value below sixteen is written as its own hexadecimal digit: `0` to `9` for
/// the values below ten and the lowercase `a` to `f` for ten to fifteen; so every
/// byte is written as the digit of its high half followed by the digit of its low
/// half.
pub proof fn lemma_hex_digits(v: u8, data: Seq<u8>, i: int)
    requires
        v < 16,
    ensures
        v < 10 ==> spec_hex_digit(v) as u32 == '0' as u32 + v,
        v >= 10 ==> spec_hex_digit(v) as u32 == 'a' as u32 + (v - 10),
        0 <= i < data.len() ==> spec_hex(data)[2 * i] == spec_hex_digit(data[i] / 16) && spec_hex(
            data,
        )[2 * i + 1] == spec_hex_digit(data[i] % 16),
    decreases data.len(),
{
    if 0 <= i < data.len() {
        let t = data.drop_last();
        lemma_hex_len(t);
        if i < t.len() {
            lemma_hex_digits(v, t, i);
            assert(data[i] == t[i]);
        }
    }
}

/// What a setting of the compile switch reads as: `1`, `true` and `yes` are on,
/// `0`, `false` and `no` are off, and every other text, the empty one and those in
/// capitals among them, is no answer.
pub proof fn lemma_switch_words(s: Seq<char>)
    ensures
        spec_switch("1"@) == Some(true) && spec_switch("true"@) == Some(true) && spec_switch("yes"@)
            == Some(true),
        spec_switch("0"@) == Some(false) && spec_switch("false"@) == Some(false) && spec_switch(
            "no"@,
        ) == Some(false),
        s != "1"@ && s != "true"@ && s != "yes"@ && s != "0"@ && s != "false"@ && s != "no"@
            ==> spec_switch(s) is None,
{
    reveal_strlit("1");
    reveal_strlit("true");
    reveal_strlit("yes");
    reveal_strlit("0");
    reveal_strlit("false");
    reveal_strlit("no");
    assert("1"@.len() == 1 && "0"@.len() == 1 && "1"@[0] != "0"@[0]);
    assert("true"@.len() == 4 && "false"@.len() == 5 && "yes"@.len() == 3 && "no"@.len() == 2);
}

} // verus!
