//! Schedule configuration: the backend a session runs on and how.
use vstd::prelude::*;

use crate::backend::BackendConfig;
use crate::error::{fails_with, ErrorKind, MNNError, Result};
use crate::engine_build::{default_features, spec_default_features, BuildFeatures};
use crate::prebuilt::spec_texts;
use crate::text::{contains_nul, has_nul, str_eq};

verus! {

broadcast use {vstd::seq_lib::lemma_seq_concat_contains_all_elements, vstd::seq_lib::lemma_seq_empty_contains_nothing};

/// Native code of the CPU backend.
pub const FORWARD_CPU: u32 = 0;
/// Native code of the Metal backend.
pub const FORWARD_METAL: u32 = 1;
/// Native code of the CUDA backend.
pub const FORWARD_CUDA: u32 = 2;
/// Native code of the OpenCL backend.
pub const FORWARD_OPENCL: u32 = 3;
/// Native code of the automatic backend choice.
pub const FORWARD_AUTO: u32 = 4;
/// Native code of the NNAPI / CoreML backend.
pub const FORWARD_NN: u32 = 5;
/// Native code of the OpenGL backend.
pub const FORWARD_OPENGL: u32 = 6;
/// Native code of the Vulkan backend.
pub const FORWARD_VULKAN: u32 = 7;
/// Native code of the choice among all available backends.
pub const FORWARD_ALL: u32 = 12;

/// Number of threads that a new schedule configuration asks for.
pub const DEFAULT_NUM_THREADS: i32 = 4;

/// Backend used for running the model.
///
/// - `All`: use all available backends.
/// - `Auto`: select the best backend for the environment and hardware.
/// - `CPU`: use the CPU.
/// - `Metal`, `OpenCL`, `OpenGL`, `Vulkan`, `CoreML`: the GPU and accelerator
///   backends, each available when the crate is built with its feature.
#[derive(Debug, Clone, Copy, PartialEq, Eq)]
pub enum ForwardType {
    All,
    Auto,
    CPU,
    Metal,
    OpenCL,
    OpenGL,
    Vulkan,
    CoreML,
}

impl ForwardType {
    /// The name of the forward type as it is written and parsed.
    pub open spec fn spec_name(self) -> Seq<char> {
        match self {
            ForwardType::Auto => "auto"@,
            ForwardType::All => "all"@,
            ForwardType::CPU => "cpu"@,
            ForwardType::Metal => "metal"@,
            ForwardType::OpenCL => "opencl"@,
            ForwardType::OpenGL => "opengl"@,
            ForwardType::Vulkan => "vulkan"@,
            ForwardType::CoreML => "coreml"@,
        }
    }

    /// The native code of the forward type.
    pub open spec fn spec_code(self) -> u32 {
        match self {
            ForwardType::Auto => FORWARD_AUTO,
            ForwardType::All => FORWARD_ALL,
            ForwardType::CPU => FORWARD_CPU,
            ForwardType::Metal => FORWARD_METAL,
            ForwardType::OpenCL => FORWARD_OPENCL,
            ForwardType::OpenGL => FORWARD_OPENGL,
            ForwardType::Vulkan => FORWARD_VULKAN,
            ForwardType::CoreML => FORWARD_NN,
        }
    }

    /// Whether the forward type is available in a crate built with the features:
    /// `All`, `Auto` and `CPU` always are, each other backend with its feature.
    pub open spec fn spec_enabled(self, f: BuildFeatures) -> bool {
        match self {
            ForwardType::Metal => f.metal,
            ForwardType::OpenCL => f.opencl,
            ForwardType::OpenGL => f.opengl,
            ForwardType::Vulkan => f.vulkan,
            ForwardType::CoreML => f.coreml,
            _ => true,
        }
    }

    /// The forward type that a name stands for, among all of them, if any.
    pub open spec fn spec_parse(s: Seq<char>) -> Option<ForwardType> {
        if s == "auto"@ {
            Some(ForwardType::Auto)
        } else if s == "all"@ {
            Some(ForwardType::All)
        } else if s == "cpu"@ {
            Some(ForwardType::CPU)
        } else if s == "metal"@ {
            Some(ForwardType::Metal)
        } else if s == "opencl"@ {
            Some(ForwardType::OpenCL)
        } else if s == "opengl"@ {
            Some(ForwardType::OpenGL)
        } else if s == "vulkan"@ {
            Some(ForwardType::Vulkan)
        } else if s == "coreml"@ {
            Some(ForwardType::CoreML)
        } else {
            None
        }
    }

    /// The forward type that a name stands for in a crate built with the features:
    /// none for a backend whose feature is off.
    pub open spec fn spec_parse_in(s: Seq<char>, f: BuildFeatures) -> Option<ForwardType> {
        match Self::spec_parse(s) {
            Some(t) => if t.spec_enabled(f) {
                Some(t)
            } else {
                None
            },
            None => None,
        }
    }

    /// The names of the forward types available with the features, in the order that
    /// messages list them.
    pub open spec fn spec_list_in(f: BuildFeatures) -> Seq<Seq<char>> {
        seq!["auto"@, "all"@, "cpu"@] + (if f.metal {
            seq!["metal"@]
        } else {
            Seq::empty()
        }) + (if f.opencl {
            seq!["opencl"@]
        } else {
            Seq::empty()
        }) + (if f.opengl {
            seq!["opengl"@]
        } else {
            Seq::empty()
        }) + (if f.vulkan {
            seq!["vulkan"@]
        } else {
            Seq::empty()
        }) + (if f.coreml {
            seq!["coreml"@]
        } else {
            Seq::empty()
        })
    }

    /// The names of the forward types available in a build with the default
    /// features, which turn on no backend.
    pub open spec fn spec_list() -> Seq<Seq<char>> {
        Self::spec_list_in(spec_default_features())
    }

    /// Converts the forward type to the native code.
    pub fn to_mnn_sys(self) -> (c: u32)
        ensures
            c == self.spec_code(),
    {
        match self {
            ForwardType::Auto => FORWARD_AUTO,
            ForwardType::All => FORWARD_ALL,
            ForwardType::CPU => FORWARD_CPU,
            ForwardType::Metal => FORWARD_METAL,
            ForwardType::OpenCL => FORWARD_OPENCL,
            ForwardType::OpenGL => FORWARD_OPENGL,
            ForwardType::Vulkan => FORWARD_VULKAN,
            ForwardType::CoreML => FORWARD_NN,
        }
    }

    /// The name of the forward type.
    pub fn to_str(self) -> (s: &'static str)
        ensures
            s@ == self.spec_name(),
    {
        match self {
            ForwardType::Auto => "auto",
            ForwardType::All => "all",
            ForwardType::CPU => "cpu",
            ForwardType::Metal => "metal",
            ForwardType::OpenCL => "opencl",
            ForwardType::OpenGL => "opengl",
            ForwardType::Vulkan => "vulkan",
            ForwardType::CoreML => "coreml",
        }
    }

    /// Whether the forward type is available in a crate built with the features.
    pub fn enabled(self, f: BuildFeatures) -> (b: bool)
        ensures
            b == self.spec_enabled(f),
    {
        match self {
            ForwardType::Metal => f.metal,
            ForwardType::OpenCL => f.opencl,
            ForwardType::OpenGL => f.opengl,
            ForwardType::Vulkan => f.vulkan,
            ForwardType::CoreML => f.coreml,
            _ => true,
        }
    }

    /// The names of the forward types available with the features.
    pub fn list_in(f: BuildFeatures) -> (v: Vec<&'static str>)
        ensures
            spec_texts(v@) == Self::spec_list_in(f),
    {
        let mut v: Vec<&'static str> = Vec::new();
        v.push("auto");
        v.push("all");
        v.push("cpu");
        if f.metal {
            v.push("metal");
        }
        if f.opencl {
            v.push("opencl");
        }
        if f.opengl {
            v.push("opengl");
        }
        if f.vulkan {
            v.push("vulkan");
        }
        if f.coreml {
            v.push("coreml");
        }
        assert(spec_texts(v@) =~= Self::spec_list_in(f));
        v
    }

    /// The names of the forward types available with the default features.
    pub fn list() -> (v: Vec<&'static str>)
        ensures
            spec_texts(v@) == Self::spec_list(),
    {
        Self::list_in(default_features())
    }

    /// Parses a forward type from its name, in a crate built with the features; any
    /// other text, and the name of a backend whose feature is off, is a parse error.
    pub fn from_name_in(s: &str, f: BuildFeatures) -> (r: Result<ForwardType>)
        ensures
            Self::spec_parse_in(s@, f) matches Some(t) ==> r == Ok::<ForwardType, MNNError>(t),
            Self::spec_parse_in(s@, f) is None ==> fails_with(r, ErrorKind::ParseError),
    {
        let t = if str_eq(s, "auto") {
            ForwardType::Auto
        } else if str_eq(s, "all") {
            ForwardType::All
        } else if str_eq(s, "cpu") {
            ForwardType::CPU
        } else if str_eq(s, "metal") {
            ForwardType::Metal
        } else if str_eq(s, "opencl") {
            ForwardType::OpenCL
        } else if str_eq(s, "opengl") {
            ForwardType::OpenGL
        } else if str_eq(s, "vulkan") {
            ForwardType::Vulkan
        } else if str_eq(s, "coreml") {
            ForwardType::CoreML
        } else {
            return Err(MNNError::new(ErrorKind::ParseError));
        };
        if t.enabled(f) {
            Ok(t)
        } else {
            Err(MNNError::new(ErrorKind::ParseError))
        }
    }

    /// Parses a forward type from its name, in a crate built with the default
    /// features: the names of the backends behind features are parse errors there.
    pub fn from_name(s: &str) -> (r: Result<ForwardType>)
        ensures
            Self::spec_parse_in(s@, spec_default_features()) matches Some(t) ==> r == Ok::<
                ForwardType,
                MNNError,
            >(t),
            Self::spec_parse_in(s@, spec_default_features()) is None ==> fails_with(
                r,
                ErrorKind::ParseError,
            ),
    {
        Self::from_name_in(s, default_features())
    }
}

impl Default for ForwardType {
    fn default() -> (t: Self)
        ensures
            t == ForwardType::Auto,
    {
        ForwardType::Auto
    }
}

impl core::str::FromStr for ForwardType {
    type Err = MNNError;

    fn from_str(s: &str) -> (r: Result<Self, Self::Err>)
        ensures
            Self::spec_parse_in(s@, spec_default_features()) matches Some(m) ==> r == Ok::<
                ForwardType,
                MNNError,
            >(m),
            Self::spec_parse_in(s@, spec_default_features()) is None ==> fails_with(
                r,
                ErrorKind::ParseError,
            ),
    {
        Self::from_name(s)
    }
}

/// What a schedule configuration holds, as spec values.
pub struct ScheduleConfigView {
    /// Names of the tensors to be saved during computation.
    pub save_tensors: Seq<Seq<char>>,
    /// Native code of the backend.
    pub forward: u32,
    /// The word that the native configuration shares between the number of
    /// threads and the mode of computation: the last one set is kept.
    pub thread_or_mode: i32,
    /// Native code of the backup backend.
    pub backup: u32,
    /// The backend-specific configuration, if any.
    pub backend_config: Option<BackendConfig>,
}

/// Configuration for scheduling the forward computation.
///
/// It holds what the native schedule configuration holds: the names of the
/// tensors to save, the backend, the number of threads or the mode (the native
/// structure keeps the two in one word), the backup backend, and the
/// backend-specific configuration.
#[derive(Debug)]
pub struct ScheduleConfig {
    save_tensors: Vec<String>,
    forward: u32,
    thread_or_mode: i32,
    backup: u32,
    backend_config: Option<BackendConfig>,
}

/// The view of a fresh schedule configuration.
pub open spec fn spec_new_schedule_config() -> ScheduleConfigView {
    ScheduleConfigView {
        save_tensors: Seq::empty(),
        forward: FORWARD_CPU,
        thread_or_mode: DEFAULT_NUM_THREADS,
        backup: FORWARD_CPU,
        backend_config: None,
    }
}

impl View for ScheduleConfig {
    type V = ScheduleConfigView;

    closed spec fn view(&self) -> ScheduleConfigView {
        ScheduleConfigView {
            save_tensors: self.save_tensors@.map_values(|s: String| s@),
            forward: self.forward,
            thread_or_mode: self.thread_or_mode,
            backup: self.backup,
            backend_config: self.backend_config,
        }
    }
}

impl ScheduleConfig {
    /// Creates a new schedule configuration: CPU backend and CPU backup, four
    /// threads, no saved tensors and no backend configuration.
    pub fn new() -> (c: Self)
        ensures
            c@ == spec_new_schedule_config(),
    {
        let c = ScheduleConfig {
            save_tensors: Vec::new(),
            forward: FORWARD_CPU,
            thread_or_mode: DEFAULT_NUM_THREADS,
            backup: FORWARD_CPU,
            backend_config: None,
        };
        assert(c@.save_tensors =~= Seq::<Seq<char>>::empty());
        c
    }

    /// Sets the tensors to be saved during computation.
    ///
    /// A name that holds a NUL character cannot be handed to the engine: then the
    /// configuration is left as it was and the result is an ASCII error.
    pub fn set_save_tensors(&mut self, save_tensors: &[&str]) -> (r: Result<()>)
        ensures
            (exists|i: int| 0 <= i < save_tensors@.len() && has_nul(#[trigger] save_tensors@[i]@))
                ==> fails_with(r, ErrorKind::AsciiError) && final(self)@ == old(self)@,
            (forall|i: int| 0 <= i < save_tensors@.len() ==> !has_nul(#[trigger] save_tensors@[i]@))
                ==> r is Ok && final(self)@ == (ScheduleConfigView {
                    save_tensors: save_tensors@.map_values(|s: &str| s@),
                    ..old(self)@
                }),
    {
        let n = save_tensors.len();
        let mut names: Vec<String> = Vec::new();
        let mut i: usize = 0;
        while i < n
            invariant
                n == save_tensors@.len(),
                i <= n,
                names@.len() == i,
                forall|j: int| 0 <= j < i ==> !has_nul(#[trigger] save_tensors@[j]@),
                forall|j: int| 0 <= j < i ==> #[trigger] names@[j]@ == save_tensors@[j]@,
            decreases n - i,
        {
            let name: &str = save_tensors[i];
            if contains_nul(name) {
                return Err(MNNError::new(ErrorKind::AsciiError));
            }
            names.push(name.to_owned());
            i = i + 1;
        }
        self.save_tensors = names;
        assert(self@.save_tensors =~= save_tensors@.map_values(|s: &str| s@));
        Ok(())
    }

    /// Sets the type of backend to be used for computation.
    pub fn set_type(&mut self, forward_type: ForwardType)
        ensures
            final(self)@ == (ScheduleConfigView { forward: forward_type.spec_code(), ..old(self)@ }),
    {
        self.forward = forward_type.to_mnn_sys();
    }

    /// Sets the number of threads to be used for computation.
    pub fn set_num_threads(&mut self, num_threads: i32)
        ensures
            final(self)@ == (ScheduleConfigView { thread_or_mode: num_threads, ..old(self)@ }),
    {
        self.thread_or_mode = num_threads;
    }

    /// Sets the mode of computation; the native configuration keeps it in the word
    /// of the number of threads.
    pub fn set_mode(&mut self, mode: i32)
        ensures
            final(self)@ == (ScheduleConfigView { thread_or_mode: mode, ..old(self)@ }),
    {
        self.thread_or_mode = mode;
    }

    /// Sets the backup type of backend, used if the primary backend fails.
    pub fn set_backup_type(&mut self, backup_type: ForwardType)
        ensures
            final(self)@ == (ScheduleConfigView { backup: backup_type.spec_code(), ..old(self)@ }),
    {
        self.backup = backup_type.to_mnn_sys();
    }

    /// Sets, or with `None` removes, the backend-specific configuration.
    pub fn set_backend_config(&mut self, backend_config: Option<BackendConfig>)
        ensures
            final(self)@ == (ScheduleConfigView { backend_config: backend_config, ..old(self)@ }),
    {
        self.backend_config = backend_config;
    }

    /// The names of the tensors to be saved.
    pub fn save_tensors(&self) -> (v: &Vec<String>)
        ensures
            v@.map_values(|s: String| s@) == self@.save_tensors,
    {
        &self.save_tensors
    }

    /// Native code of the backend.
    pub fn forward_code(&self) -> (c: u32)
        ensures
            c == self@.forward,
    {
        self.forward
    }

    /// Native code of the backup backend.
    pub fn backup_code(&self) -> (c: u32)
        ensures
            c == self@.backup,
    {
        self.backup
    }

    /// The number of threads, or the mode, whichever was set last.
    pub fn thread_or_mode(&self) -> (w: i32)
        ensures
            w == self@.thread_or_mode,
    {
        self.thread_or_mode
    }

    /// The backend-specific configuration, if any.
    pub fn backend_config(&self) -> (b: Option<BackendConfig>)
        ensures
            b == self@.backend_config,
    {
        self.backend_config
    }
}

impl Clone for ScheduleConfig {
    fn clone(&self) -> (c: Self)
        ensures
            c@ == self@,
    {
        let n = self.save_tensors.len();
        let mut names: Vec<String> = Vec::new();
        let mut i: usize = 0;
        while i < n
            invariant
                n == self.save_tensors@.len(),
                i <= n,
                names@.len() == i,
                forall|j: int| 0 <= j < i ==> #[trigger] names@[j]@ == self.save_tensors@[j]@,
            decreases n - i,
        {
            names.push(self.save_tensors[i].clone());
            i = i + 1;
        }
        let c = ScheduleConfig {
            save_tensors: names,
            forward: self.forward,
            thread_or_mode: self.thread_or_mode,
            backup: self.backup,
            backend_config: self.backend_config,
        };
        assert(c@.save_tensors =~= self@.save_tensors);
        c
    }
}

impl Default for ScheduleConfig {
    fn default() -> (c: Self)
        ensures
            c@ == spec_new_schedule_config(),
    {
        Self::new()
    }
}

/// Several schedule configurations, for a session that runs on more than one path.
#[derive(Debug)]
pub struct ScheduleConfigs {
    configs: Vec<ScheduleConfig>,
}

impl View for ScheduleConfigs {
    type V = Seq<ScheduleConfigView>;

    closed spec fn view(&self) -> Seq<ScheduleConfigView> {
        self.configs@.map_values(|c: ScheduleConfig| c@)
    }
}

impl ScheduleConfigs {
    /// Appends a configuration.
    pub fn push(&mut self, config: ScheduleConfig)
        ensures
            final(self)@ == old(self)@.push(config@),
    {
        let ghost c = config@;
        self.configs.push(config);
        assert(self@ =~= old(self)@.push(c));
    }

    /// An empty list with room for `capacity` configurations.
    pub fn with_capacity(capacity: usize) -> (c: Self)
        ensures
            c@ == Seq::<ScheduleConfigView>::empty(),
    {
        let c = ScheduleConfigs { configs: Vec::with_capacity(capacity) };
        assert(c@ =~= Seq::<ScheduleConfigView>::empty());
        c
    }

    /// An empty list.
    pub fn new() -> (c: Self)
        ensures
            c@ == Seq::<ScheduleConfigView>::empty(),
    {
        let c = ScheduleConfigs { configs: Vec::new() };
        assert(c@ =~= Seq::<ScheduleConfigView>::empty());
        c
    }

    /// The list of the given configurations, in their order.
    pub fn from_configs(configs: Vec<ScheduleConfig>) -> (c: Self)
        ensures
            c@ == configs@.map_values(|x: ScheduleConfig| x@),
    {
        ScheduleConfigs { configs }
    }

    /// Number of configurations.
    pub fn len(&self) -> (n: usize)
        ensures
            n == self@.len(),
    {
        self.configs.len()
    }

    /// The configuration at `index`.
    pub fn get(&self, index: usize) -> (c: Option<&ScheduleConfig>)
        ensures
            index < self@.len() ==> (c matches Some(x) && x@ == self@[index as int]),
            index >= self@.len() ==> c is None,
    {
        if index < self.configs.len() {
            Some(&self.configs[index])
        } else {
            None
        }
    }
}

impl Default for ScheduleConfigs {
    fn default() -> (c: Self)
        ensures
            c@ == Seq::<ScheduleConfigView>::empty(),
    {
        Self::new()
    }
}

/// Parsing the name of a forward type gives the forward type; with the features it
/// needs, parsing in that build gives it too; and the list of names of a build holds
/// exactly the names that parse in it.
pub proof fn lemma_forward_type_names(t: ForwardType, s: Seq<char>, f: BuildFeatures)
    ensures
        ForwardType::spec_parse(t.spec_name()) == Some(t),
        t.spec_enabled(f) ==> ForwardType::spec_parse_in(t.spec_name(), f) == Some(t),
        !t.spec_enabled(f) ==> ForwardType::spec_parse_in(t.spec_name(), f) is None,
        ForwardType::spec_parse_in(s, f) is Some <==> ForwardType::spec_list_in(f).contains(s),
{
    reveal_strlit("auto");
    reveal_strlit("all");
    reveal_strlit("cpu");
    reveal_strlit("metal");
    reveal_strlit("opencl");
    reveal_strlit("opengl");
    reveal_strlit("vulkan");
    reveal_strlit("coreml");
    assert("auto"@.len() == 4 && "all"@.len() == 3 && "cpu"@.len() == 3 && "metal"@.len() == 5);
    assert("opencl"@.len() == 6 && "opengl"@.len() == 6 && "vulkan"@.len() == 6 && "coreml"@.len()
        == 6);
    assert("all"@[0] != "cpu"@[0]);
    assert("opencl"@[4] != "opengl"@[4]);
    assert("opencl"@[0] != "vulkan"@[0] && "opencl"@[0] != "coreml"@[0] && "vulkan"@[0]
        != "coreml"@[0]);
    assert("opengl"@[0] != "vulkan"@[0] && "opengl"@[0] != "coreml"@[0]);
    assert forall|a: Seq<char>, x: Seq<char>| #[trigger] seq![a].contains(x) <==> x == a by {
        if x == a {
            assert(seq![a][0] == a);
        }
    }
}

/// Each backend is handed to the engine as the engine's forward type of the same
/// name: CPU 0, Metal 1, OpenCL 3, automatic 4, CoreML (the engine's NN backend) 5,
/// OpenGL 6, Vulkan 7, all 12; no two backends share a code.
pub proof fn lemma_forward_codes_match_engine(t: ForwardType, u: ForwardType)
    ensures
        ForwardType::CPU.spec_code() == 0 && ForwardType::Metal.spec_code() == 1
            && ForwardType::OpenCL.spec_code() == 3 && ForwardType::Auto.spec_code() == 4
            && ForwardType::CoreML.spec_code() == 5 && ForwardType::OpenGL.spec_code() == 6
            && ForwardType::Vulkan.spec_code() == 7 && ForwardType::All.spec_code() == 12,
        t.spec_code() == u.spec_code() ==> t == u,
{
}

} // verus!
