//! Backend configuration: memory, power and precision modes.
use vstd::prelude::*;

use crate::error::{fails_with, ErrorKind, MNNError, Result};
use crate::text::str_eq;

verus! {

/// Power mode of the backend.
#[derive(Debug, Clone, Copy, PartialEq, Eq)]
pub enum PowerMode {
    Low,
    Normal,
    High,
}

/// Memory mode of the backend.
#[derive(Debug, Clone, Copy, PartialEq, Eq)]
pub enum MemoryMode {
    Low,
    Normal,
    High,
}

/// Precision mode of the backend.
#[derive(Debug, Clone, Copy, PartialEq, Eq)]
pub enum PrecisionMode {
    Normal,
    High,
    Low,
    LowBf16,
}

/// Native code of the normal level (power, memory and precision alike).
pub const MODE_NORMAL: u32 = 0;
/// Native code of the high level.
pub const MODE_HIGH: u32 = 1;
/// Native code of the low level.
pub const MODE_LOW: u32 = 2;
/// Native code of the low precision with bf16 storage.
pub const PRECISION_LOW_BF16: u32 = 3;

impl PowerMode {
    /// The name of the mode as it is written and parsed.
    pub open spec fn spec_name(self) -> Seq<char> {
        match self {
            PowerMode::Low => "low"@,
            PowerMode::Normal => "normal"@,
            PowerMode::High => "high"@,
        }
    }

    /// The native code of the mode.
    pub open spec fn spec_code(self) -> u32 {
        match self {
            PowerMode::Low => MODE_LOW,
            PowerMode::Normal => MODE_NORMAL,
            PowerMode::High => MODE_HIGH,
        }
    }

    /// The mode that a native code stands for; unknown codes read as normal.
    pub open spec fn spec_from_code(code: u32) -> PowerMode {
        if code == MODE_LOW {
            PowerMode::Low
        } else if code == MODE_HIGH {
            PowerMode::High
        } else {
            PowerMode::Normal
        }
    }

    /// The mode that a name stands for, if any.
    pub open spec fn spec_parse(s: Seq<char>) -> Option<PowerMode> {
        if s == "low"@ {
            Some(PowerMode::Low)
        } else if s == "normal"@ {
            Some(PowerMode::Normal)
        } else if s == "high"@ {
            Some(PowerMode::High)
        } else {
            None
        }
    }

    /// Converts the mode to the native code.
    pub fn to_mnn_sys(self) -> (c: u32)
        ensures
            c == self.spec_code(),
    {
        match self {
            PowerMode::Low => MODE_LOW,
            PowerMode::Normal => MODE_NORMAL,
            PowerMode::High => MODE_HIGH,
        }
    }

    /// The name of the mode.
    pub fn to_str(self) -> (s: &'static str)
        ensures
            s@ == self.spec_name(),
    {
        match self {
            PowerMode::Low => "low",
            PowerMode::Normal => "normal",
            PowerMode::High => "high",
        }
    }

    /// Reads a native code back as a mode.
    pub fn from_mnn_sys(code: u32) -> (m: PowerMode)
        ensures
            m == Self::spec_from_code(code),
    {
        if code == MODE_LOW {
            PowerMode::Low
        } else if code == MODE_HIGH {
            PowerMode::High
        } else {
            PowerMode::Normal
        }
    }

    /// Parses a mode from its name; any other text is a parse error.
    pub fn from_name(s: &str) -> (r: Result<PowerMode>)
        ensures
            Self::spec_parse(s@) matches Some(m) ==> r == Ok::<PowerMode, MNNError>(m),
            Self::spec_parse(s@) is None ==> fails_with(r, ErrorKind::ParseError),
    {
        if str_eq(s, "low") {
            Ok(PowerMode::Low)
        } else if str_eq(s, "normal") {
            Ok(PowerMode::Normal)
        } else if str_eq(s, "high") {
            Ok(PowerMode::High)
        } else {
            Err(MNNError::new(ErrorKind::ParseError))
        }
    }
}

impl core::str::FromStr for PowerMode {
    type Err = MNNError;

    fn from_str(s: &str) -> (r: Result<Self, Self::Err>)
        ensures
            Self::spec_parse(s@) matches Some(m) ==> r == Ok::<PowerMode, MNNError>(m),
            Self::spec_parse(s@) is None ==> fails_with(r, ErrorKind::ParseError),
    {
        Self::from_name(s)
    }
}

impl MemoryMode {
    /// The name of the mode as it is written and parsed.
    pub open spec fn spec_name(self) -> Seq<char> {
        match self {
            MemoryMode::Low => "low"@,
            MemoryMode::Normal => "normal"@,
            MemoryMode::High => "high"@,
        }
    }

    /// The native code of the mode.
    pub open spec fn spec_code(self) -> u32 {
        match self {
            MemoryMode::Low => MODE_LOW,
            MemoryMode::Normal => MODE_NORMAL,
            MemoryMode::High => MODE_HIGH,
        }
    }

    /// The mode that a native code stands for; unknown codes read as normal.
    pub open spec fn spec_from_code(code: u32) -> MemoryMode {
        if code == MODE_LOW {
            MemoryMode::Low
        } else if code == MODE_HIGH {
            MemoryMode::High
        } else {
            MemoryMode::Normal
        }
    }

    /// The mode that a name stands for, if any.
    pub open spec fn spec_parse(s: Seq<char>) -> Option<MemoryMode> {
        if s == "low"@ {
            Some(MemoryMode::Low)
        } else if s == "normal"@ {
            Some(MemoryMode::Normal)
        } else if s == "high"@ {
            Some(MemoryMode::High)
        } else {
            None
        }
    }

    /// Converts the mode to the native code.
    pub fn to_mnn_sys(self) -> (c: u32)
        ensures
            c == self.spec_code(),
    {
        match self {
            MemoryMode::Low => MODE_LOW,
            MemoryMode::Normal => MODE_NORMAL,
            MemoryMode::High => MODE_HIGH,
        }
    }

    /// The name of the mode.
    pub fn to_str(self) -> (s: &'static str)
        ensures
            s@ == self.spec_name(),
    {
        match self {
            MemoryMode::Low => "low",
            MemoryMode::Normal => "normal",
            MemoryMode::High => "high",
        }
    }

    /// Reads a native code back as a mode.
    pub fn from_mnn_sys(code: u32) -> (m: MemoryMode)
        ensures
            m == Self::spec_from_code(code),
    {
        if code == MODE_LOW {
            MemoryMode::Low
        } else if code == MODE_HIGH {
            MemoryMode::High
        } else {
            MemoryMode::Normal
        }
    }

    /// Parses a mode from its name; any other text is a parse error.
    pub fn from_name(s: &str) -> (r: Result<MemoryMode>)
        ensures
            Self::spec_parse(s@) matches Some(m) ==> r == Ok::<MemoryMode, MNNError>(m),
            Self::spec_parse(s@) is None ==> fails_with(r, ErrorKind::ParseError),
    {
        if str_eq(s, "low") {
            Ok(MemoryMode::Low)
        } else if str_eq(s, "normal") {
            Ok(MemoryMode::Normal)
        } else if str_eq(s, "high") {
            Ok(MemoryMode::High)
        } else {
            Err(MNNError::new(ErrorKind::ParseError))
        }
    }
}

impl core::str::FromStr for MemoryMode {
    type Err = MNNError;

    fn from_str(s: &str) -> (r: Result<Self, Self::Err>)
        ensures
            Self::spec_parse(s@) matches Some(m) ==> r == Ok::<MemoryMode, MNNError>(m),
            Self::spec_parse(s@) is None ==> fails_with(r, ErrorKind::ParseError),
    {
        Self::from_name(s)
    }
}

impl PrecisionMode {
    /// The name of the mode as it is written and parsed.
    pub open spec fn spec_name(self) -> Seq<char> {
        match self {
            PrecisionMode::LowBf16 => "low_bf16"@,
            PrecisionMode::Low => "low"@,
            PrecisionMode::Normal => "normal"@,
            PrecisionMode::High => "high"@,
        }
    }

    /// The native code of the mode.
    pub open spec fn spec_code(self) -> u32 {
        match self {
            PrecisionMode::LowBf16 => PRECISION_LOW_BF16,
            PrecisionMode::Low => MODE_LOW,
            PrecisionMode::Normal => MODE_NORMAL,
            PrecisionMode::High => MODE_HIGH,
        }
    }

    /// The mode that a native code stands for; unknown codes read as normal.
    pub open spec fn spec_from_code(code: u32) -> PrecisionMode {
        if code == PRECISION_LOW_BF16 {
            PrecisionMode::LowBf16
        } else if code == MODE_LOW {
            PrecisionMode::Low
        } else if code == MODE_HIGH {
            PrecisionMode::High
        } else {
            PrecisionMode::Normal
        }
    }

    /// The mode that a name stands for, if any.
    pub open spec fn spec_parse(s: Seq<char>) -> Option<PrecisionMode> {
        if s == "low"@ {
            Some(PrecisionMode::Low)
        } else if s == "normal"@ {
            Some(PrecisionMode::Normal)
        } else if s == "high"@ {
            Some(PrecisionMode::High)
        } else if s == "low_bf16"@ {
            Some(PrecisionMode::LowBf16)
        } else {
            None
        }
    }

    /// Converts the mode to the native code.
    pub fn to_mnn_sys(self) -> (c: u32)
        ensures
            c == self.spec_code(),
    {
        match self {
            PrecisionMode::LowBf16 => PRECISION_LOW_BF16,
            PrecisionMode::Low => MODE_LOW,
            PrecisionMode::Normal => MODE_NORMAL,
            PrecisionMode::High => MODE_HIGH,
        }
    }

    /// The name of the mode.
    pub fn to_str(self) -> (s: &'static str)
        ensures
            s@ == self.spec_name(),
    {
        match self {
            PrecisionMode::LowBf16 => "low_bf16",
            PrecisionMode::Low => "low",
            PrecisionMode::Normal => "normal",
            PrecisionMode::High => "high",
        }
    }

    /// Reads a native code back as a mode.
    pub fn from_mnn_sys(code: u32) -> (m: PrecisionMode)
        ensures
            m == Self::spec_from_code(code),
    {
        if code == PRECISION_LOW_BF16 {
            PrecisionMode::LowBf16
        } else if code == MODE_LOW {
            PrecisionMode::Low
        } else if code == MODE_HIGH {
            PrecisionMode::High
        } else {
            PrecisionMode::Normal
        }
    }

    /// Parses a mode from its name; any other text is a parse error.
    pub fn from_name(s: &str) -> (r: Result<PrecisionMode>)
        ensures
            Self::spec_parse(s@) matches Some(m) ==> r == Ok::<PrecisionMode, MNNError>(m),
            Self::spec_parse(s@) is None ==> fails_with(r, ErrorKind::ParseError),
    {
        if str_eq(s, "low") {
            Ok(PrecisionMode::Low)
        } else if str_eq(s, "normal") {
            Ok(PrecisionMode::Normal)
        } else if str_eq(s, "high") {
            Ok(PrecisionMode::High)
        } else if str_eq(s, "low_bf16") {
            Ok(PrecisionMode::LowBf16)
        } else {
            Err(MNNError::new(ErrorKind::ParseError))
        }
    }
}

impl core::str::FromStr for PrecisionMode {
    type Err = MNNError;

    fn from_str(s: &str) -> (r: Result<Self, Self::Err>)
        ensures
            Self::spec_parse(s@) matches Some(m) ==> r == Ok::<PrecisionMode, MNNError>(m),
            Self::spec_parse(s@) is None ==> fails_with(r, ErrorKind::ParseError),
    {
        Self::from_name(s)
    }
}

/// Configuration of a backend, holding what the native backend configuration holds:
/// the memory, power and precision modes as native codes, and the user word that the
/// native structure shares between the flags and a context pointer.
#[derive(Debug, Clone, Copy)]
pub struct BackendConfig {
    memory: u32,
    power: u32,
    precision: u32,
    flags: usize,
}

impl BackendConfig {
    /// Native code of the memory mode.
    pub closed spec fn spec_memory(&self) -> u32 {
        self.memory
    }

    /// Native code of the power mode.
    pub closed spec fn spec_power(&self) -> u32 {
        self.power
    }

    /// Native code of the precision mode.
    pub closed spec fn spec_precision(&self) -> u32 {
        self.precision
    }

    /// The backend-specific flags.
    pub closed spec fn spec_flags(&self) -> usize {
        self.flags
    }

    /// The configuration with the memory mode replaced.
    pub closed spec fn spec_set_memory(self, mode: MemoryMode) -> Self {
        BackendConfig { memory: mode.spec_code(), ..self }
    }

    /// The configuration with the power mode replaced.
    pub closed spec fn spec_set_power(self, mode: PowerMode) -> Self {
        BackendConfig { power: mode.spec_code(), ..self }
    }

    /// The configuration with the precision mode replaced.
    pub closed spec fn spec_set_precision(self, mode: PrecisionMode) -> Self {
        BackendConfig { precision: mode.spec_code(), ..self }
    }

    /// The configuration with the flags replaced.
    pub closed spec fn spec_set_flags(self, flags: usize) -> Self {
        BackendConfig { flags, ..self }
    }

    /// A backend configuration with every mode normal and no flags.
    pub closed spec fn new_spec() -> Self {
        BackendConfig { memory: MODE_NORMAL, power: MODE_NORMAL, precision: MODE_NORMAL, flags: 0 }
    }

    /// Creates a backend configuration with every mode normal and no flags.
    pub fn new() -> (c: Self)
        ensures
            c == Self::new_spec(),
            c.spec_memory() == MODE_NORMAL,
            c.spec_power() == MODE_NORMAL,
            c.spec_precision() == MODE_NORMAL,
            c.spec_flags() == 0,
    {
        BackendConfig { memory: MODE_NORMAL, power: MODE_NORMAL, precision: MODE_NORMAL, flags: 0 }
    }

    /// Sets the [MemoryMode] for the backend.
    pub fn set_memory_mode(&mut self, mode: MemoryMode)
        ensures
            *final(self) == old(self).spec_set_memory(mode),
    {
        self.memory = mode.to_mnn_sys();
    }

    /// Sets the [MemoryMode] and returns the configuration.
    pub fn with_memory_mode(self, mode: MemoryMode) -> (c: Self)
        ensures
            c == self.spec_set_memory(mode),
    {
        let mut c = self;
        c.set_memory_mode(mode);
        c
    }

    /// The [MemoryMode] of the backend.
    pub fn get_memory_mode(&self) -> (m: MemoryMode)
        ensures
            m == MemoryMode::spec_from_code(self.spec_memory()),
    {
        MemoryMode::from_mnn_sys(self.memory)
    }

    /// Sets the [PowerMode] for the backend.
    pub fn set_power_mode(&mut self, mode: PowerMode)
        ensures
            *final(self) == old(self).spec_set_power(mode),
    {
        self.power = mode.to_mnn_sys();
    }

    /// Sets the [PowerMode] and returns the configuration.
    pub fn with_power_mode(self, mode: PowerMode) -> (c: Self)
        ensures
            c == self.spec_set_power(mode),
    {
        let mut c = self;
        c.set_power_mode(mode);
        c
    }

    /// The [PowerMode] of the backend.
    pub fn get_power_mode(&self) -> (m: PowerMode)
        ensures
            m == PowerMode::spec_from_code(self.spec_power()),
    {
        PowerMode::from_mnn_sys(self.power)
    }

    /// Sets the [PrecisionMode] for the backend.
    pub fn set_precision_mode(&mut self, mode: PrecisionMode)
        ensures
            *final(self) == old(self).spec_set_precision(mode),
    {
        self.precision = mode.to_mnn_sys();
    }

    /// Sets the [PrecisionMode] and returns the configuration.
    pub fn with_precision_mode(self, mode: PrecisionMode) -> (c: Self)
        ensures
            c == self.spec_set_precision(mode),
    {
        let mut c = self;
        c.set_precision_mode(mode);
        c
    }

    /// The [PrecisionMode] of the backend.
    pub fn get_precision_mode(&self) -> (m: PrecisionMode)
        ensures
            m == PrecisionMode::spec_from_code(self.spec_precision()),
    {
        PrecisionMode::from_mnn_sys(self.precision)
    }

    /// Sets the flags for the backend; what a flag means depends on the backend.
    pub fn set_flags(&mut self, flags: usize)
        ensures
            *final(self) == old(self).spec_set_flags(flags),
    {
        self.flags = flags;
    }

    /// Sets the flags and returns the configuration.
    pub fn with_flags(self, flags: usize) -> (c: Self)
        ensures
            c == self.spec_set_flags(flags),
    {
        let mut c = self;
        c.set_flags(flags);
        c
    }

    /// The flags of the backend.
    pub fn flags(&self) -> (f: usize)
        ensures
            f == self.spec_flags(),
    {
        self.flags
    }
}

impl Default for BackendConfig {
    fn default() -> (c: Self)
        ensures
            c.spec_memory() == MODE_NORMAL,
            c.spec_power() == MODE_NORMAL,
            c.spec_precision() == MODE_NORMAL,
            c.spec_flags() == 0,
    {
        Self::new()
    }
}

/// Reading a mode back from its native code gives the mode, and parsing the name of a
/// mode gives the mode, for every power mode.
pub proof fn lemma_power_mode_round_trip(m: PowerMode)
    ensures
        PowerMode::spec_from_code(m.spec_code()) == m,
        PowerMode::spec_parse(m.spec_name()) == Some(m),
{
    reveal_strlit("low");
    reveal_strlit("normal");
    reveal_strlit("high");
    assert("low"@.len() == 3 && "normal"@.len() == 6 && "high"@.len() == 4);
}

/// Reading a mode back from its native code gives the mode, and parsing the name of a
/// mode gives the mode, for every memory mode.
pub proof fn lemma_memory_mode_round_trip(m: MemoryMode)
    ensures
        MemoryMode::spec_from_code(m.spec_code()) == m,
        MemoryMode::spec_parse(m.spec_name()) == Some(m),
{
    reveal_strlit("low");
    reveal_strlit("normal");
    reveal_strlit("high");
    assert("low"@.len() == 3 && "normal"@.len() == 6 && "high"@.len() == 4);
}

/// Reading a mode back from its native code gives the mode, and parsing the name of a
/// mode gives the mode, for every precision mode.
pub proof fn lemma_precision_mode_round_trip(m: PrecisionMode)
    ensures
        PrecisionMode::spec_from_code(m.spec_code()) == m,
        PrecisionMode::spec_parse(m.spec_name()) == Some(m),
{
    reveal_strlit("low");
    reveal_strlit("normal");
    reveal_strlit("high");
    assert("low"@.len() == 3 && "normal"@.len() == 6 && "high"@.len() == 4);
    reveal_strlit("low_bf16");
    assert("low_bf16"@.len() == 8);
}

/// Each mode is handed to the engine as the engine's constant of the same name:
/// normal is 0, high is 1 and low is 2 for power, memory and precision alike, and low
/// precision with bfloat16 storage is 3; so modes of the same name get the same code
/// whichever setting they are for.
pub proof fn lemma_mode_codes_match_engine(p: PowerMode, m: MemoryMode, r: PrecisionMode)
    ensures
        PowerMode::Normal.spec_code() == 0 && PowerMode::High.spec_code() == 1
            && PowerMode::Low.spec_code() == 2,
        MemoryMode::Normal.spec_code() == 0 && MemoryMode::High.spec_code() == 1
            && MemoryMode::Low.spec_code() == 2,
        PrecisionMode::Normal.spec_code() == 0 && PrecisionMode::High.spec_code() == 1
            && PrecisionMode::Low.spec_code() == 2 && PrecisionMode::LowBf16.spec_code() == 3,
        p.spec_name() == r.spec_name() ==> p.spec_code() == r.spec_code(),
        m.spec_name() == r.spec_name() ==> m.spec_code() == r.spec_code(),
        p.spec_name() == m.spec_name() ==> p.spec_code() == m.spec_code(),
{
    reveal_strlit("low");
    reveal_strlit("normal");
    reveal_strlit("high");
    reveal_strlit("low_bf16");
    assert("low"@.len() == 3 && "normal"@.len() == 6 && "high"@.len() == 4 && "low_bf16"@.len()
        == 8);
}

/// A mode that is set on a backend configuration is the mode that is read back, and
/// setting one mode or the flags leaves everything else as it was.
pub proof fn lemma_backend_config_set_get(
    c: BackendConfig,
    memory: MemoryMode,
    power: PowerMode,
    precision: PrecisionMode,
    flags: usize,
)
    ensures
        MemoryMode::spec_from_code(c.spec_set_memory(memory).spec_memory()) == memory,
        c.spec_set_memory(memory).spec_power() == c.spec_power(),
        c.spec_set_memory(memory).spec_precision() == c.spec_precision(),
        c.spec_set_memory(memory).spec_flags() == c.spec_flags(),
        PowerMode::spec_from_code(c.spec_set_power(power).spec_power()) == power,
        c.spec_set_power(power).spec_memory() == c.spec_memory(),
        c.spec_set_power(power).spec_precision() == c.spec_precision(),
        c.spec_set_power(power).spec_flags() == c.spec_flags(),
        PrecisionMode::spec_from_code(c.spec_set_precision(precision).spec_precision())
            == precision,
        c.spec_set_precision(precision).spec_memory() == c.spec_memory(),
        c.spec_set_precision(precision).spec_power() == c.spec_power(),
        c.spec_set_precision(precision).spec_flags() == c.spec_flags(),
        c.spec_set_flags(flags).spec_flags() == flags,
        c.spec_set_flags(flags).spec_memory() == c.spec_memory(),
        c.spec_set_flags(flags).spec_power() == c.spec_power(),
        c.spec_set_flags(flags).spec_precision() == c.spec_precision(),
{
}

} // verus!
