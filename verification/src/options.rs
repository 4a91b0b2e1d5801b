//! Build options of the native engine, and how they are written for CMake and for
//! the C++ compiler.
use vstd::prelude::*;
use vstd::string::*;

use crate::text::str_eq;

verus! {

/// Value of a build option.
#[derive(Debug, Clone, Copy, PartialEq, Eq)]
pub enum CxxOptionValue {
    On,
    Off,
    Value(&'static str),
}

impl CxxOptionValue {
    /// `On` for true, `Off` for false.
    pub open spec fn spec_from_bool(value: bool) -> CxxOptionValue {
        if value {
            CxxOptionValue::On
        } else {
            CxxOptionValue::Off
        }
    }

    /// `ON` and `OFF` are the switches; any other text is a value.
    pub open spec fn spec_from_text(s: &'static str) -> CxxOptionValue {
        if s@ == "ON"@ {
            CxxOptionValue::On
        } else if s@ == "OFF"@ {
            CxxOptionValue::Off
        } else {
            CxxOptionValue::Value(s)
        }
    }

    /// `On` for true, `Off` for false.
    pub fn from_bool(value: bool) -> (v: CxxOptionValue)
        ensures
            v == Self::spec_from_bool(value),
    {
        if value {
            CxxOptionValue::On
        } else {
            CxxOptionValue::Off
        }
    }

    /// Reads the text of an option: `ON` and `OFF` are the switches, anything else is
    /// a value.
    pub fn from_text(s: &'static str) -> (v: CxxOptionValue)
        ensures
            v == Self::spec_from_text(s),
    {
        if str_eq(s, "ON") {
            CxxOptionValue::On
        } else if str_eq(s, "OFF") {
            CxxOptionValue::Off
        } else {
            CxxOptionValue::Value(s)
        }
    }
}

impl From<bool> for CxxOptionValue {
    fn from(b: bool) -> (v: Self) {
        Self::from_bool(b)
    }
}

impl vstd::std_specs::convert::FromSpecImpl<bool> for CxxOptionValue {
    open spec fn obeys_from_spec() -> bool {
        true
    }

    open spec fn from_spec(v: bool) -> Self {
        CxxOptionValue::spec_from_bool(v)
    }
}

impl From<&'static str> for CxxOptionValue {
    fn from(s: &'static str) -> (v: Self) {
        Self::from_text(s)
    }
}

impl vstd::std_specs::convert::FromSpecImpl<&'static str> for CxxOptionValue {
    open spec fn obeys_from_spec() -> bool {
        true
    }

    open spec fn from_spec(v: &'static str) -> Self {
        CxxOptionValue::spec_from_text(v)
    }
}

/// A build option: a name and its value.
#[derive(Debug, Clone, Copy, PartialEq, Eq)]
pub struct CxxOption {
    pub name: &'static str,
    pub value: CxxOptionValue,
}

/// How CMake writes the value.
pub open spec fn spec_cmake_value(v: CxxOptionValue) -> Seq<char> {
    match v {
        CxxOptionValue::On => "ON"@,
        CxxOptionValue::Off => "OFF"@,
        CxxOptionValue::Value(s) => s@,
    }
}

/// How the C++ compiler is given the value.
pub open spec fn spec_cxx_value(v: CxxOptionValue) -> Seq<char> {
    match v {
        CxxOptionValue::On => "1"@,
        CxxOptionValue::Off => "0"@,
        CxxOptionValue::Value(s) => s@,
    }
}

/// A definition flag `-D<name>=<value>`.
pub open spec fn spec_define(name: Seq<char>, value: Seq<char>) -> Seq<char> {
    "-D"@ + name + "="@ + value
}

/// Builds `-D<name>=<value>`.
fn define(name: &str, value: &str) -> (s: String)
    ensures
        s@ == spec_define(name@, value@),
{
    let mut s = "-D".to_owned();
    s.append(name);
    s.append("=");
    s.append(value);
    s
}

impl CxxOption {
    /// An option that is on when `value` holds.
    pub fn from_bool(name: &'static str, value: bool) -> (o: Self)
        ensures
            o.name == name,
            o.value == CxxOptionValue::spec_from_bool(value),
    {
        CxxOption { name, value: CxxOptionValue::from_bool(value) }
    }

    /// An option with the given value.
    pub fn new(name: &'static str, value: CxxOptionValue) -> (o: Self)
        ensures
            o.name == name,
            o.value == value,
    {
        CxxOption { name, value }
    }

    /// The option, switched on.
    pub fn on(self) -> (o: Self)
        ensures
            o.name == self.name,
            o.value == CxxOptionValue::On,
    {
        let mut o = self;
        o.value = CxxOptionValue::On;
        o
    }

    /// The option, switched off.
    pub fn off(self) -> (o: Self)
        ensures
            o.name == self.name,
            o.value == CxxOptionValue::Off,
    {
        let mut o = self;
        o.value = CxxOptionValue::Off;
        o
    }

    /// The option, with the given value.
    pub fn with_value(self, value: &'static str) -> (o: Self)
        ensures
            o.name == self.name,
            o.value == CxxOptionValue::Value(value),
    {
        let mut o = self;
        o.value = CxxOptionValue::Value(value);
        o
    }

    /// The option as a CMake definition: `-D<name>=ON`, `-D<name>=OFF` or
    /// `-D<name>=<value>`.
    pub fn cmake(&self) -> (s: String)
        ensures
            s@ == spec_define(self.name@, spec_cmake_value(self.value)),
    {
        define(self.name, self.cmake_value())
    }

    /// The value as CMake writes it.
    pub fn cmake_value(&self) -> (s: &'static str)
        ensures
            s@ == spec_cmake_value(self.value),
    {
        match self.value {
            CxxOptionValue::On => "ON",
            CxxOptionValue::Off => "OFF",
            CxxOptionValue::Value(v) => v,
        }
    }

    /// The option as a C++ definition: `-D<name>=1`, `-D<name>=0` or
    /// `-D<name>=<value>`.
    pub fn cxx(&self) -> (s: String)
        ensures
            s@ == spec_define(self.name@, spec_cxx_value(self.value)),
    {
        let v: &str = match self.value {
            CxxOptionValue::On => "1",
            CxxOptionValue::Off => "0",
            CxxOptionValue::Value(v) => v,
        };
        define(self.name, v)
    }

    /// Whether the option is enabled: on, or set to a value.
    pub fn enabled(&self) -> (b: bool)
        ensures
            b == !(self.value is Off),
    {
        match self.value {
            CxxOptionValue::On => true,
            CxxOptionValue::Off => false,
            CxxOptionValue::Value(_) => true,
        }
    }
}

/// Reading the CMake text of a switch gives the switch back, and an option is enabled
/// exactly when it is not switched off.
pub proof fn lemma_cmake_value_round_trip(v: CxxOptionValue, s: &'static str)
    ensures
        v is On ==> spec_cmake_value(v) == "ON"@,
        v is Off ==> spec_cmake_value(v) == "OFF"@,
        s@ == "ON"@ ==> CxxOptionValue::spec_from_text(s) is On,
        s@ == "OFF"@ ==> CxxOptionValue::spec_from_text(s) is Off,
        s@ != "ON"@ && s@ != "OFF"@ ==> spec_cmake_value(CxxOptionValue::spec_from_text(s)) == s@,
        CxxOptionValue::spec_from_bool(true) is On && CxxOptionValue::spec_from_bool(false) is Off,
{
    reveal_strlit("ON");
    reveal_strlit("OFF");
    assert("ON"@.len() == 2 && "OFF"@.len() == 3);
}

} // verus!
