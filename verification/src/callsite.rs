//! Log levels of the native engine, the keys and interest codes of the callsites
//! that its log messages are reported under, and the cache that makes one callsite
//! per key.
use vstd::prelude::*;

use crate::text::str_eq;

verus! {

/// Interest code: the callsite is never enabled.
pub const CALLSITE_INTEREST_NEVER: usize = 1;
/// Interest code: the callsite is sometimes enabled.
pub const CALLSITE_INTEREST_SOMETIMES: usize = 2;
/// Interest code: the callsite is always enabled.
pub const CALLSITE_INTEREST_ALWAYS: usize = 3;

/// Level of a log message of the native engine.
#[derive(Debug, Clone, Copy, PartialEq, Eq, PartialOrd, Ord)]
pub enum Level {
    Info,
    Error,
}

/// What a callsite is registered under: the level, line and file of the message.
#[derive(Debug, Clone, Copy, PartialEq, Eq, PartialOrd, Ord)]
pub struct Key<'k> {
    pub level: Level,
    pub line: Option<u32>,
    pub file: Option<&'k str>,
}

/// A key as plain values: the level, the line, and the text of the file.
pub open spec fn spec_key(k: Key<'static>) -> (Level, Option<u32>, Option<Seq<char>>) {
    (
        k.level,
        k.line,
        match k.file {
            Some(f) => Some(f@),
            None => None,
        },
    )
}

/// The plain values of a key made of the given parts.
pub open spec fn spec_parts(level: Level, line: Option<u32>, file: Option<&'static str>) -> (
    Level,
    Option<u32>,
    Option<Seq<char>>,
) {
    spec_key(Key { level, line, file })
}

/// Whether the key is the one made of the given parts, the file compared by its text.
fn key_is(k: &Key<'static>, level: Level, line: Option<u32>, file: Option<&'static str>) -> (b:
    bool)
    ensures
        b == (spec_key(*k) == spec_parts(level, line, file)),
{
    let same_level = match (k.level, level) {
        (Level::Info, Level::Info) => true,
        (Level::Error, Level::Error) => true,
        _ => false,
    };
    let same_line = match (k.line, line) {
        (Some(a), Some(b)) => a == b,
        (None, None) => true,
        _ => false,
    };
    let same_file = match (k.file, file) {
        (Some(a), Some(b)) => str_eq(a, b),
        (None, None) => true,
        _ => false,
    };
    same_level && same_line && same_file
}

/// The keys of the callsites after a request for the callsite of `k`: unchanged when
/// `k` has one, else with `k` added last.
pub open spec fn spec_register(
    s: Seq<(Level, Option<u32>, Option<Seq<char>>)>,
    k: (Level, Option<u32>, Option<Seq<char>>),
) -> Seq<(Level, Option<u32>, Option<Seq<char>>)> {
    if s.contains(k) {
        s
    } else {
        s.push(k)
    }
}

/// One callsite per key: after a request for a key, the key has a callsite, no key
/// has two, and asking again for the same key changes nothing.
pub proof fn lemma_register_twice(
    s: Seq<(Level, Option<u32>, Option<Seq<char>>)>,
    k: (Level, Option<u32>, Option<Seq<char>>),
)
    requires
        s.no_duplicates(),
    ensures
        spec_register(s, k).contains(k),
        spec_register(s, k).no_duplicates(),
        spec_register(spec_register(s, k), k) == spec_register(s, k),
{
    if !s.contains(k) {
        let t = s.push(k);
        assert(t[s.len() as int] == k);
        assert forall|i: int, j: int| 0 <= i < t.len() && 0 <= j < t.len() && i != j implies t[i]
            != t[j] by {
            if i < s.len() && j < s.len() {
                assert(t[i] == s[i] && t[j] == s[j]);
            } else if i < s.len() {
                assert(t[i] == s[i]);
            } else {
                assert(t[j] == s[j]);
            }
        }
    }
}

/// The callsites made for log messages, one per key, numbered in the order in which
/// they were made.
#[derive(Debug)]
pub struct CallsiteCache {
    keys: Vec<Key<'static>>,
}

impl View for CallsiteCache {
    type V = Seq<(Level, Option<u32>, Option<Seq<char>>)>;

    closed spec fn view(&self) -> Self::V {
        self.keys@.map_values(|k: Key<'static>| spec_key(k))
    }
}

impl CallsiteCache {
    /// No key has two callsites.
    #[verifier::type_invariant]
    spec fn one_per_key(self) -> bool {
        self@.no_duplicates()
    }

    /// A cache with no callsite yet.
    pub fn new() -> (c: Self)
        ensures
            c@ == Seq::<(Level, Option<u32>, Option<Seq<char>>)>::empty(),
    {
        let c = CallsiteCache { keys: Vec::new() };
        assert(c@ =~= Seq::<(Level, Option<u32>, Option<Seq<char>>)>::empty());
        c
    }

    /// The number of callsites made.
    pub fn len(&self) -> (n: usize)
        ensures
            n == self@.len(),
    {
        self.keys.len()
    }

    /// The number of the callsite of the key made of the parts: the callsite made
    /// for that key before, if there is one, and the cache is unchanged; otherwise a
    /// new callsite, numbered after the others. No key ever has two callsites.
    pub fn callsite_for(&mut self, level: Level, line: Option<u32>, file: Option<&'static str>) -> (i:
        usize)
        ensures
            i < final(self)@.len(),
            final(self)@[i as int] == spec_parts(level, line, file),
            final(self)@.no_duplicates(),
            final(self)@ == spec_register(old(self)@, spec_parts(level, line, file)),
            old(self)@.contains(spec_parts(level, line, file)) ==> final(self)@ == old(self)@,
            !old(self)@.contains(spec_parts(level, line, file)) ==> final(self)@ == old(self)@.push(
                spec_parts(level, line, file),
            ) && i == old(self)@.len(),
    {
        proof {
            use_type_invariant(&*self);
        }
        let ghost k = spec_parts(level, line, file);
        let n = self.keys.len();
        let mut j: usize = 0;
        while j < n
            invariant
                n == self.keys@.len(),
                j <= n,
                k == spec_parts(level, line, file),
                self@.no_duplicates(),
                forall|t: int| 0 <= t < j ==> spec_key(#[trigger] self.keys@[t]) != k,
            decreases n - j,
        {
            if key_is(&self.keys[j], level, line, file) {
                assert(self@[j as int] == k);
                return j;
            }
            j = j + 1;
        }
        assert(!self@.contains(k)) by {
            if self@.contains(k) {
                let t = choose|t: int| 0 <= t < self@.len() && self@[t] == k;
                assert(spec_key(self.keys@[t]) == k);
            }
        }
        let ghost before = self@;
        let mut keys: Vec<Key<'static>> = Vec::new();
        std::mem::swap(&mut keys, &mut self.keys);
        keys.push(Key { level, line, file });
        assert(keys@.map_values(|k: Key<'static>| spec_key(k)) =~= before.push(k));
        self.keys = keys;
        n
    }
}

/// How interested the subscriber is in a callsite.
#[derive(Debug, Clone, Copy, PartialEq, Eq)]
pub enum Interest {
    Never,
    Sometimes,
    Always,
}

impl Interest {
    /// The code that a callsite stores for the interest.
    pub open spec fn spec_code(self) -> usize {
        match self {
            Interest::Never => CALLSITE_INTEREST_NEVER,
            Interest::Sometimes => CALLSITE_INTEREST_SOMETIMES,
            Interest::Always => CALLSITE_INTEREST_ALWAYS,
        }
    }

    /// The code that a callsite stores for the interest.
    pub fn to_code(self) -> (c: usize)
        ensures
            c == self.spec_code(),
    {
        match self {
            Interest::Never => CALLSITE_INTEREST_NEVER,
            Interest::Sometimes => CALLSITE_INTEREST_SOMETIMES,
            Interest::Always => CALLSITE_INTEREST_ALWAYS,
        }
    }

    /// The interest that a stored code stands for; a code is only read once it has
    /// been set.
    pub fn from_code(code: usize) -> (i: Interest)
        requires
            1 <= code <= 3,
        ensures
            i.spec_code() == code,
    {
        if code == CALLSITE_INTEREST_NEVER {
            Interest::Never
        } else if code == CALLSITE_INTEREST_SOMETIMES {
            Interest::Sometimes
        } else {
            Interest::Always
        }
    }
}

/// Reading back the stored code of an interest gives the interest.
pub proof fn lemma_interest_round_trip(i: Interest)
    ensures
        1 <= i.spec_code() <= 3,
        forall|j: Interest| j.spec_code() == i.spec_code() ==> j == i,
{
}

} // verus!
