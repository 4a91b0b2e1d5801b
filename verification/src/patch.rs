//! The changes made to the vendored engine headers before they are compiled: the
//! alignment attribute around the type-code field of the Halide runtime header is
//! taken out, and the engine's print macros are routed to the Rust log.
use vstd::prelude::*;
use vstd::string::*;

use crate::text::{replace_text, spec_replace};

verus! {

/// The line of the Halide runtime header that the change is made around.
pub open spec fn spec_halide_search() -> Seq<char> {
    "HALIDE_ATTRIBUTE_ALIGN(1) halide_type_code_t code; // halide_type_code_t"@
}

/// The line of the Halide runtime header that the change is made around.
pub fn halide_search() -> (s: &'static str)
    ensures
        s@ == spec_halide_search(),
{
    "HALIDE_ATTRIBUTE_ALIGN(1) halide_type_code_t code; // halide_type_code_t"
}

/// `needle` occurs in `hay` at position `i`.
pub open spec fn spec_occurs_at(hay: Seq<char>, needle: Seq<char>, i: int) -> bool {
    0 <= i && i + needle.len() <= hay.len() && hay.subrange(i, i + needle.len()) == needle
}

/// `needle` occurs somewhere in `hay`.
pub open spec fn spec_contains_text(hay: Seq<char>, needle: Seq<char>) -> bool {
    exists|i: int| spec_occurs_at(hay, needle, i)
}

/// Whether `needle` occurs in `hay`.
pub fn contains_text(hay: &str, needle: &str) -> (b: bool)
    ensures
        b == spec_contains_text(hay@, needle@),
{
    let n = hay.unicode_len();
    let m = needle.unicode_len();
    if m > n {
        assert forall|i: int| !spec_occurs_at(hay@, needle@, i) by {}
        return false;
    }
    let mut i: usize = 0;
    while i <= n - m
        invariant
            n == hay@.len(),
            m == needle@.len(),
            m <= n,
            i <= n - m + 1,
            forall|k: int| 0 <= k < i ==> !spec_occurs_at(hay@, needle@, k),
        decreases n - m + 1 - i,
    {
        let mut j: usize = 0;
        let mut same = true;
        while j < m
            invariant
                n == hay@.len(),
                m == needle@.len(),
                i + m <= n,
                j <= m,
                same == (forall|t: int| 0 <= t < j ==> hay@[i + t] == needle@[t]),
            decreases m - j,
        {
            if hay.get_char(i + j) != needle.get_char(j) {
                same = false;
            }
            j = j + 1;
        }
        if same {
            assert(hay@.subrange(i as int, i + m) =~= needle@);
            assert(spec_occurs_at(hay@, needle@, i as int));
            return true;
        }
        assert(!spec_occurs_at(hay@, needle@, i as int)) by {
            if hay@.subrange(i as int, i + m) == needle@ {
                let t = choose|t: int| 0 <= t < m && hay@[i + t] != needle@[t];
                assert(hay@.subrange(i as int, i + m)[t] == hay@[i + t]);
            }
        }
        i = i + 1;
    }
    assert forall|k: int| !spec_occurs_at(hay@, needle@, k) by {
        if spec_occurs_at(hay@, needle@, k) {
            assert(0 <= k < i);
        }
    }
    false
}

/// Whether the line at `c` is taken out by the change made around the line at `idx`:
/// the line before it and the three lines after it.
pub open spec fn spec_dropped(idx: int, c: int) -> bool {
    c == idx - 1 || (idx + 1 <= c && c <= idx + 3)
}

/// The first `n` lines, without those that the change around the line at `idx` takes
/// out.
pub open spec fn spec_kept(lines: Seq<Seq<char>>, idx: int, n: int) -> Seq<Seq<char>>
    decreases n,
{
    if n <= 0 {
        Seq::empty()
    } else {
        let prev = spec_kept(lines, idx, n - 1);
        if spec_dropped(idx, n - 1) {
            prev
        } else {
            prev.push(lines[n - 1])
        }
    }
}

/// The texts of a list of lines.
pub open spec fn spec_lines(v: Seq<String>) -> Seq<Seq<char>> {
    v.map_values(|s: String| s@)
}

/// The index of the first line that holds `needle`, if any.
pub fn first_line_with(lines: &Vec<String>, needle: &str) -> (r: Option<usize>)
    ensures
        r matches Some(i) ==> i < lines@.len() && spec_contains_text(lines@[i as int]@, needle@)
            && forall|k: int| 0 <= k < i ==> !spec_contains_text(#[trigger] lines@[k]@, needle@),
        r is None ==> forall|k: int|
            0 <= k < lines@.len() ==> !spec_contains_text(#[trigger] lines@[k]@, needle@),
{
    let n = lines.len();
    let mut i: usize = 0;
    while i < n
        invariant
            n == lines@.len(),
            i <= n,
            forall|k: int| 0 <= k < i ==> !spec_contains_text(#[trigger] lines@[k]@, needle@),
        decreases n - i,
    {
        if contains_text(lines[i].as_str(), needle) {
            return Some(i);
        }
        i = i + 1;
    }
    None
}

/// The lines of the Halide runtime header after the change: none when no line holds
/// the line searched for; otherwise the lines without the one before the first line
/// that holds it and the three after. The first line never holds it in the header.
pub fn patch_halide_lines(lines: &Vec<String>) -> (r: Option<Vec<String>>)
    requires
        lines@.len() > 0 ==> !spec_contains_text(lines@[0]@, spec_halide_search()),
    ensures
        (forall|k: int|
            0 <= k < lines@.len() ==> !spec_contains_text(#[trigger] lines@[k]@, spec_halide_search()))
            ==> r is None,
        r matches Some(v) ==> exists|idx: int|
            0 < idx < lines@.len() && spec_contains_text(lines@[idx]@, spec_halide_search())
                && (forall|k: int|
                0 <= k < idx ==> !spec_contains_text(#[trigger] lines@[k]@, spec_halide_search()))
                && spec_lines(v@) == spec_kept(spec_lines(lines@), idx, lines@.len() as int),
        (exists|k: int|
            0 <= k < lines@.len() && spec_contains_text(#[trigger] lines@[k]@, spec_halide_search()))
            ==> r is Some,
{
    let idx = match first_line_with(lines, halide_search()) {
        Some(i) => i,
        None => return None,
    };
    let n = lines.len();
    let mut out: Vec<String> = Vec::new();
    let mut c: usize = 0;
    while c < n
        invariant
            n == lines@.len(),
            0 < idx < n,
            c <= n,
            spec_lines(out@) == spec_kept(spec_lines(lines@), idx as int, c as int),
        decreases n - c,
    {
        let dropped = c + 1 == idx || (c > idx && c - idx <= 3);
        if !dropped {
            out.push(lines[c].clone());
        }
        proof {
            assert(spec_lines(out@) =~= spec_kept(spec_lines(lines@), idx as int, c + 1));
        }
        c = c + 1;
    }
    Some(out)
}

/// The definitions of the engine's two print macros in its definitions header, both
/// of which print to the standard output.
pub open spec fn spec_tracing_search() -> Seq<char> {
    "#define MNN_PRINT(format, ...) printf(format, ##__VA_ARGS__)\n#define MNN_ERROR(format, ...) printf(format, ##__VA_ARGS__)"@
}

/// The definitions of the engine's two print macros in its definitions header.
pub fn tracing_search() -> (s: &'static str)
    ensures
        s@ == spec_tracing_search(),
{
    "#define MNN_PRINT(format, ...) printf(format, ##__VA_ARGS__)\n#define MNN_ERROR(format, ...) printf(format, ##__VA_ARGS__)"
}

/// Replacing text that does not occur leaves the text as it is; so a header without
/// the two print macro definitions is not changed by the patch.
pub proof fn lemma_replace_absent(s: Seq<char>, from: Seq<char>, to: Seq<char>)
    requires
        !spec_contains_text(s, from),
    ensures
        spec_replace(s, from, to) == s,
    decreases s.len(),
{
    if s.len() > 0 && from.len() > 0 {
        if from.len() <= s.len() && s.take(from.len() as int) == from {
            assert(s.subrange(0, from.len() as int) =~= s.take(from.len() as int));
            assert(spec_occurs_at(s, from, 0));
        } else {
            let rest = s.skip(1);
            assert(!spec_contains_text(rest, from)) by {
                if spec_contains_text(rest, from) {
                    let i = choose|i: int| spec_occurs_at(rest, from, i);
                    assert(rest.subrange(i, i + from.len()) =~= s.subrange(i + 1, i + 1 + from.len()));
                    assert(spec_occurs_at(s, from, i + 1));
                }
            }
            lemma_replace_absent(rest, from, to);
            assert(seq![s[0]] + rest =~= s);
        }
    }
}

/// The definitions header after the change: each occurrence of the two print macro
/// definitions, from the left, is replaced by `replacement`, the definitions that
/// hand each message to the Rust log callback.
pub fn patch_tracing_macros(contents: &str, replacement: &str) -> (r: String)
    ensures
        r@ == spec_replace(contents@, spec_tracing_search(), replacement@),
        !spec_contains_text(contents@, spec_tracing_search()) ==> r@ == contents@,
{
    let search = tracing_search();
    proof {
        if !spec_contains_text(contents@, spec_tracing_search()) {
            lemma_replace_absent(contents@, spec_tracing_search(), replacement@);
        }
        reveal_strlit(
            "#define MNN_PRINT(format, ...) printf(format, ##__VA_ARGS__)\n#define MNN_ERROR(format, ...) printf(format, ##__VA_ARGS__)",
        );
    }
    replace_text(contents, search, replacement)
}

} // verus!
