//! Layout resolution: derives the conventional relative source-file path of a
//! pulled function from its runtime family and its dotted handler reference.

use vstd::prelude::*;
use vstd::string::*;
use crate::runtime::{RuntimeFamily, classify, detect_runtime_family};

verus! {

/// Position of the last '.' in a handler reference, if any.
pub open spec fn last_dot(h: Seq<char>) -> Option<int> {
    crate::text::last_index_of(h, '.')
}

/// The module path of a dotted handler reference: everything before the last
/// dot, when that part is nonempty. A handler without a dot, or with nothing
/// before its last dot, has no module path.
pub open spec fn module_part(h: Seq<char>) -> Option<Seq<char>> {
    match last_dot(h) {
        Some(i) => if i > 0 {
            Some(h.subrange(0, i))
        } else {
            None
        },
        None => None,
    }
}

/// The export name of a dotted handler reference: the segment after the last
/// dot, or the whole reference when it has no dot.
pub open spec fn export_part(h: Seq<char>) -> Seq<char> {
    match last_dot(h) {
        Some(i) => h.subrange(i + 1, h.len() as int),
        None => h,
    }
}

/// The sequence with every '.' replaced by '/'.
pub open spec fn dots_to_slashes(s: Seq<char>) -> Seq<char> {
    Seq::new(s.len(), |i: int| if s[i] == '.' { '/' } else { s[i] })
}

/// The conventional relative source path for a runtime and handler pair.
pub open spec fn rel_path(rt: Seq<char>, h: Seq<char>) -> Seq<char> {
    match classify(rt) {
        RuntimeFamily::Python => match module_part(h) {
            Some(m) => dots_to_slashes(m) + ".py"@,
            None => "main.py"@,
        },
        RuntimeFamily::Node => match module_part(h) {
            Some(m) => dots_to_slashes(m) + ".js"@,
            None => "index.js"@,
        },
        RuntimeFamily::Go => "main.go"@,
        RuntimeFamily::Rust => "src/main.rs"@,
        RuntimeFamily::Java => "Main.java"@,
        RuntimeFamily::Unknown => "function.txt"@,
    }
}

/// Index of the last '.' in a string, scanning from the end.
pub fn find_last_dot(s: &str) -> (r: Option<usize>)
    ensures
        match r {
            Some(i) => last_dot(s@) == Some(i as int) && i < s@.len(),
            None => last_dot(s@) == None::<int>,
        },
{
    crate::text::find_last(s, '.')
}

/// The export name of a handler reference, as a fresh string.
pub fn handler_export_name(handler: &str) -> (r: String)
    ensures
        r@ == export_part(handler@),
{
    let len = handler.unicode_len();
    match find_last_dot(handler) {
        Some(i) => handler.substring_char(i + 1, len).to_owned(),
        None => handler.to_owned(),
    }
}

/// Builds the prefix `s[..end]` with every '.' replaced by '/'.
fn dots_to_slashes_prefix(s: &str, end: usize) -> (r: String)
    requires
        end <= s@.len(),
    ensures
        r@ == dots_to_slashes(s@.subrange(0, end as int)),
{
    let mut out = String::new();
    let mut i: usize = 0;
    proof {
        assert(out@ =~= dots_to_slashes(s@.subrange(0, 0)));
    }
    while i < end
        invariant
            end <= s@.len(),
            0 <= i <= end,
            out@ == dots_to_slashes(s@.subrange(0, i as int)),
        decreases end - i,
    {
        let ghost prev = out@;
        let c = s.get_char(i);
        if c == '.' {
            out.append("/");
            proof {
                reveal_strlit("/");
                assert(out@ =~= dots_to_slashes(s@.subrange(0, i + 1)));
            }
        } else {
            let piece = s.substring_char(i, i + 1);
            out.append(piece);
            proof {
                assert(piece@ =~= seq![s@[i as int]]);
                assert(out@ =~= dots_to_slashes(s@.subrange(0, i + 1)));
            }
        }
        i += 1;
    }
    out
}

/// Derives the conventional relative source path within a pulled directory.
/// Pure: the result depends on the runtime and handler strings alone, with
/// no I/O and no failure mode.
pub fn source_file_rel_path(runtime: &str, handler: &str) -> (r: String)
    ensures
        r@ == rel_path(runtime@, handler@),
{
    let family = detect_runtime_family(runtime);
    let module_end: Option<usize> = match find_last_dot(handler) {
        Some(i) => if i > 0 {
            Some(i)
        } else {
            None
        },
        None => None,
    };
    match family {
        RuntimeFamily::Python => match module_end {
            Some(end) => {
                let mut out = dots_to_slashes_prefix(handler, end);
                out.append(".py");
                out
            },
            None => "main.py".to_owned(),
        },
        RuntimeFamily::Node => match module_end {
            Some(end) => {
                let mut out = dots_to_slashes_prefix(handler, end);
                out.append(".js");
                out
            },
            None => "index.js".to_owned(),
        },
        RuntimeFamily::Go => "main.go".to_owned(),
        RuntimeFamily::Rust => "src/main.rs".to_owned(),
        RuntimeFamily::Java => "Main.java".to_owned(),
        RuntimeFamily::Unknown => "function.txt".to_owned(),
    }
}

/// Law: the relative source path is a pure function: two calls with
/// identical runtime and handler inputs yield identical paths.
pub proof fn lemma_rel_path_pure(rt1: Seq<char>, h1: Seq<char>, rt2: Seq<char>, h2: Seq<char>)
    requires
        rt1 == rt2,
        h1 == h2,
    ensures
        rel_path(rt1, h1) == rel_path(rt2, h2),
{
}

} // verus!
