//! Runtime classification: maps a free-form runtime identifier to one of a
//! closed set of runtime families by ASCII-case-insensitive keyword matching.

use vstd::prelude::*;
use crate::text::{ci_contains, ci_equal, ci_starts_with, ci_contains_str, ci_equal_str,
    ci_starts_with_str};

verus! {

/// The closed set of language families a function's declared runtime can
/// fall into. Derived from the runtime string, never stored.
#[derive(Clone, Copy, Debug, PartialEq, Eq, Structural)]
pub enum RuntimeFamily {
    Python,
    Node,
    Go,
    Rust,
    Java,
    Unknown,
}

/// The family a runtime identifier classifies to: the first keyword rule
/// that matches wins, and a string matching none is `Unknown`.
pub open spec fn classify(rt: Seq<char>) -> RuntimeFamily {
    if ci_contains(rt, "python"@) {
        RuntimeFamily::Python
    } else if ci_contains(rt, "node"@) || ci_contains(rt, "javascript"@) || ci_contains(
        rt,
        "typescript"@,
    ) {
        RuntimeFamily::Node
    } else if ci_contains(rt, "golang"@) || ci_equal(rt, "go"@) || ci_starts_with(rt, "go:"@) {
        RuntimeFamily::Go
    } else if ci_contains(rt, "rust"@) {
        RuntimeFamily::Rust
    } else if ci_contains(rt, "java"@) {
        RuntimeFamily::Java
    } else {
        RuntimeFamily::Unknown
    }
}

/// Classifies a runtime identifier. Pure and total: every string maps to a
/// family, unrecognized input is data (`Unknown`), not a failure.
pub fn detect_runtime_family(runtime: &str) -> (family: RuntimeFamily)
    ensures
        family == classify(runtime@),
{
    if ci_contains_str(runtime, "python") {
        RuntimeFamily::Python
    } else if ci_contains_str(runtime, "node") || ci_contains_str(runtime, "javascript")
        || ci_contains_str(runtime, "typescript") {
        RuntimeFamily::Node
    } else if ci_contains_str(runtime, "golang") || ci_equal_str(runtime, "go")
        || ci_starts_with_str(runtime, "go:") {
        RuntimeFamily::Go
    } else if ci_contains_str(runtime, "rust") {
        RuntimeFamily::Rust
    } else if ci_contains_str(runtime, "java") {
        RuntimeFamily::Java
    } else {
        RuntimeFamily::Unknown
    }
}

/// Law: a runtime containing "python" in any ASCII case classifies as
/// Python; each further family's keywords decide likewise, provided no
/// earlier rule already matched; a string matching no rule is Unknown.
pub proof fn lemma_classification(rt: Seq<char>)
    ensures
        ci_contains(rt, "python"@) ==> classify(rt) == RuntimeFamily::Python,
        !ci_contains(rt, "python"@) && (ci_contains(rt, "node"@) || ci_contains(
            rt,
            "javascript"@,
        ) || ci_contains(rt, "typescript"@)) ==> classify(rt) == RuntimeFamily::Node,
        classify(rt) != RuntimeFamily::Python && classify(rt) != RuntimeFamily::Node && (
        ci_contains(rt, "golang"@) || ci_equal(rt, "go"@) || ci_starts_with(rt, "go:"@))
            ==> classify(rt) == RuntimeFamily::Go,
        classify(rt) != RuntimeFamily::Python && classify(rt) != RuntimeFamily::Node && classify(
            rt,
        ) != RuntimeFamily::Go && ci_contains(rt, "rust"@) ==> classify(rt)
            == RuntimeFamily::Rust,
        classify(rt) != RuntimeFamily::Python && classify(rt) != RuntimeFamily::Node && classify(
            rt,
        ) != RuntimeFamily::Go && classify(rt) != RuntimeFamily::Rust && ci_contains(rt, "java"@)
            ==> classify(rt) == RuntimeFamily::Java,
        !ci_contains(rt, "python"@) && !ci_contains(rt, "node"@) && !ci_contains(
            rt,
            "javascript"@,
        ) && !ci_contains(rt, "typescript"@) && !ci_contains(rt, "golang"@) && !ci_equal(
            rt,
            "go"@,
        ) && !ci_starts_with(rt, "go:"@) && !ci_contains(rt, "rust"@) && !ci_contains(rt, "java"@)
            ==> classify(rt) == RuntimeFamily::Unknown,
{
}

} // verus!
