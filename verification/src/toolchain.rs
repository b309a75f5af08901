//! Toolchain location: the ordered candidate binaries per runtime family, and
//! the decision over a sequence of probe results. The probes themselves (one
//! spawned version check per candidate) run outside the library; their
//! success flags are handed in, in candidate order.

use vstd::prelude::*;
use vstd::string::*;
use crate::errors::OrbitError;
use crate::runtime::RuntimeFamily;

verus! {

/// The ordered candidate executable names probed for a family. An Unknown
/// runtime has none: location fails immediately, with no probing.
pub open spec fn candidate_names(f: RuntimeFamily) -> Seq<Seq<char>> {
    match f {
        RuntimeFamily::Python => seq!["python3"@, "python"@],
        RuntimeFamily::Node => seq!["node"@],
        RuntimeFamily::Go => seq!["go"@],
        RuntimeFamily::Rust => seq!["cargo"@, "rustc"@],
        RuntimeFamily::Java => seq!["java"@],
        RuntimeFamily::Unknown => Seq::empty(),
    }
}

/// Index of the first `true` in a sequence of flags, if any.
pub open spec fn first_true(bs: Seq<bool>) -> Option<int>
    decreases bs.len(),
{
    if bs.len() == 0 {
        None
    } else if bs[0] {
        Some(0)
    } else {
        match first_true(bs.drop_first()) {
            Some(i) => Some(i + 1),
            None => None,
        }
    }
}

proof fn lemma_first_true_at(bs: Seq<bool>, i: int)
    requires
        0 <= i < bs.len(),
        bs[i],
        forall|j: int| 0 <= j < i ==> !bs[j],
    ensures
        first_true(bs) == Some(i),
    decreases i,
{
    if i == 0 {
    } else {
        lemma_first_true_at(bs.drop_first(), i - 1);
    }
}

proof fn lemma_first_true_none(bs: Seq<bool>)
    requires
        forall|j: int| 0 <= j < bs.len() ==> !bs[j],
    ensures
        first_true(bs) == None::<int>,
    decreases bs.len(),
{
    if bs.len() > 0 {
        lemma_first_true_none(bs.drop_first());
    }
}

/// The ordered candidate binaries probed for a family.
pub fn toolchain_candidates(family: RuntimeFamily) -> (v: Vec<&'static str>)
    ensures
        v@.len() == candidate_names(family).len(),
        forall|i: int| 0 <= i < v@.len() ==> (#[trigger] v@[i])@ == candidate_names(family)[i],
{
    let mut v: Vec<&'static str> = Vec::new();
    match family {
        RuntimeFamily::Python => {
            v.push("python3");
            v.push("python");
        },
        RuntimeFamily::Node => {
            v.push("node");
        },
        RuntimeFamily::Go => {
            v.push("go");
        },
        RuntimeFamily::Rust => {
            v.push("cargo");
            v.push("rustc");
        },
        RuntimeFamily::Java => {
            v.push("java");
        },
        RuntimeFamily::Unknown => {},
    }
    v
}

/// The short label naming a family in the missing-toolchain message.
pub open spec fn family_label(f: RuntimeFamily) -> Seq<char> {
    match f {
        RuntimeFamily::Python => "python"@,
        RuntimeFamily::Node => "node"@,
        RuntimeFamily::Go => "go"@,
        RuntimeFamily::Rust => "rust"@,
        RuntimeFamily::Java => "java"@,
        RuntimeFamily::Unknown => "unknown"@,
    }
}

/// The per-family install guidance embedded in the missing-toolchain
/// message.
pub open spec fn install_hint(f: RuntimeFamily) -> Seq<char> {
    match f {
        RuntimeFamily::Python => "Install Python 3.10+.\n  macOS: brew install python\n  Ubuntu/Debian: sudo apt-get install -y python3"@,
        RuntimeFamily::Node => "Install Node.js 18+.\n  macOS: brew install node\n  Ubuntu/Debian: sudo apt-get install -y nodejs npm"@,
        RuntimeFamily::Go => "Install Go 1.22+.\n  macOS: brew install go\n  Ubuntu/Debian: sudo apt-get install -y golang-go"@,
        RuntimeFamily::Rust => "Install Rust toolchain.\n  macOS/Linux: curl https://sh.rustup.rs -sSf | sh"@,
        RuntimeFamily::Java => "Install JDK 17+.\n  macOS: brew install openjdk@17\n  Ubuntu/Debian: sudo apt-get install -y openjdk-17-jdk"@,
        RuntimeFamily::Unknown => ""@,
    }
}

/// The message reported when no candidate binary of a known family answered
/// its version probe.
pub open spec fn missing_toolchain_text(rt: Seq<char>, f: RuntimeFamily) -> Seq<char> {
    "Missing runtime toolchain for '"@ + rt + "' ("@ + family_label(f)
        + "). Install first.\n"@ + install_hint(f)
}

/// The message reported when a local test is asked of a runtime that
/// classifies to no known family.
pub open spec fn unrecognized_runtime_text(rt: Seq<char>) -> Seq<char> {
    "Runtime '"@ + rt
        + "' is not recognized. Pull succeeded, but local test needs a known runtime toolchain."@
}

fn family_label_str(family: RuntimeFamily) -> (r: &'static str)
    ensures
        r@ == family_label(family),
{
    match family {
        RuntimeFamily::Python => "python",
        RuntimeFamily::Node => "node",
        RuntimeFamily::Go => "go",
        RuntimeFamily::Rust => "rust",
        RuntimeFamily::Java => "java",
        RuntimeFamily::Unknown => "unknown",
    }
}

fn install_hint_str(family: RuntimeFamily) -> (r: &'static str)
    ensures
        r@ == install_hint(family),
{
    match family {
        RuntimeFamily::Python => "Install Python 3.10+.\n  macOS: brew install python\n  Ubuntu/Debian: sudo apt-get install -y python3",
        RuntimeFamily::Node => "Install Node.js 18+.\n  macOS: brew install node\n  Ubuntu/Debian: sudo apt-get install -y nodejs npm",
        RuntimeFamily::Go => "Install Go 1.22+.\n  macOS: brew install go\n  Ubuntu/Debian: sudo apt-get install -y golang-go",
        RuntimeFamily::Rust => "Install Rust toolchain.\n  macOS/Linux: curl https://sh.rustup.rs -sSf | sh",
        RuntimeFamily::Java => "Install JDK 17+.\n  macOS: brew install openjdk@17\n  Ubuntu/Debian: sudo apt-get install -y openjdk-17-jdk",
        RuntimeFamily::Unknown => "",
    }
}

/// Builds the missing-toolchain message for a known family.
pub fn missing_toolchain_message(runtime: &str, family: RuntimeFamily) -> (r: String)
    ensures
        r@ == missing_toolchain_text(runtime@, family),
{
    let mut out = "Missing runtime toolchain for '".to_owned();
    out.append(runtime);
    out.append("' (");
    out.append(family_label_str(family));
    out.append("). Install first.\n");
    out.append(install_hint_str(family));
    out
}

/// Builds the unrecognized-runtime message.
pub fn unrecognized_runtime_message(runtime: &str) -> (r: String)
    ensures
        r@ == unrecognized_runtime_text(runtime@),
{
    let mut out = "Runtime '".to_owned();
    out.append(runtime);
    out.append(
        "' is not recognized. Pull succeeded, but local test needs a known runtime toolchain.",
    );
    out
}

/// Decides toolchain location from the probe results, in candidate order:
/// the first candidate whose version probe succeeded is the toolchain; if
/// none did, the family-specific guidance message is the failure, and an
/// Unknown runtime fails with the unrecognized-runtime message.
pub fn ensure_toolchain(runtime: &str, family: RuntimeFamily, probe_ok: &Vec<bool>) -> (r: Result<
    String,
    OrbitError,
>)
    requires
        probe_ok@.len() == candidate_names(family).len(),
    ensures
        match first_true(probe_ok@) {
            Some(i) => r matches Ok(tool) && tool@ == candidate_names(family)[i],
            None => r matches Err(OrbitError::Input(m)) && m@ == (if family
                == RuntimeFamily::Unknown {
                unrecognized_runtime_text(runtime@)
            } else {
                missing_toolchain_text(runtime@, family)
            }),
        },
{
    let cands = toolchain_candidates(family);
    let n = probe_ok.len();
    let mut i: usize = 0;
    while i < n
        invariant
            n == probe_ok@.len(),
            probe_ok@.len() == cands@.len(),
            forall|k: int| 0 <= k < cands@.len() ==> (#[trigger] cands@[k])@ == candidate_names(
                family,
            )[k],
            0 <= i <= n,
            forall|j: int| 0 <= j < i ==> !probe_ok@[j],
        decreases n - i,
    {
        if probe_ok[i] {
            proof {
                lemma_first_true_at(probe_ok@, i as int);
            }
            return Ok(cands[i].to_owned());
        }
        i += 1;
    }
    proof {
        lemma_first_true_none(probe_ok@);
    }
    if family == RuntimeFamily::Unknown {
        Err(OrbitError::Input(unrecognized_runtime_message(runtime)))
    } else {
        Err(OrbitError::Input(missing_toolchain_message(runtime, family)))
    }
}

} // verus!
