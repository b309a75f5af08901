//! Driver generation and the local-test decision. A local test either runs a
//! generated inline driver program through the located toolchain (Python and
//! Node families) or is skipped with a reason (all other families). The
//! library decides and plans; the spawned process's results come back through
//! `conclude_local_test`.

use vstd::prelude::*;
use vstd::string::*;
use crate::errors::OrbitError;
use crate::layout::{export_part, handler_export_name};
use crate::runtime::{RuntimeFamily, classify, detect_runtime_family};
use crate::text::{last_index_of, find_last, trimmed, trim_str};
use crate::toolchain::{candidate_names, first_true, missing_toolchain_text, ensure_toolchain};

verus! {

/// The inline Python driver: loads the pulled source as a module, resolves
/// the export, decodes the payload, calls the handler with (payload, empty
/// context) falling back to (payload) on an arity error, and prints the
/// JSON-encoded result. Receives source path, export name and payload path
/// as positional arguments.
pub const PYTHON_DRIVER: &'static str = r#"
import importlib.util, json, pathlib, sys

source_path = pathlib.Path(sys.argv[1]).resolve()
handler_name = sys.argv[2]
payload_path = pathlib.Path(sys.argv[3]).resolve()

spec = importlib.util.spec_from_file_location("orbit_local_fn", source_path)
if spec is None or spec.loader is None:
    raise RuntimeError(f"failed to load module from {source_path}")
module = importlib.util.module_from_spec(spec)
spec.loader.exec_module(module)

fn = getattr(module, handler_name, None)
if fn is None:
    raise RuntimeError(f"handler '{handler_name}' not found in {source_path}")

with payload_path.open("r", encoding="utf-8") as fp:
    payload = json.load(fp)

try:
    result = fn(payload, {})
except TypeError:
    result = fn(payload)

print(json.dumps(result, ensure_ascii=False, default=str))
"#;

/// The inline Node driver: reads the payload, resolves the module and export
/// from the dotted handler (falling back to a `default` or `handler`
/// export), awaits the call, and prints the JSON-encoded result. Receives
/// source path, payload path and handler through environment variables.
pub const NODE_DRIVER: &'static str = r#"
const fs = require("fs");
const path = require("path");

(async () => {
  const sourcePath = process.env.ORBIT_SOURCE_PATH;
  const payloadPath = process.env.ORBIT_PAYLOAD_PATH;
  const handlerRaw = process.env.ORBIT_HANDLER || "handler";
  const payload = JSON.parse(fs.readFileSync(payloadPath, "utf8"));

  const parts = handlerRaw.split(".");
  const exportName = parts.length > 1 ? parts[parts.length - 1] : handlerRaw;
  let modulePath = sourcePath;
  if (parts.length > 1) {
    const moduleName = parts.slice(0, -1).join(".");
    modulePath = path.resolve(path.dirname(sourcePath), moduleName.replace(/\./g, "/") + ".js");
  }

  const mod = require(modulePath);
  const fn = mod[exportName] || mod.default || mod.handler;

  if (typeof fn !== "function") {
    throw new Error(`handler '${exportName}' not found in ${modulePath}`);
  }

  const result = await fn(payload, {});
  process.stdout.write(JSON.stringify(result, null, 2));
})().catch((err) => {
  const msg = err && err.stack ? err.stack : String(err);
  process.stderr.write(msg);
  process.exit(1);
});
"#;

/// One subprocess invocation, fully planned: program name, arguments in
/// order, and environment variables to set.
pub struct CommandPlan {
    pub program: String,
    pub args: Vec<String>,
    pub env: Vec<(String, String)>,
}

/// What a requested local test decided: run a planned driver command, or
/// skip with a reason. Never a third silent state.
pub enum LocalTestPlan {
    Invoke { command: CommandPlan, display: String },
    Skip { reason: String },
}

/// The result of an attempted local test: either a driver was executed
/// (command display text and captured, trimmed output), or the test was
/// skipped with a reason.
pub enum LocalTestOutcome {
    Executed { command: String, output: String },
    Skipped { reason: String },
}

/// The directory part of a '/'-separated path: everything before the last
/// slash, or "." for a path without one.
pub open spec fn parent_dir(p: Seq<char>) -> Seq<char> {
    match last_index_of(p, '/') {
        Some(i) => p.subrange(0, i),
        None => "."@,
    }
}

/// The directory part of a '/'-separated path, executable form.
pub fn parent_dir_str(p: &str) -> (r: String)
    ensures
        r@ == parent_dir(p@),
{
    match find_last(p, '/') {
        Some(i) => p.substring_char(0, i).to_owned(),
        None => ".".to_owned(),
    }
}

/// Skip reason for a Go function whose toolchain is present.
pub open spec fn go_skip_text(tool: Seq<char>, dir: Seq<char>) -> Seq<char> {
    "Toolchain '"@ + tool
        + "' is installed. Auto local runner is currently available for python/node runtimes only. Run go tests manually in "@
        + dir + "."@
}

/// Skip reason for a Rust function whose toolchain is present.
pub open spec fn rust_skip_text(tool: Seq<char>, dir: Seq<char>) -> Seq<char> {
    "Toolchain '"@ + tool
        + "' is installed. Auto local runner is currently available for python/node runtimes only. Run cargo commands manually in "@
        + dir + "."@
}

/// Skip reason for a Java function whose toolchain is present.
pub open spec fn java_skip_text(tool: Seq<char>, dir: Seq<char>) -> Seq<char> {
    "Toolchain '"@ + tool
        + "' is installed. Auto local runner is currently available for python/node runtimes only. Compile/run manually from "@
        + dir + "."@
}

/// Skip reason for a runtime that classifies to no known family.
pub open spec fn unknown_skip_text(rt: Seq<char>) -> Seq<char> {
    "Runtime '"@ + rt
        + "' is not recognized for auto local test. Source has been pulled for manual testing."@
}

/// The displayed command for an executed Python driver.
pub open spec fn python_display_text(tool: Seq<char>) -> Seq<char> {
    tool + " <inline-runner>"@
}

/// The displayed command for an executed Node driver.
pub open spec fn node_display_text(tool: Seq<char>) -> Seq<char> {
    tool + " -e <inline-runner>"@
}

fn skip_message(tool: &str, middle: &'static str, dir: &str) -> (r: String)
    ensures
        r@ == "Toolchain '"@ + tool@ + middle@ + dir@ + "."@,
{
    let mut out = "Toolchain '".to_owned();
    out.append(tool);
    out.append(middle);
    out.append(dir);
    out.append(".");
    out
}

fn unknown_skip_message(runtime: &str) -> (r: String)
    ensures
        r@ == unknown_skip_text(runtime@),
{
    let mut out = "Runtime '".to_owned();
    out.append(runtime);
    out.append("' is not recognized for auto local test. Source has been pulled for manual testing.");
    out
}

/// Plans a requested local test from the runtime, handler, written file
/// paths, and the toolchain probe results (in candidate order, as
/// `toolchain_candidates` lists them):
/// - an Unknown runtime is skipped outright, with no probing;
/// - a known family whose probes all failed is a missing-toolchain failure,
///   before any driver command is formed;
/// - Python and Node plan one driver invocation; Go, Rust and Java are
///   skipped with a reason naming the found tool and the source directory.
pub fn plan_local_test(
    runtime: &str,
    handler: &str,
    source_path: &str,
    payload_path: &str,
    probe_ok: &Vec<bool>,
) -> (r: Result<LocalTestPlan, OrbitError>)
    requires
        probe_ok@.len() == candidate_names(classify(runtime@)).len(),
    ensures
        classify(runtime@) == RuntimeFamily::Unknown ==> (r matches Ok(LocalTestPlan::Skip {
            reason,
        }) && reason@ == unknown_skip_text(runtime@)),
        classify(runtime@) != RuntimeFamily::Unknown && first_true(probe_ok@) is None ==> (r
            matches Err(OrbitError::Input(m)) && m@ == missing_toolchain_text(
            runtime@,
            classify(runtime@),
        )),
        (classify(runtime@) != RuntimeFamily::Unknown && first_true(probe_ok@) is Some) ==> {
            let pi = first_true(probe_ok@)->Some_0;
            let tool = candidate_names(classify(runtime@))[pi];
            match classify(runtime@) {
                RuntimeFamily::Python => (r matches Ok(LocalTestPlan::Invoke { command, display })
                    && display@ == python_display_text(tool) && command.program@ == tool
                    && command.env@.len() == 0 && command.args@.len() == 5 && command.args@[0]@
                    == "-c"@ && command.args@[1]@ == PYTHON_DRIVER@ && command.args@[2]@
                    == source_path@ && command.args@[3]@ == export_part(handler@)
                    && command.args@[4]@ == payload_path@),
                RuntimeFamily::Node => (r matches Ok(LocalTestPlan::Invoke { command, display })
                    && display@ == node_display_text(tool) && command.program@ == tool
                    && command.args@.len() == 2 && command.args@[0]@ == "-e"@ && command.args@[1]@
                    == NODE_DRIVER@ && command.env@.len() == 3 && command.env@[0].0@
                    == "ORBIT_SOURCE_PATH"@ && command.env@[0].1@ == source_path@
                    && command.env@[1].0@ == "ORBIT_PAYLOAD_PATH"@ && command.env@[1].1@
                    == payload_path@ && command.env@[2].0@ == "ORBIT_HANDLER"@ && command.env@[2].1@
                    == handler@),
                RuntimeFamily::Go => (r matches Ok(LocalTestPlan::Skip { reason }) && reason@
                    == go_skip_text(tool, parent_dir(source_path@))),
                RuntimeFamily::Rust => (r matches Ok(LocalTestPlan::Skip { reason }) && reason@
                    == rust_skip_text(tool, parent_dir(source_path@))),
                RuntimeFamily::Java => (r matches Ok(LocalTestPlan::Skip { reason }) && reason@
                    == java_skip_text(tool, parent_dir(source_path@))),
                RuntimeFamily::Unknown => false,
            }
        },
{
    let family = detect_runtime_family(runtime);
    if family == RuntimeFamily::Unknown {
        return Ok(LocalTestPlan::Skip { reason: unknown_skip_message(runtime) });
    }
    let tool = match ensure_toolchain(runtime, family, probe_ok) {
        Ok(t) => t,
        Err(e) => {
            return Err(e);
        },
    };
    match family {
        RuntimeFamily::Python => {
            let mut display = tool.clone();
            display.append(" <inline-runner>");
            let mut args: Vec<String> = Vec::new();
            args.push("-c".to_owned());
            args.push(PYTHON_DRIVER.to_owned());
            args.push(source_path.to_owned());
            args.push(handler_export_name(handler));
            args.push(payload_path.to_owned());
            let command = CommandPlan { program: tool, args, env: Vec::new() };
            Ok(LocalTestPlan::Invoke { command, display })
        },
        RuntimeFamily::Node => {
            let mut display = tool.clone();
            display.append(" -e <inline-runner>");
            let mut args: Vec<String> = Vec::new();
            args.push("-e".to_owned());
            args.push(NODE_DRIVER.to_owned());
            let mut env: Vec<(String, String)> = Vec::new();
            env.push(("ORBIT_SOURCE_PATH".to_owned(), source_path.to_owned()));
            env.push(("ORBIT_PAYLOAD_PATH".to_owned(), payload_path.to_owned()));
            env.push(("ORBIT_HANDLER".to_owned(), handler.to_owned()));
            let command = CommandPlan { program: tool, args, env };
            Ok(LocalTestPlan::Invoke { command, display })
        },
        RuntimeFamily::Go => {
            let dir = parent_dir_str(source_path);
            Ok(
                LocalTestPlan::Skip {
                    reason: skip_message(
                        tool.as_str(),
                        "' is installed. Auto local runner is currently available for python/node runtimes only. Run go tests manually in ",
                        dir.as_str(),
                    ),
                },
            )
        },
        RuntimeFamily::Rust => {
            let dir = parent_dir_str(source_path);
            Ok(
                LocalTestPlan::Skip {
                    reason: skip_message(
                        tool.as_str(),
                        "' is installed. Auto local runner is currently available for python/node runtimes only. Run cargo commands manually in ",
                        dir.as_str(),
                    ),
                },
            )
        },
        RuntimeFamily::Java => {
            let dir = parent_dir_str(source_path);
            Ok(
                LocalTestPlan::Skip {
                    reason: skip_message(
                        tool.as_str(),
                        "' is installed. Auto local runner is currently available for python/node runtimes only. Compile/run manually from ",
                        dir.as_str(),
                    ),
                },
            )
        },
        RuntimeFamily::Unknown => {
            Ok(LocalTestPlan::Skip { reason: unknown_skip_message(runtime) })
        },
    }
}

/// The failure message of a driver process that exited unsuccessfully: the
/// trimmed captured standard error, or "unknown error" when that stream was
/// blank.
pub open spec fn driver_failure_text(f: RuntimeFamily, stderr: Seq<char>) -> Seq<char> {
    (if f == RuntimeFamily::Python {
        "Local python test failed: "@
    } else {
        "Local node test failed: "@
    }) + (if trimmed(stderr).len() == 0 {
        "unknown error"@
    } else {
        trimmed(stderr)
    })
}

/// Folds a finished driver process back into an outcome: success yields an
/// Executed outcome carrying the display command and the trimmed captured
/// standard output; failure yields an input error carrying the trimmed
/// standard error, or "unknown error" when that stream was blank.
pub fn conclude_local_test(
    runtime: &str,
    display: &str,
    exit_ok: bool,
    stdout: &str,
    stderr: &str,
) -> (r: Result<LocalTestOutcome, OrbitError>)
    requires
        classify(runtime@) == RuntimeFamily::Python || classify(runtime@) == RuntimeFamily::Node,
    ensures
        exit_ok ==> (r matches Ok(LocalTestOutcome::Executed { command, output }) && command@
            == display@ && output@ == trimmed(stdout@)),
        !exit_ok ==> (r matches Err(OrbitError::Input(m)) && m@ == driver_failure_text(
            classify(runtime@),
            stderr@,
        )),
{
    if exit_ok {
        Ok(LocalTestOutcome::Executed { command: display.to_owned(), output: trim_str(stdout) })
    } else {
        let family = detect_runtime_family(runtime);
        let mut msg = if family == RuntimeFamily::Python {
            "Local python test failed: ".to_owned()
        } else {
            "Local node test failed: ".to_owned()
        };
        let err = trim_str(stderr);
        if err.as_str().is_empty() {
            msg.append("unknown error");
        } else {
            msg.append(err.as_str());
        }
        Err(OrbitError::Input(msg))
    }
}

/// The summary status of an optional local test: "not-run" when none was
/// requested, otherwise "executed" or "skipped" by its tag.
pub fn local_test_status(outcome: &Option<LocalTestOutcome>) -> (r: &'static str)
    ensures
        outcome is None ==> r@ == "not-run"@,
        outcome matches Some(LocalTestOutcome::Executed { .. }) ==> r@ == "executed"@,
        outcome matches Some(LocalTestOutcome::Skipped { .. }) ==> r@ == "skipped"@,
{
    match outcome {
        None => "not-run",
        Some(LocalTestOutcome::Executed { .. }) => "executed",
        Some(LocalTestOutcome::Skipped { .. }) => "skipped",
    }
}

} // verus!
