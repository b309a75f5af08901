use orbit::driver::{conclude_local_test, local_test_status, plan_local_test, LocalTestOutcome,
    LocalTestPlan, NODE_DRIVER, PYTHON_DRIVER};
use orbit::layout::{handler_export_name, source_file_rel_path};
use orbit::runtime::{detect_runtime_family, RuntimeFamily};
use orbit::toolchain::{ensure_toolchain, toolchain_candidates};

#[test]
fn classify_python_any_case() {
    assert_eq!(detect_runtime_family("python3.11"), RuntimeFamily::Python);
    assert_eq!(detect_runtime_family("PYTHON"), RuntimeFamily::Python);
    assert_eq!(detect_runtime_family("PyThOn-3.9"), RuntimeFamily::Python);
    assert_eq!(detect_runtime_family("cpython"), RuntimeFamily::Python);
}

#[test]
fn classify_node_family() {
    assert_eq!(detect_runtime_family("node18"), RuntimeFamily::Node);
    assert_eq!(detect_runtime_family("NodeJS"), RuntimeFamily::Node);
    assert_eq!(detect_runtime_family("JavaScript"), RuntimeFamily::Node);
    assert_eq!(detect_runtime_family("typescript"), RuntimeFamily::Node);
}

#[test]
fn classify_go_family() {
    assert_eq!(detect_runtime_family("go"), RuntimeFamily::Go);
    assert_eq!(detect_runtime_family("GO"), RuntimeFamily::Go);
    assert_eq!(detect_runtime_family("go:1.22"), RuntimeFamily::Go);
    assert_eq!(detect_runtime_family("GOLANG-1.21"), RuntimeFamily::Go);
    assert_eq!(detect_runtime_family("go1.22"), RuntimeFamily::Unknown);
}

#[test]
fn classify_rust_and_java() {
    assert_eq!(detect_runtime_family("rust-1.75"), RuntimeFamily::Rust);
    assert_eq!(detect_runtime_family("Rust"), RuntimeFamily::Rust);
    assert_eq!(detect_runtime_family("java17"), RuntimeFamily::Java);
    assert_eq!(detect_runtime_family("JAVA"), RuntimeFamily::Java);
}

#[test]
fn classify_unknown_and_first_match_wins() {
    assert_eq!(detect_runtime_family(""), RuntimeFamily::Unknown);
    assert_eq!(detect_runtime_family("cobol"), RuntimeFamily::Unknown);
    assert_eq!(detect_runtime_family("gopher"), RuntimeFamily::Unknown);
    // "python" is checked first, so a string with several keywords is Python.
    assert_eq!(detect_runtime_family("pythonode"), RuntimeFamily::Python);
    // "javascript" also contains "java", but the Node rule comes first.
    assert_eq!(detect_runtime_family("javascript"), RuntimeFamily::Node);
}

#[test]
fn rel_path_examples() {
    assert_eq!(source_file_rel_path("python:3.11", "pkg.sub.handler"), "pkg/sub.py");
    assert_eq!(source_file_rel_path("node18", "handler"), "index.js");
    assert_eq!(source_file_rel_path("go1.22", "main.Handle"), "function.txt");
    assert_eq!(source_file_rel_path("go", "main.Handle"), "main.go");
    assert_eq!(source_file_rel_path("golang", "whatever"), "main.go");
    assert_eq!(source_file_rel_path("rust", "x"), "src/main.rs");
    assert_eq!(source_file_rel_path("java17", "App.handle"), "Main.java");
    assert_eq!(source_file_rel_path("cobol", "h"), "function.txt");
}

#[test]
fn rel_path_module_conventions() {
    assert_eq!(source_file_rel_path("python3", "handler"), "main.py");
    assert_eq!(source_file_rel_path("python3", ".handler"), "main.py");
    assert_eq!(source_file_rel_path("python3", "app.handler"), "app.py");
    assert_eq!(source_file_rel_path("node20", "app.server.handle"), "app/server.js");
}

#[test]
fn rel_path_is_pure() {
    let a = source_file_rel_path("python:3.11", "pkg.sub.handler");
    let b = source_file_rel_path("python:3.11", "pkg.sub.handler");
    assert_eq!(a, b);
}

#[test]
fn export_name_examples() {
    assert_eq!(handler_export_name("foo.bar"), "bar");
    assert_eq!(handler_export_name("handler"), "handler");
    assert_eq!(handler_export_name("a.b.c"), "c");
    assert_eq!(handler_export_name("trailing."), "");
}

#[test]
fn candidates_per_family() {
    assert_eq!(toolchain_candidates(RuntimeFamily::Python), vec!["python3", "python"]);
    assert_eq!(toolchain_candidates(RuntimeFamily::Node), vec!["node"]);
    assert_eq!(toolchain_candidates(RuntimeFamily::Go), vec!["go"]);
    assert_eq!(toolchain_candidates(RuntimeFamily::Rust), vec!["cargo", "rustc"]);
    assert_eq!(toolchain_candidates(RuntimeFamily::Java), vec!["java"]);
    assert!(toolchain_candidates(RuntimeFamily::Unknown).is_empty());
}

#[test]
fn toolchain_first_success_wins() {
    let r = ensure_toolchain("python3.11", RuntimeFamily::Python, &vec![true, false]);
    assert_eq!(r.unwrap(), "python3");
    let r = ensure_toolchain("python3.11", RuntimeFamily::Python, &vec![false, true]);
    assert_eq!(r.unwrap(), "python");
}

#[test]
fn toolchain_missing_message() {
    let r = ensure_toolchain("python3.11", RuntimeFamily::Python, &vec![false, false]);
    match r {
        Err(orbit::errors::OrbitError::Input(m)) => {
            assert!(m.starts_with("Missing runtime toolchain for 'python3.11' (python). Install first.\n"));
            assert!(m.contains("Install Python 3.10+."));
        }
        _ => panic!("expected an input error"),
    }
}

#[test]
fn toolchain_unknown_runtime() {
    let r = ensure_toolchain("cobol", RuntimeFamily::Unknown, &vec![]);
    match r {
        Err(orbit::errors::OrbitError::Input(m)) => {
            assert_eq!(
                m,
                "Runtime 'cobol' is not recognized. Pull succeeded, but local test needs a known runtime toolchain."
            );
        }
        _ => panic!("expected an input error"),
    }
}

#[test]
fn python_plan_builds_driver_command() {
    let r = plan_local_test(
        "python3.11",
        "foo.bar",
        "out/f/foo.py",
        "out/f/payload.json",
        &vec![true, false],
    )
    .unwrap();
    match r {
        LocalTestPlan::Invoke { command, display } => {
            assert_eq!(display, "python3 <inline-runner>");
            assert_eq!(command.program, "python3");
            assert_eq!(command.args.len(), 5);
            assert_eq!(command.args[0], "-c");
            assert_eq!(command.args[1], PYTHON_DRIVER);
            assert_eq!(command.args[2], "out/f/foo.py");
            assert_eq!(command.args[3], "bar");
            assert_eq!(command.args[4], "out/f/payload.json");
            assert!(command.env.is_empty());
        }
        _ => panic!("expected an invocation plan"),
    }
}

#[test]
fn node_plan_uses_environment() {
    let r = plan_local_test(
        "node18",
        "app.handle",
        "out/f/app.js",
        "out/f/payload.json",
        &vec![true],
    )
    .unwrap();
    match r {
        LocalTestPlan::Invoke { command, display } => {
            assert_eq!(display, "node -e <inline-runner>");
            assert_eq!(command.program, "node");
            assert_eq!(command.args, vec!["-e".to_string(), NODE_DRIVER.to_string()]);
            assert_eq!(
                command.env,
                vec![
                    ("ORBIT_SOURCE_PATH".to_string(), "out/f/app.js".to_string()),
                    ("ORBIT_PAYLOAD_PATH".to_string(), "out/f/payload.json".to_string()),
                    ("ORBIT_HANDLER".to_string(), "app.handle".to_string()),
                ]
            );
        }
        _ => panic!("expected an invocation plan"),
    }
}

#[test]
fn go_with_toolchain_is_skipped_never_executed() {
    let r = plan_local_test("go", "main.Handle", "out/f/main.go", "out/f/payload.json", &vec![true])
        .unwrap();
    match r {
        LocalTestPlan::Skip { reason } => {
            assert_eq!(
                reason,
                "Toolchain 'go' is installed. Auto local runner is currently available for python/node runtimes only. Run go tests manually in out/f."
            );
        }
        _ => panic!("expected a skip"),
    }
}

#[test]
fn go_without_toolchain_is_a_toolchain_error() {
    let r = plan_local_test("go", "main.Handle", "out/f/main.go", "out/f/payload.json", &vec![
        false,
    ]);
    match r {
        Err(orbit::errors::OrbitError::Input(m)) => {
            assert!(m.starts_with("Missing runtime toolchain for 'go' (go)."));
        }
        _ => panic!("expected a toolchain error"),
    }
}

#[test]
fn rust_and_java_skips_name_their_commands() {
    let r = plan_local_test("rust", "x", "out/f/src/main.rs", "out/f/payload.json", &vec![
        true, false,
    ])
    .unwrap();
    match r {
        LocalTestPlan::Skip { reason } => {
            assert!(reason.contains("Run cargo commands manually in out/f/src."));
            assert!(reason.starts_with("Toolchain 'cargo' is installed."));
        }
        _ => panic!("expected a skip"),
    }
    let r = plan_local_test("java17", "App.h", "out/f/Main.java", "out/f/payload.json", &vec![true])
        .unwrap();
    match r {
        LocalTestPlan::Skip { reason } => {
            assert!(reason.contains("Compile/run manually from out/f."));
        }
        _ => panic!("expected a skip"),
    }
}

#[test]
fn unknown_runtime_is_skipped_without_probing() {
    let r = plan_local_test("cobol", "h", "out/f/function.txt", "out/f/payload.json", &vec![])
        .unwrap();
    match r {
        LocalTestPlan::Skip { reason } => {
            assert_eq!(
                reason,
                "Runtime 'cobol' is not recognized for auto local test. Source has been pulled for manual testing."
            );
        }
        _ => panic!("expected a skip"),
    }
}

#[test]
fn missing_toolchain_fails_before_driver_generation() {
    // No probe succeeded: the failure is the toolchain error; no command
    // plan, and so no driver script, is ever formed.
    let r = plan_local_test("node18", "h", "s", "p", &vec![false]);
    match r {
        Err(orbit::errors::OrbitError::Input(m)) => {
            assert!(m.starts_with("Missing runtime toolchain for 'node18' (node)."));
            assert!(!m.contains("require("));
        }
        _ => panic!("expected a toolchain error"),
    }
}

#[test]
fn conclude_success_trims_output() {
    let r = conclude_local_test("python3", "python3 <inline-runner>", true, "  {\"ok\": true}\n", "");
    match r.unwrap() {
        LocalTestOutcome::Executed { command, output } => {
            assert_eq!(command, "python3 <inline-runner>");
            assert_eq!(output, "{\"ok\": true}");
        }
        _ => panic!("expected an executed outcome"),
    }
}

#[test]
fn conclude_failure_carries_stderr() {
    let r = conclude_local_test("python3", "python3 <inline-runner>", false, "", " boom \n");
    match r {
        Err(orbit::errors::OrbitError::Input(m)) => {
            assert_eq!(m, "Local python test failed: boom");
        }
        _ => panic!("expected an input error"),
    }
    let r = conclude_local_test("node18", "node -e <inline-runner>", false, "", "   ");
    match r {
        Err(orbit::errors::OrbitError::Input(m)) => {
            assert_eq!(m, "Local node test failed: unknown error");
        }
        _ => panic!("expected an input error"),
    }
}

#[test]
fn status_labels() {
    assert_eq!(local_test_status(&None), "not-run");
    assert_eq!(
        local_test_status(&Some(LocalTestOutcome::Executed {
            command: "c".to_string(),
            output: "o".to_string()
        })),
        "executed"
    );
    assert_eq!(
        local_test_status(&Some(LocalTestOutcome::Skipped { reason: "r".to_string() })),
        "skipped"
    );
}

#[test]
fn rel_path_odd_handlers() {
    // A dot-adjacent handler keeps the empty segment, as the dotted
    // convention implies: module "a." becomes "a/".
    assert_eq!(source_file_rel_path("python3", "a..b"), "a/.py");
    assert_eq!(source_file_rel_path("python3", ""), "main.py");
    assert_eq!(source_file_rel_path("node20", "."), "index.js");
    assert_eq!(handler_export_name(""), "");
}

#[test]
fn conclude_preserves_inner_whitespace() {
    let r = conclude_local_test(
        "node18",
        "node -e <inline-runner>",
        true,
        "\t{\n  \"a\": 1\n}\r\n",
        "",
    );
    match r.unwrap() {
        LocalTestOutcome::Executed { output, .. } => {
            assert_eq!(output, "{\n  \"a\": 1\n}");
        }
        _ => panic!("expected an executed outcome"),
    }
}
