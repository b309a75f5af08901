use orbit::errors::OrbitError;
use orbit::pull::{cannot_read_file_message, code_source_field, path_join, plan_pull,
    pull_summary, record_handler_field, record_runtime_field};

fn record(json: &str) -> serde_json::Value {
    serde_json::from_str(json).unwrap()
}

#[test]
fn record_fields_extracted() {
    let rec = record("{\"runtime\": \"python3.11\", \"handler\": \"a.b\", \"name\": \"f\"}");
    assert_eq!(record_runtime_field(&rec), Some("python3.11".to_string()));
    assert_eq!(record_handler_field(&rec), Some("a.b".to_string()));
    let bare = record("{}");
    assert_eq!(record_runtime_field(&bare), None);
    assert_eq!(record_handler_field(&bare), None);
    let odd = record("{\"runtime\": 3}");
    assert_eq!(record_runtime_field(&odd), None);
}

#[test]
fn code_source_prefers_source_code_key() {
    let both = record("{\"source_code\": \"x\", \"code\": \"y\"}");
    assert_eq!(code_source_field(&both), Some("x".to_string()));
    let only_code = record("{\"code\": \"y\"}");
    assert_eq!(code_source_field(&only_code), Some("y".to_string()));
    let neither = record("{}");
    assert_eq!(code_source_field(&neither), None);
    // A present but non-string "source_code" does not fall through.
    let odd = record("{\"source_code\": 5, \"code\": \"y\"}");
    assert_eq!(code_source_field(&odd), None);
}

#[test]
fn blank_source_is_an_input_error() {
    let rec = record("{}");
    for src in ["", "   "] {
        let r = plan_pull(
            "f",
            ".orbit/functions",
            false,
            false,
            Some("python3".to_string()),
            Some("h".to_string()),
            Some(src.to_string()),
            None,
            None,
            &rec,
        );
        match r {
            Err(OrbitError::Input(m)) => {
                assert_eq!(m, "Function 'f' does not have source code in control plane.");
            }
            _ => panic!("expected an input error"),
        }
    }
}

#[test]
fn missing_source_is_an_input_error() {
    let rec = record("{}");
    let r = plan_pull("f", "out", false, false, None, None, None, None, None, &rec);
    match r {
        Err(OrbitError::Input(m)) => {
            assert_eq!(m, "Function 'f' does not have source code in control plane.");
        }
        _ => panic!("expected an input error"),
    }
}

#[test]
fn existing_directory_without_force_fails() {
    let rec = record("{}");
    let r = plan_pull(
        "f",
        ".orbit/functions",
        false,
        true,
        Some("python3".to_string()),
        Some("h".to_string()),
        Some("print(1)".to_string()),
        None,
        None,
        &rec,
    );
    match r {
        Err(OrbitError::Input(m)) => {
            assert_eq!(
                m,
                "Directory '.orbit/functions/f' already exists. Use --force to overwrite."
            );
        }
        _ => panic!("expected an input error"),
    }
}

#[test]
fn existing_directory_with_force_succeeds_with_fetched_content() {
    let rec = record("{\"runtime\": \"python3.11\", \"handler\": \"pkg.sub.handler\"}");
    let plan = plan_pull(
        "f",
        "out",
        true,
        true,
        Some("python3.11".to_string()),
        Some("pkg.sub.handler".to_string()),
        Some("def handler(e, c):\n    return 1\n".to_string()),
        None,
        None,
        &rec,
    )
    .unwrap();
    assert_eq!(plan.runtime, "python3.11");
    assert_eq!(plan.handler, "pkg.sub.handler");
    assert_eq!(plan.directory, "out/f");
    assert_eq!(plan.source_rel_path, "pkg/sub.py");
    assert_eq!(plan.source_path, "out/f/pkg/sub.py");
    assert_eq!(plan.source_text, "def handler(e, c):\n    return 1\n");
    assert_eq!(plan.payload_path, "out/f/payload.json");
    assert_eq!(plan.payload_text, "{}");
    assert_eq!(plan.metadata_path, "out/f/function.meta.json");
    let meta: serde_json::Value = serde_json::from_str(&plan.metadata_text).unwrap();
    assert_eq!(meta["name"], "f");
    assert_eq!(meta["runtime"], "python3.11");
    assert_eq!(meta["handler"], "pkg.sub.handler");
    assert_eq!(meta["source_file"], "pkg/sub.py");
    assert_eq!(meta["payload_file"], "payload.json");
    assert_eq!(meta["function"], rec);
}

#[test]
fn defaults_apply_when_record_fields_missing() {
    let rec = record("{}");
    let plan = plan_pull(
        "f",
        "out",
        false,
        false,
        None,
        None,
        Some("text".to_string()),
        None,
        None,
        &rec,
    )
    .unwrap();
    assert_eq!(plan.runtime, "unknown");
    assert_eq!(plan.handler, "handler");
    assert_eq!(plan.source_rel_path, "function.txt");
}

#[test]
fn inline_payload_is_parsed_and_pretty_printed() {
    let rec = record("{}");
    let plan = plan_pull(
        "f",
        "out",
        false,
        false,
        Some("python3".to_string()),
        Some("h".to_string()),
        Some("code".to_string()),
        Some("{\"a\":1}".to_string()),
        None,
        &rec,
    )
    .unwrap();
    let v: serde_json::Value = serde_json::from_str(&plan.payload_text).unwrap();
    assert_eq!(v["a"], 1);
    assert_eq!(plan.payload_text, "{\n  \"a\": 1\n}");
}

#[test]
fn invalid_inline_payload_fails() {
    let rec = record("{}");
    let r = plan_pull(
        "f",
        "out",
        false,
        false,
        Some("python3".to_string()),
        Some("h".to_string()),
        Some("code".to_string()),
        Some("{nope".to_string()),
        None,
        &rec,
    );
    match r {
        Err(OrbitError::Input(m)) => {
            assert!(m.starts_with("Invalid JSON payload: "));
        }
        _ => panic!("expected an input error"),
    }
}

#[test]
fn invalid_payload_file_fails() {
    let rec = record("{}");
    let r = plan_pull(
        "f",
        "out",
        false,
        false,
        Some("python3".to_string()),
        Some("h".to_string()),
        Some("code".to_string()),
        None,
        Some("not json".to_string()),
        &rec,
    );
    match r {
        Err(OrbitError::Input(m)) => {
            assert!(m.starts_with("Invalid JSON in file: "));
        }
        _ => panic!("expected an input error"),
    }
}

#[test]
fn inline_payload_wins_over_file() {
    let rec = record("{}");
    let plan = plan_pull(
        "f",
        "out",
        false,
        false,
        Some("python3".to_string()),
        Some("h".to_string()),
        Some("code".to_string()),
        Some("[1]".to_string()),
        Some("{nope".to_string()),
        &rec,
    )
    .unwrap();
    let v: serde_json::Value = serde_json::from_str(&plan.payload_text).unwrap();
    assert_eq!(v[0], 1);
}

#[test]
fn path_join_rules() {
    assert_eq!(path_join("a", "b"), "a/b");
    assert_eq!(path_join("a/", "b"), "a/b");
    assert_eq!(path_join("", "b"), "b");
    assert_eq!(path_join(".orbit/functions", "f"), ".orbit/functions/f");
}

#[test]
fn summary_reports_written_paths() {
    let rec = record("{}");
    let plan = plan_pull(
        "fn1",
        "out",
        false,
        false,
        Some("node18".to_string()),
        Some("app.handle".to_string()),
        Some("module.exports.handle = () => 1;".to_string()),
        None,
        None,
        &rec,
    )
    .unwrap();
    let s = pull_summary("fn1", &plan, "not-run");
    assert_eq!(s.name, "fn1");
    assert_eq!(s.runtime, "node18");
    assert_eq!(s.handler, "app.handle");
    assert_eq!(s.directory, "out/fn1");
    assert_eq!(s.source_file, "out/fn1/app.js");
    assert_eq!(s.payload_file, "out/fn1/payload.json");
    assert_eq!(s.metadata_file, "out/fn1/function.meta.json");
    assert_eq!(s.local_test, "not-run");
}

#[test]
fn unreadable_file_message() {
    assert_eq!(
        cannot_read_file_message("p.json", "boom"),
        "Cannot read file p.json: boom"
    );
}
