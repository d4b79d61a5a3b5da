use edg::lock::{acquire_decision, release_decision, AttemptOutcome, LockDecision};
use edg::pipeline::{Outcome, Pipeline, Step};

fn strings(xs: &[&str]) -> Vec<String> {
    xs.iter().map(|s| s.to_string()).collect()
}

/// Drives a whole invocation to the point where the auxiliary program
/// has produced `captured`, and returns the staged path and the spliced
/// expression.
fn run_to_splice(ty: &str, body: &str, captured: &str) -> (String, String) {
    let mut p = Pipeline::new("target".to_string(), strings(&["rustc-path", "-O"]));
    let staged = match p.on_parsed(Some(ty.to_string()), body) {
        Step::Stage { path, .. } => path,
        _ => panic!("expected a staging action"),
    };
    match p.on_staged(true) {
        Step::Compile { .. } => {}
        _ => panic!("expected a compile action"),
    }
    match p.on_compiled(true, true, "") {
        Step::Execute { .. } => {}
        _ => panic!("expected an execute action"),
    }
    let fin = p.on_executed(true, true, Some(captured.to_string()), "");
    let expr = match fin.outcome {
        Outcome::Splice(e) => e,
        _ => panic!("expected a spliced expression"),
    };
    (staged, expr)
}

#[test]
fn missing_type_fails_before_staging() {
    let mut p = Pipeline::new("target".to_string(), strings(&["rustc-path"]));
    let step = p.on_parsed(None, "7 * 6");
    match step {
        Step::Finish(f) => {
            assert!(f.cleanup.remove_source.is_none());
            assert!(f.cleanup.remove_binary.is_none());
            assert!(f.cleanup.release_lock);
            match f.outcome {
                Outcome::Reject(m) => assert_eq!(m, "specify return type of closure"),
                _ => panic!("expected a diagnostic"),
            }
        }
        _ => panic!("expected the invocation to end at once"),
    }
    assert!(!p.stage_issued);
}

#[test]
fn forty_two_splices_to_forty_two() {
    let mut p = Pipeline::new(
        "target".to_string(),
        strings(&["rustc-path", "-C", "extra-filename=-abc123", "-O"]),
    );
    let (staged, source) = match p.on_parsed(Some("i32".to_string()), "7 * 6") {
        Step::Stage { path, source } => (path, source),
        _ => panic!("expected a staging action"),
    };
    assert!(staged.starts_with("target/edg-"));
    assert!(staged.ends_with(".rs"));
    assert!(source.contains("7 * 6"));
    assert!(source.contains("let res: i32"));
    let cmd = match p.on_staged(true) {
        Step::Compile { cmd } => cmd,
        _ => panic!("expected a compile action"),
    };
    let mut expected = strings(&[
        "-C",
        "extra-filename=-abc123",
        "-O",
        "--crate-name",
        "edg_bin",
        "--crate-type",
        "bin",
        "--out-dir",
        "target",
    ]);
    expected.push(staged.clone());
    assert_eq!(cmd, expected);
    let bin = match p.on_compiled(true, true, "") {
        Step::Execute { path } => path,
        _ => panic!("expected an execute action"),
    };
    assert_eq!(bin, "target/edg_bin-abc123");
    let fin = p.on_executed(true, true, Some("42".to_string()), "");
    assert!(fin.cleanup.release_lock);
    assert_eq!(fin.cleanup.remove_source.as_deref(), Some(staged.as_str()));
    assert_eq!(fin.cleanup.remove_binary.as_deref(), Some("target/edg_bin-abc123"));
    let expr = match fin.outcome {
        Outcome::Splice(e) => e,
        _ => panic!("expected a spliced expression"),
    };
    assert_eq!(
        expr,
        "::serde_json::from_str::<i32>(\"42\").expect(&format!(\"deser of expr ({}) failed (bug in `Deserialize` impl)\", \"42\"))"
    );
    let v: i32 = serde_json::from_str("42").unwrap();
    assert_eq!(v, 42);
}

#[test]
fn compile_failure_cleans_up_and_carries_stderr() {
    let mut p = Pipeline::new("target".to_string(), strings(&["rustc-path"]));
    let staged = match p.on_parsed(Some("i32".to_string()), "7 *") {
        Step::Stage { path, .. } => path,
        _ => panic!("expected a staging action"),
    };
    match p.on_staged(true) {
        Step::Compile { .. } => {}
        _ => panic!("expected a compile action"),
    }
    let fin = match p.on_compiled(true, false, "error: expected expression") {
        Step::Finish(f) => f,
        _ => panic!("expected the invocation to end"),
    };
    assert!(!p.exec_issued);
    assert_eq!(fin.cleanup.remove_source.as_deref(), Some(staged.as_str()));
    assert!(fin.cleanup.remove_binary.is_none());
    assert!(fin.cleanup.release_lock);
    match fin.outcome {
        Outcome::Reject(m) => {
            assert!(m.contains("error: expected expression"));
            assert!(m.starts_with("could not compile comptime expr:"));
        }
        _ => panic!("expected a diagnostic"),
    }
}

#[test]
fn execution_failure_cleans_up_and_carries_stderr() {
    let mut p = Pipeline::new("target".to_string(), strings(&["rustc-path"]));
    let staged = match p.on_parsed(Some("i32".to_string()), "panic!()") {
        Step::Stage { path, .. } => path,
        _ => panic!("expected a staging action"),
    };
    p.on_staged(true);
    p.on_compiled(true, true, "");
    let fin = p.on_executed(true, false, None, "thread 'main' panicked");
    assert_eq!(fin.cleanup.remove_source.as_deref(), Some(staged.as_str()));
    assert_eq!(fin.cleanup.remove_binary.as_deref(), Some("target/edg_bin"));
    assert!(fin.cleanup.release_lock);
    match fin.outcome {
        Outcome::Reject(m) => assert!(m.contains("thread 'main' panicked")),
        _ => panic!("expected a diagnostic"),
    }
}

#[test]
fn non_text_output_gets_distinct_diagnostic() {
    let mut p = Pipeline::new("target".to_string(), strings(&["rustc-path"]));
    p.on_parsed(Some("i32".to_string()), "0");
    p.on_staged(true);
    p.on_compiled(true, true, "");
    let fin = p.on_executed(true, true, None, "");
    assert!(fin.cleanup.release_lock);
    match fin.outcome {
        Outcome::Reject(m) => assert_eq!(m, "comptime expr output was not utf8"),
        _ => panic!("expected a diagnostic"),
    }
}

#[test]
fn reruns_with_equal_bodies_stage_and_splice_identically() {
    let (path1, expr1) = run_to_splice("i32", "7 * 6", "42");
    let (path2, expr2) = run_to_splice("i32", "7 * 6", "42");
    assert_eq!(path1, path2);
    assert_eq!(expr1, expr2);
}

#[test]
fn each_build_reevaluates_and_embeds_its_own_capture() {
    let (_, early) = run_to_splice("String", "now()", "\"2024-05-01T09:00:00Z\"");
    let (_, late) = run_to_splice("String", "now()", "\"2024-05-01T09:05:00Z\"");
    assert_ne!(early, late);
    assert!(early.contains("09:00:00"));
    assert!(late.contains("09:05:00"));
}

#[test]
fn representative_values_round_trip_through_the_codec() {
    let n: i64 = -1234567890123;
    let captured = serde_json::to_string(&n).unwrap();
    assert_eq!(serde_json::from_str::<i64>(&captured).unwrap(), n);

    let s = "quote \" backslash \\ unicode \u{e9}".to_string();
    let captured = serde_json::to_string(&s).unwrap();
    assert_eq!(serde_json::from_str::<String>(&captured).unwrap(), s);
    let (_, expr) = run_to_splice("String", "make_text()", &captured);
    assert!(expr.starts_with("::serde_json::from_str::<String>("));

    let nested: Vec<Vec<i64>> = vec![vec![1, 2], vec![], vec![3]];
    let captured = serde_json::to_string(&nested).unwrap();
    assert_eq!(serde_json::from_str::<Vec<Vec<i64>>>(&captured).unwrap(), nested);

    let mut map = serde_json::Map::new();
    map.insert("answer".to_string(), serde_json::Value::from(42));
    map.insert(
        "inner".to_string(),
        serde_json::Value::Array(vec![serde_json::Value::from("x")]),
    );
    let value = serde_json::Value::Object(map);
    let captured = serde_json::to_string(&value).unwrap();
    assert_eq!(serde_json::from_str::<serde_json::Value>(&captured).unwrap(), value);
}

#[test]
fn lock_decisions_follow_the_attempt_outcome() {
    assert!(matches!(acquire_decision(AttemptOutcome::Created), LockDecision::Acquired));
    assert!(matches!(acquire_decision(AttemptOutcome::AlreadyExists), LockDecision::Retry));
    assert!(matches!(acquire_decision(AttemptOutcome::OtherFailure), LockDecision::Fatal));
    assert!(!release_decision(true));
    assert!(release_decision(false));
}
