use mutation_testing::config::{default_timeout, generate_id, EntryScan, IdCounter};
use mutation_testing::error::{format_locations, MatchLocation};
use mutation_testing::runner::{
    classify, result_of, Cycle, CycleAction, CycleEvent, Phase, TestRun,
};
use mutation_testing::{
    Config, MutationConfig, MutationError, MutationReport, MutationResult, MutationStatus, Settings,
};

fn mutation() -> MutationConfig {
    MutationConfig {
        file: "src/math.rs".to_string(),
        function: "add".to_string(),
        original: "a + b".to_string(),
        replacement: "a - b".to_string(),
        id: "m1".to_string(),
    }
}

fn result(status: MutationStatus, ms: u64) -> MutationResult {
    result_of(&mutation(), status, Some(3), None, ms)
}

fn failed(stderr: &str) -> TestRun {
    TestRun::Failed { combined: format!("out\n{}", stderr) }
}

#[test]
fn test_default_timeout() {
    assert_eq!(Settings::default().timeout, 30);
    assert_eq!(default_timeout(), 30);
}

#[test]
fn ids_count_up_per_counter() {
    let mut c = IdCounter::new();
    assert_eq!(generate_id(&mut c), "mutation_1");
    assert_eq!(generate_id(&mut c), "mutation_2");
    let mut fresh = IdCounter::new();
    assert_eq!(generate_id(&mut fresh), "mutation_1");
    let mut big = IdCounter { next: 1234 };
    assert_eq!(generate_id(&mut big), "mutation_1234");
}

#[test]
fn description_names_the_mutation() {
    assert_eq!(mutation().description(), "a + b -> a - b in src/math.rs::add");
    assert_eq!(result(MutationStatus::Killed, 0).description(), "a + b -> a - b in src/math.rs::add");
}

#[test]
fn classification_of_test_runs() {
    assert!(matches!(classify(TestRun::Passed).0, MutationStatus::Survived));
    let (s, d) = classify(failed("error[E0308]: mismatched types"));
    assert!(matches!(s, MutationStatus::CompileError));
    assert_eq!(d.unwrap(), "out\nerror[E0308]: mismatched types");
    assert!(matches!(classify(failed("error: could not compile `x`")).0, MutationStatus::CompileError));
    assert!(matches!(classify(failed("aborting due to 2 previous errors")).0, MutationStatus::CompileError));
    assert!(matches!(classify(failed("test add ... FAILED")).0, MutationStatus::Killed));
    // a marker on standard output counts too
    let on_stdout = TestRun::Failed { combined: "error[E0425]: cannot find value\n".to_string() };
    assert!(matches!(classify(on_stdout).0, MutationStatus::CompileError));
    assert!(matches!(classify(TestRun::TimedOut).0, MutationStatus::Timeout));
    match classify(TestRun::Error("no cargo".to_string())).0 {
        MutationStatus::ConfigError(m) => assert_eq!(m, "no cargo"),
        _ => panic!("expected ConfigError"),
    }
}

/// Runs a cycle against scripted answers; returns the actions asked for.
fn drive(answers: Vec<CycleEvent>) -> Vec<CycleAction> {
    let (mut cycle, action) = Cycle::start("proj/src/math.rs".to_string());
    let mut actions = vec![action];
    for event in answers {
        let (c, a) = cycle.step(event);
        cycle = c;
        actions.push(a);
    }
    assert!(matches!(cycle.phase, Phase::Done));
    actions
}

fn happy(run: TestRun, restored: Result<(), String>) -> Vec<CycleAction> {
    drive(vec![
        CycleEvent::FileChecked(true),
        CycleEvent::FileRead(Ok("fn add(a: i32, b: i32) -> i32 { a + b }".to_string())),
        CycleEvent::Prepared(Ok(("fn add(a: i32, b: i32) -> i32 { a - b }".to_string(), 1))),
        CycleEvent::Written(Ok(())),
        CycleEvent::Tested(run),
        CycleEvent::Restored(restored),
    ])
}

fn restores_original(actions: &[CycleAction]) -> bool {
    actions.iter().any(|a| match a {
        CycleAction::Restore(c) => c == "fn add(a: i32, b: i32) -> i32 { a + b }",
        _ => false,
    })
}

#[test]
fn cycle_runs_tests_and_restores() {
    let actions = happy(failed("assertion failed: add(2, 3) == 5"), Ok(()));
    assert!(matches!(actions[0], CycleAction::CheckFile));
    assert!(matches!(actions[1], CycleAction::ReadFile));
    assert!(matches!(&actions[2], CycleAction::Prepare(s) if s.contains("a + b")));
    assert!(matches!(&actions[3], CycleAction::Write(s) if s.contains("a - b")));
    assert!(matches!(actions[4], CycleAction::RunTests));
    assert!(restores_original(&actions));
    match &actions[6] {
        CycleAction::Finish { status, line, .. } => {
            assert!(matches!(status, MutationStatus::Killed));
            assert_eq!(*line, Some(1));
        }
        _ => panic!("expected Finish"),
    }
}

#[test]
fn cycle_classifies_each_outcome() {
    let last = |run| match happy(run, Ok(())).pop().unwrap() {
        CycleAction::Finish { status, .. } => status,
        _ => panic!("expected Finish"),
    };
    assert!(matches!(last(TestRun::Passed), MutationStatus::Survived));
    assert!(matches!(last(failed("error[E0599]")), MutationStatus::CompileError));
    assert!(matches!(last(failed("1 test failed")), MutationStatus::Killed));
}

#[test]
fn restore_failure_keeps_classification() {
    let actions = happy(TestRun::Passed, Err("disk full".to_string()));
    assert!(matches!(&actions[6], CycleAction::Finish { status: MutationStatus::Survived, .. }));
}

#[test]
fn write_failure_still_restores() {
    let actions = drive(vec![
        CycleEvent::FileChecked(true),
        CycleEvent::FileRead(Ok("fn add(a: i32, b: i32) -> i32 { a + b }".to_string())),
        CycleEvent::Prepared(Ok(("x".to_string(), 1))),
        CycleEvent::Written(Err("read-only".to_string())),
        CycleEvent::Restored(Ok(())),
    ]);
    assert!(restores_original(&actions));
    match actions.last().unwrap() {
        CycleAction::Finish { status: MutationStatus::ConfigError(m), .. } => {
            assert_eq!(m, "Failed to write mutated file: read-only")
        }
        _ => panic!("expected ConfigError"),
    }
}

#[test]
fn errors_before_writing_never_touch_the_file() {
    let missing = drive(vec![CycleEvent::FileChecked(false)]);
    match &missing[1] {
        CycleAction::Finish { status: MutationStatus::ConfigError(m), .. } => {
            assert_eq!(m, "File not found: proj/src/math.rs")
        }
        _ => panic!("expected ConfigError"),
    }
    let bad = drive(vec![
        CycleEvent::FileChecked(true),
        CycleEvent::FileRead(Ok("fn add() {}".to_string())),
        CycleEvent::Prepared(Err("Expression 'a + b' not found in function 'add'".to_string())),
    ]);
    assert_eq!(bad.len(), 4);
    assert!(!bad.iter().any(|a| matches!(a, CycleAction::Write(_) | CycleAction::Restore(_))));
    assert!(matches!(&bad[3], CycleAction::Finish { status: MutationStatus::ConfigError(_), details: Some(_), .. }));
}

#[test]
fn score_arithmetic() {
    let mut rs = vec![];
    for _ in 0..3 {
        rs.push(result(MutationStatus::Killed, 10));
    }
    rs.push(result(MutationStatus::Survived, 20));
    rs.push(result(MutationStatus::CompileError, 5));
    rs.push(result(MutationStatus::CompileError, 5));
    let report = MutationReport::new(rs);
    assert_eq!(report.killed(), 3);
    assert_eq!(report.survived(), 1);
    assert_eq!(report.compile_errors(), 2);
    assert_eq!(report.timeouts(), 0);
    assert_eq!(report.config_errors(), 0);
    assert_eq!(report.total(), 6);
    assert_eq!(report.total_duration_ms, 60);
    let (n, d) = report.score_fraction();
    assert_eq!(n as f64 / d as f64, 75.0);
    assert_eq!(report.surviving_mutations(), vec![3]);
}

#[test]
fn score_without_testable_results_is_full() {
    let report = MutationReport::new(vec![
        result(MutationStatus::Timeout, 1),
        result(MutationStatus::ConfigError("x".to_string()), 1),
    ]);
    let (n, d) = report.score_fraction();
    assert_eq!(n as f64 / d as f64, 100.0);
    assert_eq!(report.timeouts(), 1);
    assert_eq!(report.config_errors(), 1);
    let empty = MutationReport::new(vec![]);
    assert_eq!(empty.score_fraction(), (100, 1));
}

#[test]
fn total_duration_saturates() {
    let report = MutationReport::new(vec![
        result(MutationStatus::Killed, u64::MAX),
        result(MutationStatus::Killed, 5),
    ]);
    assert_eq!(report.total_duration_ms, u64::MAX);
}

#[test]
fn locations_are_listed_in_order() {
    let locs = vec![MatchLocation { line: 3, column: 13 }, MatchLocation { line: 14, column: 9 }];
    assert_eq!(format_locations(&locs), "line 3, column 13; line 14, column 9");
    assert_eq!(format_locations(&vec![]), "");
}

#[test]
fn catalogue_validation_collects_every_error() {
    let config = Config {
        version: "1.0".to_string(),
        settings: Settings::default(),
        mutations: vec![mutation(), mutation(), mutation()],
    };
    let scan = |file_exists: bool, o: Option<&str>, r: Option<&str>| EntryScan {
        file_exists,
        original_error: o.map(|s| s.to_string()),
        replacement_error: r.map(|s| s.to_string()),
    };
    let ok = config.validate(vec![scan(true, None, None), scan(true, None, None), scan(true, None, None)]);
    assert!(ok.is_ok());
    let bad = config.validate(vec![
        scan(false, Some("ignored"), None),
        scan(true, Some("unexpected end of input"), Some("expected expression")),
        scan(true, None, None),
    ]);
    let errors = bad.unwrap_err();
    assert_eq!(errors.len(), 3);
    assert!(matches!(&errors[0], MutationError::FileNotFound { file } if file == "src/math.rs"));
    assert!(matches!(&errors[1], MutationError::InvalidOriginal { code, .. } if code == "a + b"));
    assert!(matches!(&errors[2], MutationError::InvalidReplacement { code, parse_error } if code == "a - b" && parse_error == "expected expression"));
    assert!(matches!(&errors[0], MutationError::FileNotFound { .. }));
    assert!(matches!(&errors[1], MutationError::InvalidOriginal { parse_error, .. } if parse_error == "unexpected end of input"));
    assert!(matches!(&errors[2], MutationError::InvalidReplacement { .. }));
}
