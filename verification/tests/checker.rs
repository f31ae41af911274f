use acadcheck::checker::acad::{grade, inputs, outcome, tabulate, Checker};
use acadcheck::checker::artifact::{compare, same_bytes, Artifact};
use acadcheck::checker::{CheckerConfig, Comparison, Error, MonitorType, OutputType, TestOutput};
use acadcheck::language;
use std::collections::BTreeMap;

fn bytes(text: &str) -> Artifact {
    Artifact::Contents(text.as_bytes().to_vec())
}

fn config(output_type: OutputType, refs: &[(usize, &str)]) -> CheckerConfig<String, Artifact> {
    let mut in_refs = BTreeMap::new();
    for (id, reference) in refs {
        in_refs.insert(*id, (format!("{}.in", id), bytes(reference)));
    }
    CheckerConfig {
        monitors: vec![MonitorType::Timeout { limit: std::time::Duration::from_secs(5) }],
        output_type,
        in_refs,
    }
}

fn mismatch_25_24() -> String {
    "Expected: 25\n\nBut got: 24\n\n".to_string()
}

#[test]
fn equal_files_compare_equal() {
    let comparison = compare(&bytes("25\n"), &bytes("25\n"));
    assert_eq!(
        comparison,
        Comparison { equal: true, produced: "25\n".to_string(), reference: "25\n".to_string() }
    );
}

#[test]
fn different_files_show_both_sides() {
    let comparison = compare(&bytes("24\n"), &bytes("25\n"));
    assert_eq!(
        comparison,
        Comparison { equal: false, produced: "24\n".to_string(), reference: "25\n".to_string() }
    );
}

#[test]
fn comparison_is_the_same_when_repeated() {
    let produced = bytes("héllo\n");
    let reference = bytes("hello\n");
    assert_eq!(compare(&produced, &reference), compare(&produced, &reference));
    assert_eq!(compare(&produced, &produced), compare(&produced, &produced));
}

#[test]
fn unreadable_sides_are_unequal_and_shown_as_nothing() {
    let nothing = Comparison { equal: false, produced: String::new(), reference: String::new() };
    assert_eq!(compare(&Artifact::Unreadable, &bytes("25\n")), nothing);
    assert_eq!(compare(&bytes("25\n"), &Artifact::Unreadable), nothing);
    assert_eq!(compare(&Artifact::Unreadable, &Artifact::Unreadable), nothing);
}

#[test]
fn bytes_that_are_no_text_are_unequal() {
    let broken = Artifact::Contents(vec![0xff, 0xfe]);
    assert_eq!(
        compare(&broken, &broken),
        Comparison { equal: false, produced: String::new(), reference: String::new() }
    );
    assert_eq!(
        compare(&broken, &bytes("ok")),
        Comparison { equal: false, produced: String::new(), reference: "ok".to_string() }
    );
    assert_eq!(
        compare(&bytes("ok"), &broken),
        Comparison { equal: false, produced: String::new(), reference: String::new() }
    );
}

#[test]
fn empty_files_are_equal() {
    assert_eq!(
        compare(&bytes(""), &bytes("")),
        Comparison { equal: true, produced: String::new(), reference: String::new() }
    );
}

#[test]
fn ceq_appends_to_what_is_there() {
    let mut shown_self = "got: ".to_string();
    let mut shown_other = "want: ".to_string();
    let equal = acadcheck::checker::config::PartialEq::ceq(
        &bytes("a"),
        &bytes("b"),
        &mut shown_self,
        &mut shown_other,
    );
    assert!(!equal);
    assert_eq!(shown_self, "got: a");
    assert_eq!(shown_other, "want: b");
}

#[test]
fn same_bytes_looks_at_every_byte() {
    assert!(same_bytes(&vec![1, 2, 3], &vec![1, 2, 3]));
    assert!(!same_bytes(&vec![1, 2, 3], &vec![1, 2, 4]));
    assert!(!same_bytes(&vec![1, 2, 3], &vec![1, 2]));
    assert!(same_bytes(&vec![], &vec![]));
}

#[test]
fn binary_outcomes() {
    let binary = OutputType::Binary;
    let passed = Comparison { equal: true, produced: "25\n".into(), reference: "25\n".into() };
    let failed = Comparison { equal: false, produced: "24\n".into(), reference: "25\n".into() };
    assert_eq!(TestOutput::from_comparison(&binary, &passed), TestOutput::Passed);
    assert_eq!(TestOutput::from_comparison(&binary, &failed), TestOutput::Failed(mismatch_25_24()));
    assert_eq!(
        TestOutput::from_error(&binary, &Error::TestError("Time exceeded!".into())),
        TestOutput::Failed("Execution failed: Running test failed: Time exceeded!".into())
    );
}

#[test]
fn scored_outcomes() {
    let scored = OutputType::Scored { per_test: 5 };
    let passed = Comparison { equal: true, produced: "25\n".into(), reference: "25\n".into() };
    let failed = Comparison { equal: false, produced: "24\n".into(), reference: "25\n".into() };
    assert_eq!(
        TestOutput::from_comparison(&scored, &passed),
        TestOutput::Score { score: 5, message: None }
    );
    assert_eq!(
        TestOutput::from_comparison(&scored, &failed),
        TestOutput::Score { score: 0, message: Some(mismatch_25_24()) }
    );
    assert_eq!(
        TestOutput::from_error(&scored, &Error::TestError("Exit status: 1".into())),
        TestOutput::Score {
            score: 0,
            message: Some("Execution failed: Running test failed: Exit status: 1".into()),
        }
    );
}

#[test]
fn scored_with_no_points_per_test() {
    let scored = OutputType::Scored { per_test: 0 };
    let passed = Comparison { equal: true, produced: String::new(), reference: String::new() };
    assert_eq!(
        TestOutput::from_comparison(&scored, &passed),
        TestOutput::Score { score: 0, message: None }
    );
    let most = OutputType::Scored { per_test: usize::MAX };
    assert_eq!(
        TestOutput::from_comparison(&most, &passed),
        TestOutput::Score { score: usize::MAX, message: None }
    );
}

#[test]
fn checker_error_texts() {
    let run = Error::RunError(language::Error::CompilationFailed("exit status: 1".into()));
    assert_eq!(run.to_string(), "Running solution failed: Compilation failed: exit status: 1");
    assert_eq!(Error::TestError("t".into()).to_string(), "Running test failed: t");
    assert_eq!(
        Error::UnsupportedOutputError("file".into(), "dir".into()).to_string(),
        "Unsupported output. Expected file, but found: file"
    );
    assert_eq!(
        Error::CompareError("c".into()).to_string(),
        "Comparing output and reference failed with: c"
    );
    assert_eq!(
        Error::from(language::Error::MakefileBuildFailed("m".into())),
        Error::RunError(language::Error::MakefileBuildFailed("m".into()))
    );
}

#[test]
fn outcome_goes_by_the_verdict() {
    let binary = OutputType::Binary;
    let ok = Ok(Comparison { equal: true, produced: "x".into(), reference: "x".into() });
    assert_eq!(outcome(&binary, &ok), TestOutput::Passed);
    let err = Err(Error::CompareError("c".into()));
    assert_eq!(
        outcome(&binary, &err),
        TestOutput::Failed(
            "Execution failed: Comparing output and reference failed with: c".into()
        )
    );
}

#[test]
fn tabulate_keeps_the_tests() {
    let mut verdicts = BTreeMap::new();
    verdicts.insert(3, Ok(Comparison { equal: true, produced: "a".into(), reference: "a".into() }));
    verdicts.insert(1, Ok(Comparison { equal: false, produced: "b".into(), reference: "a".into() }));
    verdicts.insert(2, Err(Error::TestError("Time exceeded!".into())));
    let outcomes = tabulate(&OutputType::Scored { per_test: 7 }, &verdicts);
    assert_eq!(outcomes.keys().copied().collect::<Vec<_>>(), vec![1, 2, 3]);
    assert_eq!(
        outcomes[&1],
        TestOutput::Score { score: 0, message: Some("Expected: a\nBut got: b\n".into()) }
    );
    assert_eq!(
        outcomes[&2],
        TestOutput::Score {
            score: 0,
            message: Some("Execution failed: Running test failed: Time exceeded!".into()),
        }
    );
    assert_eq!(outcomes[&3], TestOutput::Score { score: 7, message: None });
    assert!(tabulate(&OutputType::Binary, &BTreeMap::new()).is_empty());
}

#[test]
fn inputs_are_those_of_the_configuration() {
    let config = config(OutputType::Binary, &[(1, "a"), (4, "b")]);
    let handed = inputs(&config);
    assert_eq!(handed.len(), 2);
    assert_eq!(handed[&1], "1.in");
    assert_eq!(handed[&4], "4.in");
}

#[test]
fn grade_compares_with_the_reference_of_the_test() {
    let config = config(OutputType::Binary, &[(1, "25\n"), (2, "36\n"), (3, "49\n")]);
    let mut results = BTreeMap::new();
    results.insert(1, Ok(bytes("25\n")));
    results.insert(2, Ok(bytes("25\n")));
    results.insert(3, Err(Error::TestError("Exit status: exit status: 3".into())));
    let outcomes = grade(&config, &results);
    assert_eq!(outcomes.len(), 3);
    assert_eq!(outcomes[&1], TestOutput::Passed);
    assert_eq!(outcomes[&2], TestOutput::Failed("Expected: 36\n\nBut got: 25\n\n".into()));
    assert_eq!(
        outcomes[&3],
        TestOutput::Failed(
            "Execution failed: Running test failed: Exit status: exit status: 3".into()
        )
    );
}

#[test]
fn checker_passes_a_test_that_squares() {
    let checker = Checker::new(
        config(OutputType::Binary, &[(1, "25\n")]),
        |command: &Vec<String>, inputs: BTreeMap<usize, &String>| {
            assert_eq!(command, &vec!["/binary/solution".to_string()]);
            assert_eq!(inputs.len(), 1);
            assert_eq!(inputs[&1], "1.in");
            let mut results = BTreeMap::new();
            results.insert(1, Ok(bytes("25\n")));
            results
        },
    );
    let outcomes = checker.run(&vec!["/binary/solution".to_string()]);
    assert_eq!(outcomes.len(), 1);
    assert_eq!(outcomes[&1], TestOutput::Passed);
}

#[test]
fn checker_scores_a_test_that_squares() {
    let checker = Checker::new(
        config(OutputType::Scored { per_test: 5 }, &[(1, "25\n")]),
        |_: &Vec<String>, _: BTreeMap<usize, &String>| {
            let mut results = BTreeMap::new();
            results.insert(1, Ok(bytes("25\n")));
            results
        },
    );
    let outcomes = checker.run(&vec!["/binary/solution".to_string()]);
    assert_eq!(outcomes[&1], TestOutput::Score { score: 5, message: None });
}

#[test]
fn checker_fails_a_test_that_is_off_by_one() {
    let checker = Checker::new(
        config(OutputType::Binary, &[(1, "25\n")]),
        |_: &Vec<String>, _: BTreeMap<usize, &String>| {
            let mut results = BTreeMap::new();
            results.insert(1, Ok(bytes("24\n")));
            results
        },
    );
    let outcomes = checker.run(&vec!["/binary/solution".to_string()]);
    assert_eq!(outcomes.len(), 1);
    assert_eq!(outcomes[&1], TestOutput::Failed(mismatch_25_24()));
}

#[test]
fn checker_answers_for_every_test_the_runner_answers_for() {
    let ids = [(1, "a"), (2, "b"), (5, "c"), (9, "d")];
    let checker = Checker::new(
        config(OutputType::Binary, &ids),
        |_: &Vec<String>, inputs: BTreeMap<usize, &String>| {
            inputs
                .keys()
                .map(|id| (*id, if id % 2 == 1 { Ok(bytes("a")) } else { Err(Error::TestError("x".into())) }))
                .collect::<BTreeMap<_, _>>()
        },
    );
    let outcomes = checker.run(&vec!["run".to_string()]);
    assert_eq!(outcomes.keys().copied().collect::<Vec<_>>(), vec![1, 2, 5, 9]);
}

struct Loose(String);

impl acadcheck::checker::config::PartialEq<Loose> for Loose {
    fn ceq(&self, other: &Loose, self_inner: &mut String, other_inner: &mut String) -> bool {
        self_inner.push_str(self.0.trim());
        other_inner.push_str(other.0.trim());
        self.0.trim() == other.0.trim()
    }
}

#[test]
fn checker_takes_another_comparison() {
    let mut in_refs = BTreeMap::new();
    in_refs.insert(1, ((), Loose("25".into())));
    in_refs.insert(2, ((), Loose("36".into())));
    let config = CheckerConfig { monitors: vec![], output_type: OutputType::Binary, in_refs };
    let mut results = BTreeMap::new();
    results.insert(1, Ok(Loose("  25\n".into())));
    results.insert(2, Ok(Loose("35\n".into())));
    let outcomes = grade(&config, &results);
    assert_eq!(outcomes[&1], TestOutput::Passed);
    assert_eq!(outcomes[&2], TestOutput::Failed("Expected: 36\nBut got: 35\n".into()));
}
