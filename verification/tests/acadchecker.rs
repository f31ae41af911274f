use acadcheck::acadchecker::config::{Config, Output, Security, SupportedProcessor};
use acadcheck::acadchecker::{failure, AcadChecker};
use acadcheck::checker::artifact::Artifact;
use acadcheck::checker::{CheckerConfig, Error, MonitorType, OutputType, TestOutput};
use acadcheck::language;
use acadcheck::language::gcc::{Gcc, SupportedGccLanguage};
use acadcheck::language::make::Makefile;
use acadcheck::language::python::Python;
use acadcheck::language::{BuildKind, BuildReport, BuildStep, Invocation};
use acadcheck::solution::Source;
use std::collections::BTreeMap;

fn bytes(text: &str) -> Artifact {
    Artifact::Contents(text.as_bytes().to_vec())
}

fn gcc() -> SupportedProcessor {
    SupportedProcessor::Gcc {
        gcc: Gcc::new(SupportedGccLanguage::C),
        flags: vec!["-Werror".to_string(), "-Wall".to_string()],
        executable: "/binary/solution".to_string(),
    }
}

fn config(processor: SupportedProcessor, output_type: OutputType) -> Config<String, Artifact> {
    let mut in_refs = BTreeMap::new();
    in_refs.insert(1, ("a.in".to_string(), bytes("25\n")));
    Config {
        checker: CheckerConfig {
            monitors: vec![MonitorType::Timeout { limit: std::time::Duration::from_secs(5) }],
            output_type,
            in_refs,
        },
        processor,
        solution: Source::File("/binary/solution.c".to_string()),
        out_dir: "/binary/tests/out".to_string(),
        security: Some(Security { user: "sandbox".to_string(), group: "restricted".to_string() }),
    }
}

fn built(command: &Vec<String>) -> BuildReport {
    assert_eq!(
        command,
        &vec!["gcc", "-Werror", "-Wall", "/binary/solution.c", "-o", "/binary/solution"]
    );
    BuildReport::Exited {
        success: true,
        status: "exit status: 0".to_string(),
        canonical: Some("/binary/solution".to_string()),
    }
}

fn squares(command: &Vec<String>, inputs: BTreeMap<usize, &String>) -> BTreeMap<usize, Result<Artifact, Error>> {
    assert_eq!(command, &vec!["/binary/solution"]);
    inputs
        .into_iter()
        .map(|(id, input)| {
            assert_eq!(input, "a.in");
            (id, Ok(bytes("25\n")))
        })
        .collect()
}

fn off_by_one(_: &Vec<String>, inputs: BTreeMap<usize, &String>) -> BTreeMap<usize, Result<Artifact, Error>> {
    inputs.into_iter().map(|(id, _)| (id, Ok(bytes("24\n")))).collect()
}

fn one(outcome: TestOutput) -> Output {
    let mut outcomes = BTreeMap::new();
    outcomes.insert(1, outcome);
    Output::Tests(outcomes)
}

#[test]
fn square_passes() {
    let output = AcadChecker::new().run(config(gcc(), OutputType::Binary), built, squares);
    assert_eq!(output, one(TestOutput::Passed));
}

#[test]
fn square_scores() {
    let output =
        AcadChecker::new().run(config(gcc(), OutputType::Scored { per_test: 5 }), built, squares);
    assert_eq!(output, one(TestOutput::Score { score: 5, message: None }));
}

#[test]
fn off_by_one_fails() {
    let output = AcadChecker::new().run(config(gcc(), OutputType::Binary), built, off_by_one);
    assert_eq!(output, one(TestOutput::Failed("Expected: 25\n\nBut got: 24\n\n".to_string())));
}

#[test]
fn off_by_one_scores_nothing() {
    let output =
        AcadChecker::new().run(config(gcc(), OutputType::Scored { per_test: 5 }), built, off_by_one);
    assert_eq!(
        output,
        one(TestOutput::Score {
            score: 0,
            message: Some("Expected: 25\n\nBut got: 24\n\n".to_string()),
        })
    );
}

#[test]
fn failed_compilation_is_the_only_result() {
    let output = AcadChecker::new().run(
        config(gcc(), OutputType::Binary),
        |_: &Vec<String>| BuildReport::Exited {
            success: false,
            status: "exit status: 1".to_string(),
            canonical: None,
        },
        |_: &Vec<String>, _: BTreeMap<usize, &String>| -> BTreeMap<usize, Result<Artifact, Error>> {
            panic!("no test is run after a build that failed")
        },
    );
    assert_eq!(output, Output::Error("Compilation failed: exit status: 1".to_string()));
}

#[test]
fn compiler_that_is_missing_is_the_only_result() {
    let output = AcadChecker::new().run(
        config(gcc(), OutputType::Binary),
        |_: &Vec<String>| BuildReport::NotStarted("No such file or directory (os error 2)".to_string()),
        squares,
    );
    assert_eq!(
        output,
        Output::Error(
            "Compilation failed: No such file or directory (os error 2). (The compiler might not be in your PATH.)"
                .to_string()
        )
    );
}

#[test]
fn python_is_run_without_a_build() {
    let processor = SupportedProcessor::Python {
        python: Python::new().with_version("3").unwrap(),
        flags: vec!["-u".to_string()],
    };
    let output = AcadChecker::new().run(
        config(processor, OutputType::Binary),
        |_: &Vec<String>| -> BuildReport { panic!("python builds nothing") },
        |command: &Vec<String>, inputs: BTreeMap<usize, &String>| {
            assert_eq!(command, &vec!["python3", "-u", "/binary/solution.c"]);
            inputs
                .into_iter()
                .map(|(id, _)| (id, Err(Error::TestError("Time exceeded!".to_string()))))
                .collect::<BTreeMap<usize, Result<Artifact, Error>>>()
        },
    );
    assert_eq!(
        output,
        one(TestOutput::Failed(
            "Execution failed: Running test failed: Time exceeded!".to_string()
        ))
    );
}

#[test]
fn makefile_is_built_then_run() {
    let processor = SupportedProcessor::Makefile {
        makefile: Makefile::new("/w".to_string(), Some("all".to_string()), "run".to_string()),
    };
    let output = AcadChecker::new().run(
        config(processor.clone(), OutputType::Binary),
        |command: &Vec<String>| {
            assert_eq!(command, &vec!["make", "-C", "/w", "all"]);
            BuildReport::Exited { success: true, status: "exit status: 0".to_string(), canonical: None }
        },
        |command: &Vec<String>, inputs: BTreeMap<usize, &String>| {
            assert_eq!(command, &vec!["make", "-C", "/w", "run"]);
            inputs
                .into_iter()
                .map(|(id, _)| (id, Ok(bytes("25\n"))))
                .collect::<BTreeMap<usize, Result<Artifact, Error>>>()
        },
    );
    assert_eq!(output, one(TestOutput::Passed));
    let output = AcadChecker::new().run(
        config(processor, OutputType::Binary),
        |_: &Vec<String>| BuildReport::Exited {
            success: false,
            status: "exit status: 2".to_string(),
            canonical: None,
        },
        squares,
    );
    assert_eq!(output, Output::Error("Make build failed: exit status: 2".to_string()));
}

#[test]
fn every_configured_test_is_in_the_result() {
    let mut config = config(gcc(), OutputType::Scored { per_test: 2 });
    for id in [4, 2, 9] {
        config.checker.in_refs.insert(id, ("a.in".to_string(), bytes("25\n")));
    }
    let output = AcadChecker::new().run(config, built, squares);
    match output {
        Output::Tests(outcomes) => {
            assert_eq!(outcomes.keys().copied().collect::<Vec<_>>(), vec![1, 2, 4, 9]);
            for outcome in outcomes.values() {
                assert_eq!(outcome, &TestOutput::Score { score: 2, message: None });
            }
        },
        Output::Error(message) => panic!("{}", message),
    }
}

#[test]
fn processors_ask_for_what_they_need() {
    let source = Source::File("s.c".to_string());
    assert_eq!(
        gcc().invocation(source.clone()),
        Ok(Invocation::Build(BuildStep {
            command: ["gcc", "-Werror", "-Wall", "s.c", "-o", "/binary/solution"]
                .iter()
                .map(|w| w.to_string())
                .collect(),
            product: vec!["/binary/solution".to_string()],
            kind: BuildKind::Compilation,
        }))
    );
    let python = SupportedProcessor::Python { python: Python::new(), flags: vec![] };
    assert_eq!(
        python.invocation(source),
        Ok(Invocation::Ready(vec!["python".to_string(), "s.c".to_string()]))
    );
}

#[test]
fn failure_is_the_text_of_the_error() {
    assert_eq!(
        failure(&language::Error::MakefileBuildFailed("x".to_string())),
        Output::Error("Make build failed: x".to_string())
    );
}
