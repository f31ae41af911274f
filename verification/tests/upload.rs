use acadcheck::acadchecker::config::{Security, SupportedProcessor};
use acadcheck::checker::{MonitorType, OutputType};
use acadcheck::language::gcc::{Gcc, SupportedGccLanguage};
use acadcheck::language::make::Makefile;
use acadcheck::language::python::Python;
use acadcheck::sandbox::{Limits, SandboxConfig};
use acadcheck::solution::Source;
use acadcheck::upload::{
    command_for, config_for, input_key, input_key_of, read_number, reference_key,
    reference_key_of, stage_pair, staged_tests, to_unix_lines, InRefHolder, UploadConfig,
    UploadSupportedProcessor, UploadTimeLimit, IN_REGEX, REF_REGEX,
};
use std::collections::BTreeMap;

#[test]
fn patterns_of_the_archive() {
    assert_eq!(IN_REGEX, "in/[0-9][0-9][0-9].in");
    assert_eq!(REF_REGEX, "ref/[0-9][0-9][0-9].ref");
}

#[test]
fn numbers_are_three_digits_or_a_sign_and_two() {
    assert_eq!(read_number(b"007", 0), Some(7));
    assert_eq!(read_number(b"x123y", 1), Some(123));
    assert_eq!(read_number(b"999", 0), Some(999));
    assert_eq!(read_number(b"+12", 0), Some(12));
    assert_eq!(read_number(b"-12", 0), None);
    assert_eq!(read_number(b"12", 0), None);
    assert_eq!(read_number(b"1 2", 0), None);
    assert_eq!(read_number(b"12a", 0), None);
    assert_eq!(read_number(b"0123", 2), None);
    assert_eq!(read_number(b"0123", usize::MAX), None);
    assert_eq!(read_number(b"", 0), None);
}

#[test]
fn inputs_are_known_by_their_names() {
    assert_eq!(input_key("in/001.in"), Some(1));
    assert_eq!(input_key("in/120.in"), Some(120));
    assert_eq!(input_key("in/1200in"), Some(120));
    assert_eq!(input_key("in/12.in"), None);
    assert_eq!(input_key("ref/001.ref"), None);
    assert_eq!(input_key("xin/123.in"), None);
    assert_eq!(input_key(""), None);
}

#[test]
fn references_are_known_by_their_names() {
    assert_eq!(reference_key("ref/001.ref"), Some(1));
    assert_eq!(reference_key("ref/987.ref"), Some(987));
    assert_eq!(reference_key("in/001.in"), None);
    assert_eq!(reference_key("tests/ref/001.ref"), None);
}

#[test]
fn keys_go_by_what_was_matched() {
    assert_eq!(input_key_of("in/042.in", true), Some(42));
    assert_eq!(input_key_of("in/042.in", false), None);
    assert_eq!(input_key_of("abc+42", true), Some(42));
    assert_eq!(reference_key_of("ref/042.ref", true), Some(42));
    assert_eq!(reference_key_of("ref/042.ref", false), None);
    assert_eq!(reference_key_of("in/042.in", true), None);
}

#[test]
fn inputs_and_references_are_paired_by_key() {
    let mut tests: BTreeMap<usize, (Option<&str>, Option<&str>)> = BTreeMap::new();
    tests.insert_in("a.in", 1);
    assert_eq!(tests[&1], (Some("a.in"), None));
    tests.insert_ref("a.ref", 1);
    assert_eq!(tests[&1], (Some("a.in"), Some("a.ref")));
    tests.insert_ref("b.ref", 2);
    assert_eq!(tests[&2], (None, Some("b.ref")));
    tests.insert_in("b.in", 2);
    tests.insert_in("c.in", 1);
    assert_eq!(tests[&1], (Some("c.in"), Some("a.ref")));
    assert_eq!(tests[&2], (Some("b.in"), Some("b.ref")));
    assert_eq!(tests.len(), 2);
}

#[test]
fn staged_tests_lie_behind_the_directories() {
    let both = (Some("tmpA".to_string()), Some("tmpB".to_string()));
    assert_eq!(stage_pair(&both, "/in/", "/ref/"), ("/in/tmpA".to_string(), "/ref/tmpB".to_string()));
    let mut names = BTreeMap::new();
    names.insert(1, both);
    names.insert(2, (Some("tmpC".to_string()), None));
    names.insert(3, (None, None));
    let tests = staged_tests(&names, "/in/", "/ref/");
    assert_eq!(tests.len(), 3);
    assert_eq!(tests[&1], ("/in/tmpA".to_string(), "/ref/tmpB".to_string()));
    assert_eq!(tests[&2], (String::new(), String::new()));
    assert_eq!(tests[&3], (String::new(), String::new()));
}

#[test]
fn the_sandbox_runs_the_checker_on_the_configuration() {
    assert_eq!(command_for(".tmpX1"), vec!["acadchecker", "--config", ".tmpX1"]);
}

fn sandbox() -> SandboxConfig {
    SandboxConfig {
        image: "sandbox:latest".to_string(),
        limits: Limits::default(),
        ins: "/t/in/".to_string(),
        refs: "/t/ref/".to_string(),
        out: "/t/out".to_string(),
        cfg: "/t/".to_string(),
        src: "/t/src/".to_string(),
        security: Security { user: "sandbox".to_string(), group: "restricted".to_string() },
    }
}

#[test]
fn gcc_writes_where_the_sandbox_says() {
    let upload = UploadSupportedProcessor::Gcc {
        gcc: Gcc::new(SupportedGccLanguage::Cpp),
        flags: vec!["-O2".to_string()],
    };
    assert_eq!(
        upload.into_supported(),
        SupportedProcessor::Gcc {
            gcc: Gcc::new(SupportedGccLanguage::Cpp),
            flags: vec!["-O2".to_string()],
            executable: "/restricted/home/sandbox/solution".to_string(),
        }
    );
}

#[test]
fn other_processors_stay_as_they_are() {
    let python = Python::new().with_version("3.9").unwrap();
    let upload =
        UploadSupportedProcessor::Python { python: python.clone(), flags: vec!["-u".to_string()] };
    assert_eq!(
        upload.into_supported(),
        SupportedProcessor::Python { python: python.clone(), flags: vec!["-u".to_string()] }
    );
    assert_eq!(python.duplicate(), python);
    let makefile = Makefile::new("/w".to_string(), Some("all".to_string()), "run".to_string());
    let upload = UploadSupportedProcessor::Makefile { makefile: makefile.clone() };
    assert_eq!(upload.into_supported(), SupportedProcessor::Makefile { makefile });
}

#[test]
fn configuration_for_the_sandbox() {
    let upload = UploadConfig {
        processor: UploadSupportedProcessor::Python { python: Python::new(), flags: vec![] },
        time_limit: UploadTimeLimit { secs: 2 },
        prechecker: None,
    };
    let monitors = vec![MonitorType::Timeout { limit: std::time::Duration::from_secs(2) }];
    let mut in_refs = BTreeMap::new();
    in_refs.insert(1, ("/t/in/.tmpA".to_string(), "/t/ref/.tmpB".to_string()));
    let config = config_for(&upload, monitors.clone(), in_refs.clone(), ".tmpS", &sandbox());
    assert_eq!(config.checker.monitors, monitors);
    assert_eq!(config.checker.output_type, OutputType::Binary);
    assert_eq!(config.checker.in_refs, in_refs);
    assert_eq!(
        config.processor,
        SupportedProcessor::Python { python: Python::new(), flags: vec![] }
    );
    assert_eq!(config.solution, Source::File("/t/src/.tmpS".to_string()));
    assert_eq!(config.out_dir, "/t/out");
    assert_eq!(
        config.security,
        Some(Security { user: "sandbox".to_string(), group: "restricted".to_string() })
    );
}

#[test]
fn carriage_returns_before_line_feeds_go() {
    assert_eq!(to_unix_lines(b"5\r\n25\r\n"), b"5\n25\n".to_vec());
    assert_eq!(to_unix_lines(b"a\rb\n\r"), b"a\rb\n\r".to_vec());
    assert_eq!(to_unix_lines(b"\r\r\n\n"), b"\r\n\n".to_vec());
    assert_eq!(to_unix_lines(b""), Vec::<u8>::new());
    assert_eq!(to_unix_lines(b"\r"), b"\r".to_vec());
}
