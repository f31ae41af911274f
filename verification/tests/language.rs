use acadcheck::language::gcc::{Gcc, SupportedGccLanguage};
use acadcheck::language::make::Makefile;
use acadcheck::language::python::{InvalidVersion, Python};
use acadcheck::language::{
    BuildKind, BuildReport, BuildStep, Compiler, Error, Interpreter, Invocation, LanguageProcessor,
    Make,
};
use acadcheck::pattern::is_match;
use acadcheck::solution::{Solution, Source};

fn words(list: &[&str]) -> Vec<String> {
    list.iter().map(|w| w.to_string()).collect()
}

#[test]
fn source_arguments() {
    assert_eq!(Source::File("/s/sol.c".to_string()).argument(), "/s/sol.c");
    assert_eq!(Source::Directory("/s".to_string()).argument(), "/s/*");
    assert_eq!(Source::Regex { regex: "/s/*.c".to_string() }.argument(), "/s/*.c");
}

#[test]
fn gcc_names_compiler_and_language() {
    let names = |l| Gcc::new(l).get_lang();
    assert_eq!(names(SupportedGccLanguage::C), ("gcc".to_string(), "c".to_string()));
    assert_eq!(names(SupportedGccLanguage::Cpp), ("g++".to_string(), "c++".to_string()));
    assert_eq!(names(SupportedGccLanguage::D), ("gdc".to_string(), "d".to_string()));
    assert_eq!(names(SupportedGccLanguage::Go), ("gccgo".to_string(), "go".to_string()));
    assert_eq!(Gcc::default(), Gcc::new(SupportedGccLanguage::C));
}

#[test]
fn gcc_compile_command() {
    let gcc = Gcc::new(SupportedGccLanguage::Cpp);
    let step = gcc.run_compiled(
        Some(words(&["-Werror", "-Wall"])),
        &Source::File("/binary/solution.cpp".to_string()),
        "/binary/solution".to_string(),
    );
    assert_eq!(
        step.command,
        words(&["g++", "-Werror", "-Wall", "/binary/solution.cpp", "-o", "/binary/solution"])
    );
    assert_eq!(step.product, words(&["/binary/solution"]));
    assert_eq!(step.kind, BuildKind::Compilation);
}

#[test]
fn gcc_without_flags_and_with_a_directory() {
    let step = Gcc::default().run_compiled(None, &Source::Directory("src".to_string()), "a.out".to_string());
    assert_eq!(step.command, words(&["gcc", "src/*", "-o", "a.out"]));
}

#[test]
fn gcc_run_asks_for_a_build() {
    let gcc = Gcc::new(SupportedGccLanguage::C);
    let asked = gcc.run(Some(words(&["-O2"])), Source::File("a.c".to_string()), Some("a".to_string()));
    assert_eq!(
        asked,
        Ok(Invocation::Build(BuildStep {
            command: words(&["gcc", "-O2", "a.c", "-o", "a"]),
            product: words(&["a"]),
            kind: BuildKind::Compilation,
        }))
    );
}

#[test]
fn gcc_run_without_executable_fails() {
    let gcc = Gcc::new(SupportedGccLanguage::C);
    let asked = gcc.run(None, Source::File("a.c".to_string()), None);
    assert_eq!(
        asked,
        Err(Error::CompilationFailed("No path for the executable provided.".to_string()))
    );
}

fn compilation() -> BuildStep {
    Gcc::default().run_compiled(None, &Source::File("a.c".to_string()), "./a".to_string())
}

#[test]
fn build_that_succeeds_gives_the_canonical_executable() {
    let report = BuildReport::Exited {
        success: true,
        status: "exit status: 0".to_string(),
        canonical: Some("/home/u/a".to_string()),
    };
    assert_eq!(compilation().finish(report), Ok(words(&["/home/u/a"])));
}

#[test]
fn build_falls_back_to_the_path_as_given() {
    let report =
        BuildReport::Exited { success: true, status: "exit status: 0".to_string(), canonical: None };
    assert_eq!(compilation().finish(report), Ok(words(&["./a"])));
}

#[test]
fn build_that_fails_is_a_compilation_error() {
    let report = BuildReport::Exited {
        success: false,
        status: "exit status: 1".to_string(),
        canonical: Some("/home/u/a".to_string()),
    };
    let error = compilation().finish(report).unwrap_err();
    assert_eq!(error, Error::CompilationFailed("exit status: 1".to_string()));
    assert_eq!(error.to_string(), "Compilation failed: exit status: 1");
}

#[test]
fn build_that_does_not_start_hints_at_the_path() {
    let report = BuildReport::NotStarted("No such file or directory (os error 2)".to_string());
    assert_eq!(
        compilation().finish(report),
        Err(Error::CompilationFailed(
            "No such file or directory (os error 2). (The compiler might not be in your PATH.)"
                .to_string()
        ))
    );
}

#[test]
fn error_texts() {
    assert_eq!(Error::CompilationFailed("x".to_string()).to_string(), "Compilation failed: x");
    assert_eq!(Error::MakefileBuildFailed("y".to_string()).to_string(), "Make build failed: y");
    assert_eq!(InvalidVersion.to_string(), "Version of python is not valid");
}

#[test]
fn python_versions_accepted() {
    for version in ["1", "2", "3", "2.7", "3.9", "3.11", "1.0"] {
        let python = Python::new().with_version(version).unwrap();
        assert_eq!(python.version().map(|v| v.as_str()), Some(version));
    }
}

#[test]
fn python_versions_refused() {
    for version in ["", "0", "4", "3.", "3.123", "3.x", "python3", " 3", "3 ", "3.9\n", "33", "3.1.2"] {
        assert_eq!(Python::new().with_version(version), Err(InvalidVersion));
    }
}

#[test]
fn python_version_as_found() {
    assert_eq!(Python::new().versioned("9.9", false), Err(InvalidVersion));
    let python = Python::new().versioned("9.9", true).unwrap();
    assert_eq!(python.version().map(|v| v.as_str()), Some("9.9"));
    assert_eq!(Python::default(), Python::new());
    assert_eq!(Python::new().version(), None);
}

#[test]
fn patterns_are_searched_not_echoed() {
    assert!(is_match("b+", "abbbc"));
    assert!(!is_match("^b+$", "abbbc"));
    assert!(!is_match("abc", "ab"));
    assert!(!is_match("(", "("));
    assert!(is_match("", ""));
}

#[test]
fn python_command_has_flags_between_interpreter_and_source() {
    let python = Python::new().with_version("3.9").unwrap();
    let command =
        python.run_interpreted(Some(words(&["-O", "-u"])), Source::File("sol.py".to_string()));
    assert_eq!(command, words(&["python3.9", "-O", "-u", "sol.py"]));
}

#[test]
fn python_run_needs_no_build() {
    let asked = Python::new().run(None, Source::Directory("pkg".to_string()), Some("x".to_string()));
    assert_eq!(asked, Ok(Invocation::Ready(words(&["python", "pkg/*"]))));
}

#[test]
fn makefile_with_build_rule() {
    let makefile = Makefile::new("/w".to_string(), Some("build".to_string()), "run".to_string());
    let asked = LanguageProcessor::run(&makefile, None, Source::Directory("/w".to_string()), None);
    let step = BuildStep {
        command: words(&["make", "-C", "/w", "build"]),
        product: words(&["make", "-C", "/w", "run"]),
        kind: BuildKind::MakeRule,
    };
    assert_eq!(asked, Ok(Invocation::Build(step.clone())));
    let ok = BuildReport::Exited {
        success: true,
        status: "exit status: 0".to_string(),
        canonical: Some("/usr/bin/make".to_string()),
    };
    assert_eq!(step.clone().finish(ok), Ok(words(&["make", "-C", "/w", "run"])));
    let failed =
        BuildReport::Exited { success: false, status: "exit status: 2".to_string(), canonical: None };
    assert_eq!(
        step.clone().finish(failed),
        Err(Error::MakefileBuildFailed("exit status: 2".to_string()))
    );
    assert_eq!(
        step.finish(BuildReport::NotStarted("no make".to_string())),
        Err(Error::MakefileBuildFailed("no make".to_string()))
    );
}

#[test]
fn makefile_without_build_rule() {
    let makefile = Makefile::new("/w".to_string(), None, "go".to_string());
    let asked = LanguageProcessor::run(&makefile, None, Source::Directory("/w".to_string()), None);
    assert_eq!(asked, Ok(Invocation::Ready(words(&["make", "-C", "/w", "go"]))));
    assert_eq!(makefile.run_target(None), words(&["make", "-C", "/w", "go"]));
    assert_eq!(makefile.run_target(Some("clean".to_string())), words(&["make", "-C", "/w", "clean"]));
    assert_eq!(makefile.rule("all"), words(&["make", "-C", "/w", "all"]));
}

#[test]
fn solution_keeps_what_it_is_given() {
    let solution = Solution::new(Gcc::default(), Source::File("a.c".to_string()));
    assert_eq!(solution.processor, Gcc::default());
    assert_eq!(solution.source, Source::File("a.c".to_string()));
}
