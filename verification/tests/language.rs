use isolate_sandbox::error::{ApiError, DomainError, ErrorKind};
use isolate_sandbox::language::{discover_languages, source_extension, ConfigEntry};
use isolate_sandbox::language::{FileSystemLanguageRepository, Language, LanguageRepository};
use isolate_sandbox::language::{LanguageSetup, SetupStage};
use isolate_sandbox::process::{ProcessOutput, Reply, Request, Step};

fn dir(name: &str) -> ConfigEntry {
    ConfigEntry { path: format!("./config/{}", name), name: Some(name.to_string()), is_dir: true }
}

fn file(name: &str) -> ConfigEntry {
    ConfigEntry { path: format!("./config/{}", name), name: Some(name.to_string()), is_dir: false }
}

fn exited(stderr: &str, exit_code: i32) -> Reply {
    Reply::Exited(ProcessOutput { stdout: String::new(), stderr: stderr.to_string(), exit_code })
}

fn names(registry: &FileSystemLanguageRepository) -> Vec<String> {
    registry.list_all().into_iter().map(|l| l.name).collect()
}

#[test]
fn language_paths_lie_in_its_directory() {
    let l = Language::new("python".to_string(), "py".to_string(), "./config/python".to_string());
    assert_eq!(l.name, "python");
    assert_eq!(l.extension, "py");
    assert_eq!(l.config_dir, "./config/python");
    assert_eq!(l.setup_script(), "./config/python/setup.sh");
    assert_eq!(l.compiler_path(), "./config/python/compiler");
    assert_eq!(l.runner_path(), "./config/python/runner");
}

#[test]
fn extension_table() {
    assert_eq!(source_extension("python"), "py");
    assert_eq!(source_extension("javascript"), "js");
    assert_eq!(source_extension("typescript"), "ts");
    assert_eq!(source_extension("rust"), "txt");
    assert_eq!(source_extension(""), "txt");
    assert_eq!(source_extension("Python"), "txt");
}

#[test]
fn discovery_takes_the_directories() {
    let entries = vec![dir("python"), file("README.md"), dir("cobol"), dir("typescript")];
    let found = discover_languages(&entries).unwrap();
    assert_eq!(found.len(), 3);
    assert_eq!(found[0].name, "python");
    assert_eq!(found[0].extension, "py");
    assert_eq!(found[0].config_dir, "./config/python");
    assert_eq!(found[1].name, "cobol");
    assert_eq!(found[1].extension, "txt");
    assert_eq!(found[2].name, "typescript");
    assert_eq!(found[2].extension, "ts");
}

#[test]
fn discovery_fails_on_unreadable_directory_name() {
    let entries = vec![
        dir("python"),
        ConfigEntry { path: "./config/?".to_string(), name: None, is_dir: true },
    ];
    let err = discover_languages(&entries).unwrap_err();
    assert_eq!(err.message(), "Internal error: Invalid directory name");
    let entries = vec![ConfigEntry { path: "./config/?".to_string(), name: None, is_dir: false }];
    assert_eq!(discover_languages(&entries).unwrap().len(), 0);
}

#[test]
fn registry_finds_what_was_stored() {
    let mut registry = FileSystemLanguageRepository::new("./config".to_string());
    assert_eq!(registry.config_dir(), "./config");
    registry.store(discover_languages(&vec![dir("python"), dir("javascript")]).unwrap());
    let l = registry.find_by_name("javascript").unwrap();
    assert_eq!(l.name, "javascript");
    assert_eq!(l.extension, "js");
    assert_eq!(l.config_dir, "./config/javascript");
    assert_eq!(names(&registry), vec!["python", "javascript"]);
}

#[test]
fn unknown_language_is_not_found() {
    let mut registry = FileSystemLanguageRepository::new("./config".to_string());
    registry.store(discover_languages(&vec![dir("python")]).unwrap());
    let err = registry.find_by_name("cobol").unwrap_err();
    assert!(matches!(err, DomainError::LanguageNotFound(_)));
    assert_eq!(err.message(), "Language not found: cobol");
    let api = ApiError::new(err);
    assert_eq!(api.status_code(), 404);
    assert_eq!(api.body_message(), "Language not found: cobol");
}

#[test]
fn observing_the_registry_changes_nothing() {
    let mut registry = FileSystemLanguageRepository::new("./config".to_string());
    registry.store(discover_languages(&vec![dir("python"), dir("typescript")]).unwrap());
    let before = names(&registry);
    for _ in 0..3 {
        assert_eq!(registry.find_by_name("python").unwrap().extension, "py");
        assert!(registry.find_by_name("missing").is_err());
        assert_eq!(names(&registry), before);
    }
}

#[test]
fn insert_replaces_the_language_of_the_same_name() {
    let mut registry = FileSystemLanguageRepository::new("./config".to_string());
    registry.insert(Language::new("a".to_string(), "txt".to_string(), "/1/a".to_string()));
    registry.insert(Language::new("b".to_string(), "txt".to_string(), "/1/b".to_string()));
    registry.insert(Language::new("a".to_string(), "txt".to_string(), "/2/a".to_string()));
    assert_eq!(names(&registry), vec!["a", "b"]);
    assert_eq!(registry.find_by_name("a").unwrap().config_dir, "/2/a");
}

#[test]
fn setup_runs_the_scripts_that_exist_and_stores_all() {
    let mut registry = FileSystemLanguageRepository::new("./config".to_string());
    let entries = vec![dir("python"), file("notes"), dir("javascript")];
    let (mut setup, step) = registry.setup_all(&entries);
    match step {
        Step::Ask(Request::Exists(path)) => assert_eq!(path, "./config/python/setup.sh"),
        _ => panic!("expected a question about the first script"),
    }
    match registry.resume_setup(&mut setup, Reply::Exists(true)) {
        Step::Ask(Request::Run(command)) => {
            assert_eq!(command.program, "bash");
            assert_eq!(command.args, vec!["./config/python/setup.sh"]);
        }
        _ => panic!("expected the script to be run"),
    }
    assert_eq!(setup.stage, SetupStage::Run);
    assert_eq!(names(&registry), Vec::<String>::new());
    match registry.resume_setup(&mut setup, exited("", 0)) {
        Step::Ask(Request::Exists(path)) => assert_eq!(path, "./config/javascript/setup.sh"),
        _ => panic!("expected a question about the second script"),
    }
    match registry.resume_setup(&mut setup, Reply::Exists(false)) {
        Step::Done(Ok(())) => {}
        _ => panic!("expected the startup to end"),
    }
    assert_eq!(setup.stage, SetupStage::Finished);
    assert_eq!(names(&registry), vec!["python", "javascript"]);
}

#[test]
fn failing_setup_script_aborts_the_startup() {
    let mut registry = FileSystemLanguageRepository::new("./config".to_string());
    let (mut setup, _) = registry.setup_all(&vec![dir("python"), dir("javascript")]);
    registry.resume_setup(&mut setup, Reply::Exists(true));
    match registry.resume_setup(&mut setup, exited("pip failed", 1)) {
        Step::Done(Err(e)) => {
            assert_eq!(e.kind(), ErrorKind::Internal);
            assert_eq!(e.message(), "Internal error: Script execution failed: pip failed");
        }
        _ => panic!("expected a failure"),
    }
    assert_eq!(names(&registry), Vec::<String>::new());
}

#[test]
fn setup_script_that_cannot_be_spawned_aborts_the_startup() {
    let mut registry = FileSystemLanguageRepository::new("./config".to_string());
    let (mut setup, _) = registry.setup_all(&vec![dir("python")]);
    registry.resume_setup(&mut setup, Reply::Exists(true));
    match registry.resume_setup(&mut setup, Reply::Failed("no bash".to_string())) {
        Step::Done(Err(e)) => {
            assert_eq!(e.message(), "Internal error: Failed to execute script: no bash")
        }
        _ => panic!("expected a failure"),
    }
}

#[test]
fn setup_of_empty_directory_ends_at_once() {
    let mut registry = FileSystemLanguageRepository::new("./config".to_string());
    let (setup, step) = registry.setup_all(&vec![file("README")]);
    assert!(matches!(step, Step::Done(Ok(()))));
    assert_eq!(setup.stage, SetupStage::Finished);
    assert_eq!(names(&registry), Vec::<String>::new());
}

#[test]
fn setup_fails_when_discovery_fails() {
    let mut registry = FileSystemLanguageRepository::new("./config".to_string());
    let entries = vec![ConfigEntry { path: "./config/?".to_string(), name: None, is_dir: true }];
    let (_, step) = registry.setup_all(&entries);
    match step {
        Step::Done(Err(e)) => assert_eq!(e.message(), "Internal error: Invalid directory name"),
        _ => panic!("expected a failure"),
    }
}

#[test]
fn setup_state_that_names_no_language_ends_the_startup() {
    let mut registry = FileSystemLanguageRepository::new("./config".to_string());
    let mut setup = LanguageSetup { stage: SetupStage::Probe, discovered: Vec::new(), next: 0 };
    match registry.resume_setup(&mut setup, Reply::Exists(true)) {
        Step::Done(Err(e)) => assert_eq!(e.message(), "Internal error: Unexpected reply"),
        _ => panic!("expected a failure"),
    }
    assert_eq!(setup.stage, SetupStage::Finished);
    assert_eq!(names(&registry), Vec::<String>::new());
}
