use compile_bot::compiler_interface::Compiler;
use compile_bot::executor::utils::{setup_process_env_for_exec, Resource, ResourceLimit};
use compile_bot::executor::{AbortCause, Action, Error, Event, Executor, Language, Stage};

fn start(lang: Language) -> (compile_bot::executor::RunSession, Action) {
    Executor::new(lang, String::from("fn main() {}"), 10, 20).compile_and_run(7)
}

fn complete(action: Action) -> compile_bot::executor::RunResult {
    match action {
        Action::Complete(r) => r,
        _ => panic!("the run did not complete"),
    }
}

#[test]
fn languages_read_from_option_values() {
    assert_eq!(Language::from_str("rust"), Ok(Language::Rust));
    assert_eq!(Language::from_str("cpp"), Ok(Language::Cpp));
    assert_eq!(Language::from_str("c"), Ok(Language::C));
    assert_eq!(Language::from_str("Rust"), Err(()));
    assert_eq!(Language::from_str("rs"), Err(()));
    assert_eq!("cpp".parse::<Language>(), Ok(Language::Cpp));
    assert_eq!("go".parse::<Language>(), Err(()));
    assert_eq!(Language::from_str(""), Err(()));
}

#[test]
fn languages_have_extensions_and_compilers() {
    assert_eq!(Language::Rust.as_str(), "rs");
    assert_eq!(Language::Cpp.as_str(), "cpp");
    assert_eq!(Language::C.as_str(), "c");
    assert_eq!(Language::Rust.compiler_name(), "rustc");
    assert_eq!(Language::Cpp.compiler_name(), "g++");
    assert_eq!(Language::C.compiler_name(), "gcc");
}

#[test]
fn executor_paths() {
    let e = Executor::new(Language::Cpp, String::from("int main(){}"), 81384788765712384, 6);
    assert_eq!(e.code_path(), "./81384788765712384-6.cpp");
    assert_eq!(e.exec_path(), "./81384788765712384-6.o");
    assert_eq!(Executor::form_file_name(1, 2, "c"), "./1-2.c");
    assert_eq!(e.code(), "int main(){}");
    assert_eq!(e.lang(), Language::Cpp);
}

#[test]
fn successful_run_walks_every_step() {
    let (mut s, a) = start(Language::Rust);
    assert!(matches!(a, Action::OpenSource { ref path } if path == "./10-20.rs"));
    let a = s.on_event(Event::SourceOpened);
    assert!(matches!(a, Action::WriteSource { ref contents } if contents == "fn main() {}"));
    let a = s.on_event(Event::SourceWritten);
    match a {
        Action::InvokeCompiler { program, input, output } => {
            assert_eq!(program, "rustc");
            assert_eq!(input, "./10-20.rs");
            assert_eq!(output, "./10-20.o");
        }
        _ => panic!("expected the compiler call"),
    }
    let a = s.on_event(Event::CompilerExited { stderr: b"warning: unused\n".to_vec() });
    assert!(matches!(a, Action::RunProgram { ref path, time_limit_secs: 7 } if path == "./10-20.o"));
    assert!(matches!(s.stage(), Stage::Running { compile_output } if compile_output == "warning: unused\n"));
    let a = s.on_event(Event::ProgramExited { stdout: "hi ✓\n".as_bytes().to_vec() });
    match a {
        Action::RemoveFiles { source, program } => {
            assert_eq!(source, "./10-20.rs");
            assert_eq!(program, "./10-20.o");
        }
        _ => panic!("expected the clean-up"),
    }
    let r = complete(s.on_event(Event::FilesRemoved));
    assert_eq!(r, Ok((String::from("warning: unused\n"), String::from("hi ✓\n"))));
    assert!(matches!(s.stage(), Stage::Finished));
    assert!(matches!(s.on_event(Event::FilesRemoved), Action::Idle));
}

#[test]
fn open_failure_cleans_up_with_fs_error() {
    let (mut s, _) = start(Language::C);
    assert!(matches!(s.on_event(Event::SourceOpenFailed), Action::RemoveFiles { .. }));
    assert_eq!(complete(s.on_event(Event::FilesRemoved)), Err((None, Error::FsError)));
}

#[test]
fn write_failure_ends_at_once() {
    let (mut s, _) = start(Language::C);
    s.on_event(Event::SourceOpened);
    assert_eq!(complete(s.on_event(Event::SourceWriteFailed)), Err((None, Error::FsError)));
    assert!(matches!(s.stage(), Stage::Finished));
}

#[test]
fn missing_compiler_is_unsupported() {
    let (mut s, _) = start(Language::Cpp);
    s.on_event(Event::SourceOpened);
    s.on_event(Event::SourceWritten);
    assert!(matches!(s.on_event(Event::CompilerNotStarted), Action::RemoveFiles { .. }));
    assert_eq!(complete(s.on_event(Event::FilesRemoved)), Err((None, Error::Unsupported)));
}

#[test]
fn non_utf8_diagnostics_are_an_invoke_error() {
    let (mut s, _) = start(Language::Rust);
    s.on_event(Event::SourceOpened);
    s.on_event(Event::SourceWritten);
    assert!(matches!(s.on_event(Event::CompilerExited { stderr: vec![0xff, 0xfe] }), Action::RemoveFiles { .. }));
    assert_eq!(complete(s.on_event(Event::FilesRemoved)), Err((None, Error::InvokeError)));
}

#[test]
fn lost_compiler_aborts() {
    let (mut s, _) = start(Language::Rust);
    s.on_event(Event::SourceOpened);
    s.on_event(Event::SourceWritten);
    assert!(matches!(s.on_event(Event::CompilerWaitFailed), Action::Abort(AbortCause::CompilerLost)));
}

fn running() -> compile_bot::executor::RunSession {
    let (mut s, _) = start(Language::Rust);
    s.on_event(Event::SourceOpened);
    s.on_event(Event::SourceWritten);
    s.on_event(Event::CompilerExited { stderr: b"diag".to_vec() });
    s
}

#[test]
fn program_failures_keep_the_diagnostics() {
    let mut s = running();
    s.on_event(Event::ProgramNotStarted);
    assert_eq!(complete(s.on_event(Event::FilesRemoved)), Err((Some(String::from("diag")), Error::BuildError)));
    let mut s = running();
    s.on_event(Event::ProgramWaitFailed);
    assert_eq!(complete(s.on_event(Event::FilesRemoved)), Err((Some(String::from("diag")), Error::ExecError)));
    let mut s = running();
    s.on_event(Event::ProgramTimedOut);
    assert_eq!(complete(s.on_event(Event::FilesRemoved)), Err((Some(String::from("diag")), Error::TimeOut)));
}

#[test]
fn non_utf8_output_aborts() {
    let mut s = running();
    assert!(matches!(s.on_event(Event::ProgramExited { stdout: vec![0xc3] }), Action::Abort(AbortCause::OutputNotText)));
}

#[test]
fn out_of_order_events_change_nothing() {
    let (mut s, _) = start(Language::Rust);
    assert!(matches!(s.on_event(Event::FilesRemoved), Action::Idle));
    assert!(matches!(s.stage(), Stage::Opening));
    assert!(matches!(s.on_event(Event::ProgramTimedOut), Action::Idle));
    assert!(matches!(s.on_event(Event::SourceOpened), Action::WriteSource { .. }));
}

#[test]
fn sandbox_limits() {
    let p = setup_process_env_for_exec();
    assert_eq!(p.priority, 19);
    assert_eq!(
        p.limits,
        vec![
            ResourceLimit { resource: Resource::AddressSpace, soft: 10485760, hard: 10485760 },
            ResourceLimit { resource: Resource::CoreFile, soft: 0, hard: 0 },
            ResourceLimit { resource: Resource::DataSegment, soft: 5242880, hard: 5242880 },
            ResourceLimit { resource: Resource::FileSize, soft: 0, hard: 0 },
            ResourceLimit { resource: Resource::Processes, soft: 2, hard: 2 },
            ResourceLimit { resource: Resource::Stack, soft: 2097152, hard: 2097152 },
            ResourceLimit { resource: Resource::OpenFiles, soft: 4, hard: 4 },
        ]
    );
}

#[test]
fn compiler_paths_and_job() {
    let c = Compiler::new(Language::Rust, String::from("fn main(){}"), 3, 4);
    assert_eq!(c.path(), "./3-4.rs");
    assert_eq!(c.code(), "fn main(){}");
    assert_eq!(c.id(), (3, 4));
    assert_eq!(Compiler::form_file_name(3, 4, "rs"), "3-4.rs");
    let job = c.compile();
    assert_eq!(job.program, "rustc");
    assert_eq!(job.input, "./3-4.rs");
    assert_eq!(job.output, "./3-4.o");
    assert_eq!(job.finish(Some(b"ok".to_vec())), Ok((String::from("./3-4.o"), b"ok".to_vec())));
    let job = Compiler::new(Language::C, String::new(), 3, 4).compile();
    assert_eq!(job.program, "gcc");
    assert_eq!(job.finish(None), Err(()));
}
