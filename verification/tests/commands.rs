use compile_bot::commands::option_value;
use compile_bot::commands::run::{acknowledgement, check_options, command, outcome_message, setup_command, RUN_TIME_LIMIT_SECS};
use compile_bot::commands::system_load;
use compile_bot::executor::{Action, Error, Event, Language, Stage};
use compile_bot::model::{CommandOption, OptionKind, OptionValue};
use compile_bot::utils::{build_system_load_embed, SystemStats};

fn opt(name: &str, value: Option<&str>) -> CommandOption {
    CommandOption {
        name: String::from(name),
        value: match value {
            Some(v) => OptionValue::Text(String::from(v)),
            None => OptionValue::Missing,
        },
    }
}

#[test]
fn last_option_of_a_name_counts() {
    let opts = vec![opt("lang", Some("c")), opt("code", Some("x")), opt("lang", Some("cpp"))];
    assert!(matches!(option_value(&opts, "lang"), Some(OptionValue::Text(s)) if s == "cpp"));
    assert!(matches!(option_value(&opts, "code"), Some(OptionValue::Text(s)) if s == "x"));
    assert!(option_value(&opts, "other").is_none());
}

#[test]
fn run_options_must_be_complete() {
    assert!(check_options(&vec![opt("lang", Some("rust")), opt("code", Some("fn main(){}"))]));
    assert!(!check_options(&vec![opt("lang", Some("rust"))]));
    assert!(!check_options(&vec![opt("code", Some("x"))]));
    assert!(!check_options(&vec![opt("lang", Some("go")), opt("code", Some("x"))]));
    assert!(!check_options(&vec![opt("lang", Some("c")), opt("code", None)]));
    let other = CommandOption { name: String::from("code"), value: OptionValue::Other };
    assert!(!check_options(&vec![opt("lang", Some("c")), other]));
}

#[test]
fn run_command_starts_the_run_and_acknowledges() {
    let opts = vec![opt("code", Some("int main(){}")), opt("lang", Some("cpp"))];
    let (mut session, action, response) = command(&opts, 111, 222);
    assert!(matches!(action, Action::OpenSource { ref path } if path == "./111-222.cpp"));
    assert!(matches!(session.stage(), Stage::Opening));
    assert!(matches!(session.on_event(Event::SourceOpened), Action::WriteSource { ref contents } if contents == "int main(){}"));
    match session.on_event(Event::SourceWritten) {
        Action::InvokeCompiler { program, .. } => assert_eq!(program, "g++"),
        _ => panic!("expected the compiler call"),
    }
    let a = session.on_event(Event::CompilerExited { stderr: Vec::new() });
    assert!(matches!(a, Action::RunProgram { ref path, time_limit_secs } if path == "./111-222.o" && time_limit_secs == RUN_TIME_LIMIT_SECS));
    assert_eq!(RUN_TIME_LIMIT_SECS, 10);
    let embed = response.embed.expect("an embed");
    assert_eq!(embed.title.as_deref(), Some("Compilling"));
    assert_eq!(embed.description.as_deref(), Some("Compilling <@222> code"));
    assert!(embed.fields.is_empty());
}

#[test]
fn acknowledgement_mentions_the_user() {
    let r = acknowledgement(81384788765712384);
    assert_eq!(r.embed.unwrap().description.unwrap(), "Compilling <@81384788765712384> code");
}

#[test]
fn outcome_messages() {
    let ok: compile_bot::executor::RunResult = Ok((String::from("warn\n"), String::from("out")));
    assert_eq!(outcome_message(&ok), "warn\nout");
    let d = Some(String::from("diag"));
    assert_eq!(outcome_message(&Err((d.clone(), Error::BuildError))), "Build error!\ndiag");
    assert_eq!(outcome_message(&Err((d.clone(), Error::ExecError))), "Execution error!\nCompile output:\ndiag");
    assert_eq!(outcome_message(&Err((None, Error::InvokeError))), "Failed to call compiler!");
    assert_eq!(outcome_message(&Err((None, Error::FsError))), "File system error on server!");
    assert_eq!(outcome_message(&Err((None, Error::Unsupported))), "Currently unsupported");
    assert_eq!(outcome_message(&Err((d, Error::TimeOut))), "Time out. Write normal code and try again");
}

#[test]
fn run_command_definition() {
    let c = setup_command();
    assert_eq!(c.name, "run");
    assert_eq!(c.description, "Run code");
    assert_eq!(c.options.len(), 2);
    let lang = &c.options[0];
    assert_eq!(lang.name, "lang");
    assert_eq!(lang.description, "Language");
    assert!(lang.required);
    assert_eq!(lang.kind, OptionKind::String);
    let choices: Vec<(&str, &str)> = lang.choices.iter().map(|c| (c.name.as_str(), c.value.as_str())).collect();
    assert_eq!(choices, vec![("Rust", "rust"), ("C++", "cpp"), ("C", "c")]);
    for (_, value) in choices {
        assert!(Language::from_str(value).is_ok());
    }
    let code = &c.options[1];
    assert_eq!(code.name, "code");
    assert_eq!(code.description, "Code");
    assert!(code.required);
    assert!(code.choices.is_empty());
}

fn stats() -> SystemStats {
    SystemStats {
        cores: 8,
        frequency: 2400,
        load: String::from("0.42"),
        mem_total: 16000000,
        mem_avail: 8000000,
        mem_free: 4000000,
    }
}

#[test]
fn system_load_report() {
    let e = build_system_load_embed(&stats());
    assert!(e.title.is_none());
    assert!(e.description.is_none());
    assert_eq!(e.fields.len(), 2);
    assert_eq!(e.fields[0].name, "CPU info");
    assert_eq!(e.fields[0].value, "Total cores count: **8**\nFrequency: **2400**\nSystem load: **0.42**\n");
    assert!(e.fields[0].inline);
    assert_eq!(e.fields[1].name, "Memory usage");
    assert_eq!(e.fields[1].value, "Total memory: **16000000**\nAvailable memory: **8000000**\nUsage %: **25**\n");
    assert!(e.fields[1].inline);
}

#[test]
fn usage_rounds_down_the_hundredth_of_total() {
    let mut s = stats();
    s.mem_total = 199;
    s.mem_free = 150;
    let e = build_system_load_embed(&s);
    assert!(e.fields[1].value.ends_with("Usage %: **150**\n"));
}

#[test]
fn system_load_command() {
    let r = system_load::command(&stats());
    assert_eq!(r.embed.unwrap().fields.len(), 2);
    let c = system_load::setup_command();
    assert_eq!(c.name, "system_load");
    assert_eq!(c.description, "Get system load");
    assert!(c.options.is_empty());
}
