use compile_bot::handler::CommandKind;
use compile_bot::EventHandler;

#[test]
fn new_handler_logs_to_its_channel() {
    assert_eq!(EventHandler::new(5).log_channel(), Some(5));
}

#[test]
fn handler_from_environment_value() {
    assert_eq!(EventHandler::from_env_value(Some("81384788765712384")).log_channel(), Some(81384788765712384));
    assert_eq!(EventHandler::from_env_value(Some("+12")).log_channel(), Some(12));
    assert_eq!(EventHandler::from_env_value(Some("channel")).log_channel(), None);
    assert_eq!(EventHandler::from_env_value(Some("")).log_channel(), None);
    assert_eq!(EventHandler::from_env_value(None).log_channel(), None);
}

#[test]
fn ready_registers_commands_and_plans_logging() {
    let plan = EventHandler::new(9).ready();
    let names: Vec<&str> = plan.commands.iter().map(|c| c.name.as_str()).collect();
    assert_eq!(names, vec!["run", "system_load"]);
    let log = plan.log.expect("a log plan");
    assert_eq!(log.channel, 9);
    assert_eq!(log.greeting, "Bot initialized and ready to use!");
    assert_eq!(log.report_every_secs, 14400);
    assert!(EventHandler::from_env_value(None).ready().log.is_none());
}

#[test]
fn interactions_are_routed_by_name() {
    assert_eq!(EventHandler::route("run"), CommandKind::Run);
    assert_eq!(EventHandler::route("system_load"), CommandKind::SystemLoad);
    assert_eq!(EventHandler::route("Run"), CommandKind::Unknown);
    assert_eq!(EventHandler::route(""), CommandKind::Unknown);
}

#[test]
fn registered_commands_are_routed() {
    let plan = EventHandler::new(1).ready();
    assert_eq!(EventHandler::route(&plan.commands[0].name), CommandKind::Run);
    assert_eq!(EventHandler::route(&plan.commands[1].name), CommandKind::SystemLoad);
}

#[test]
fn handler_debug_shows_log_channel() {
    assert_eq!(format!("{:?}", EventHandler::new(3)), "EventHandler { log_channel: Some(3) }");
}

#[test]
fn log_channel_set_to_an_id_reads_back_that_id() {
    for n in [0u64, 7, 81384788765712384, u64::MAX] {
        let text = n.to_string();
        assert_eq!(EventHandler::from_env_value(Some(text.as_str())).log_channel(), EventHandler::new(n).log_channel());
    }
}
