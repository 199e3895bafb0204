//! How the bot reacts to Discord's gateway events.

use vstd::prelude::*;
use vstd::string::StringExecFns;
use crate::commands::run;
use crate::commands::system_load;
use crate::model::CommandSpec;
use crate::text::parse_u64;
use crate::text::str_equal;

verus! {

/// Which command an interaction asks for.
#[derive(Copy, Clone, Debug, PartialEq, Eq, Structural)]
pub enum CommandKind {
    Run,
    SystemLoad,
    /// A command the bot does not serve; it is answered with an empty message.
    Unknown,
}

/// The command that an interaction named `name` asks for.
pub open spec fn command_kind(name: Seq<char>) -> CommandKind {
    if name == "run"@ {
        CommandKind::Run
    } else if name == "system_load"@ {
        CommandKind::SystemLoad
    } else {
        CommandKind::Unknown
    }
}

/// Where and how often the bot reports on itself once it is ready.
pub struct LogPlan {
    /// The channel to report in.
    pub channel: u64,
    /// The message sent there first.
    pub greeting: String,
    /// The time between two system load reports, in seconds.
    pub report_every_secs: u64,
}

/// What the bot does once it is ready: register its commands, in order,
/// and, when it has a log channel, greet there and report its load
/// periodically.
pub struct ReadyPlan {
    pub commands: Vec<CommandSpec>,
    pub log: Option<LogPlan>,
}

/// The bot's handler of gateway events, with the channel it logs to, if any.
#[derive(Debug)]
pub struct EventHandler {
    log_channel: Option<u64>,
}

impl EventHandler {
    /// A handler that logs to the channel `id`.
    pub fn new(id: u64) -> (h: EventHandler)
        ensures
            h.log_channel() == Some(id),
    {
        EventHandler { log_channel: Some(id) }
    }

    /// A handler configured by the value of the `LOG_CHANNEL` environment
    /// variable: it logs to the channel the value names in decimal, and to
    /// none when the variable is unset or does not name one.
    pub fn from_env_value(value: Option<&str>) -> (h: EventHandler)
        ensures
            h.log_channel() == (match value {
                Some(v) => crate::text::parse_u64_spec(v@),
                None => None,
            }),
    {
        let log_channel = match value {
            Some(v) => parse_u64(v),
            None => None,
        };
        EventHandler { log_channel }
    }

    /// The channel the handler logs to.
    #[verifier::when_used_as_spec(spec_log_channel)]
    pub fn log_channel(&self) -> (c: Option<u64>)
        ensures
            c == self.spec_log_channel(),
    {
        self.log_channel
    }

    /// The channel the handler logs to.
    pub closed spec fn spec_log_channel(&self) -> Option<u64> {
        self.log_channel
    }

    /// What to do on the `ready` event: register `/run` and
    /// `/system_load`; with a log channel, greet there with
    /// `Bot initialized and ready to use!` and report the system load every
    /// four hours.
    pub fn ready(&self) -> (p: ReadyPlan)
        ensures
            p.commands@.len() == 2,
            run::is_run_command(p.commands@[0]),
            system_load::is_system_load_command(p.commands@[1]),
            match self.log_channel() {
                Some(c) => p.log matches Some(l) && l.channel == c && l.greeting@
                    == "Bot initialized and ready to use!"@ && l.report_every_secs == 14400,
                None => p.log is None,
            },
    {
        let mut commands = Vec::new();
        commands.push(run::setup_command());
        commands.push(system_load::setup_command());
        let log = match self.log_channel {
            Some(channel) => Some(
                LogPlan {
                    channel,
                    greeting: "Bot initialized and ready to use!".to_owned(),
                    report_every_secs: 14400,
                },
            ),
            None => None,
        };
        ReadyPlan { commands, log }
    }

    /// The command that an interaction named `name` asks for.
    pub fn route(name: &str) -> (k: CommandKind)
        ensures
            k == command_kind(name@),
    {
        if str_equal(name, "run") {
            CommandKind::Run
        } else if str_equal(name, "system_load") {
            CommandKind::SystemLoad
        } else {
            CommandKind::Unknown
        }
    }
}

/// Every command the bot registers reaches its own handler.
pub proof fn lemma_registered_commands_are_routed(c: CommandSpec)
    ensures
        run::is_run_command(c) ==> command_kind(c.name@) == CommandKind::Run,
        system_load::is_system_load_command(c) ==> command_kind(c.name@) == CommandKind::SystemLoad,
{
    reveal_strlit("run");
    reveal_strlit("system_load");
    assert("run"@.len() != "system_load"@.len());
}

/// Interactions reach `/run` exactly when named `run`, `/system_load`
/// exactly when named `system_load`, and no handler otherwise.
pub proof fn lemma_routing(name: Seq<char>)
    ensures
        command_kind(name) == CommandKind::Run <==> name == seq!['r', 'u', 'n'],
        command_kind(name) == CommandKind::SystemLoad <==> name == seq![
            's',
            'y',
            's',
            't',
            'e',
            'm',
            '_',
            'l',
            'o',
            'a',
            'd',
        ],
{
    reveal_strlit("run");
    reveal_strlit("system_load");
    assert("run"@ =~= seq!['r', 'u', 'n']);
    assert("system_load"@ =~= seq!['s', 'y', 's', 't', 'e', 'm', '_', 'l', 'o', 'a', 'd']);
}

} // verus!
