//! `/run`: compile and run a piece of code, answering at once that the
//! work started and later with its outcome.

use vstd::prelude::*;
use vstd::string::StringExecFns;
use crate::commands::option_value;
use crate::executor::Error;
use crate::executor::Executor;
use crate::executor::Language;
use crate::executor::RunResult;
use crate::executor::RunSession;
use crate::executor::Action;
use crate::model::CommandChoice;
use crate::model::CommandOption;
use crate::model::CommandOptionSpec;
use crate::model::CommandSpec;
use crate::model::Embed;
use crate::model::InteractionResponse;
use crate::model::OptionKind;
use crate::model::OptionValue;
use crate::text::mention;

verus! {

/// The text of the option called `name`, when it is there and holds text.
pub open spec fn option_text(opts: Seq<CommandOption>, name: Seq<char>) -> Option<Seq<char>> {
    match crate::commands::option_index(opts, name) {
        Some(i) => match opts[i].value {
            OptionValue::Text(s) => Some(s@),
            _ => None,
        },
        None => None,
    }
}

/// The name of the option holding the code.
pub open spec fn code_option() -> Seq<char> {
    seq!['c', 'o', 'd', 'e']
}

/// The name of the option holding the language.
pub open spec fn lang_option() -> Seq<char> {
    seq!['l', 'a', 'n', 'g']
}

/// `/run` needs its code as text and a language that the bot knows.
pub open spec fn run_options_valid(opts: Seq<CommandOption>) -> bool {
    &&& option_text(opts, code_option()) is Some
    &&& option_text(opts, lang_option()) matches Some(l) && Language::named(l) is Some
}

/// The immediate answer to `/run` by `user`: an embed titled `Compilling`
/// that says `Compilling <@user> code`.
pub open spec fn is_acknowledgement(r: InteractionResponse, user: u64) -> bool {
    &&& r.embed matches Some(e)
    &&& e.title matches Some(t) && t@ == "Compilling"@
    &&& e.description matches Some(d) && d@ == "Compilling "@ + crate::text::mention_text(user) + " code"@
    &&& e.fields@.len() == 0
}

fn option_str<'a>(options: &'a Vec<CommandOption>, name: &str) -> (r: Option<&'a String>)
    ensures
        match option_text(options@, name@) {
            Some(t) => r matches Some(s) && s@ == t,
            None => r is None,
        },
{
    match option_value(options, name) {
        Some(OptionValue::Text(s)) => Some(s),
        _ => None,
    }
}

/// Tells whether `/run` can be served with these options: the code is
/// there as text and the language is one the bot knows.
pub fn check_options(options: &Vec<CommandOption>) -> (b: bool)
    ensures
        b == run_options_valid(options@),
{
    proof {
        reveal_strlit("code");
        reveal_strlit("lang");
        assert("code"@ =~= code_option());
        assert("lang"@ =~= lang_option());
    }
    if option_str(options, "code").is_none() {
        return false;
    }
    match option_str(options, "lang") {
        Some(l) => Language::from_str(l.as_str()).is_ok(),
        None => false,
    }
}

/// The time a program compiled for `/run` gets to finish, in seconds.
pub const RUN_TIME_LIMIT_SECS: u64 = 10;

/// Serves `/run` by `user` in `channel`: the run of the code in its
/// language, started with a time limit of [`RUN_TIME_LIMIT_SECS`] seconds,
/// its first action, and the immediate answer.
pub fn command(options: &Vec<CommandOption>, channel: u64, user: u64) -> (r: (
    RunSession,
    Action,
    InteractionResponse,
))
    requires
        run_options_valid(options@),
    ensures
        r.0@ == (crate::executor::SessionView {
            executor: crate::executor::ExecutorView {
                code: option_text(options@, code_option())->0,
                lang: Language::named(option_text(options@, lang_option())->0)->0,
                channel,
                user,
            },
            time_limit_secs: RUN_TIME_LIMIT_SECS,
            stage: crate::executor::StageView::Opening,
        }),
        r.0.wf(),
        r.1@ == crate::executor::ActionView::OpenSource(
            crate::executor::source_path(
                Language::named(option_text(options@, lang_option())->0)->0,
                channel,
                user,
            ),
        ),
        is_acknowledgement(r.2, user),
{
    proof {
        reveal_strlit("code");
        reveal_strlit("lang");
        assert("code"@ =~= code_option());
        assert("lang"@ =~= lang_option());
    }
    let code = match option_str(options, "code") {
        Some(c) => c.clone(),
        None => String::new(),
    };
    let lang = match option_str(options, "lang") {
        Some(l) => match Language::from_str(l.as_str()) {
            Ok(lang) => lang,
            Err(()) => Language::Rust,
        },
        None => Language::Rust,
    };
    let executor = Executor::new(lang, code, channel, user);
    let (session, action) = executor.compile_and_run(RUN_TIME_LIMIT_SECS);
    (session, action, acknowledgement(user))
}

/// The embed that tells `user` that their code is being compiled.
pub fn acknowledgement(user: u64) -> (r: InteractionResponse)
    ensures
        is_acknowledgement(r, user),
{
    let mut description = "Compilling ".to_owned();
    let m = mention(user);
    description.append(m.as_str());
    description.append(" code");
    let embed = Embed {
        title: Some("Compilling".to_owned()),
        description: Some(description),
        fields: Vec::new(),
    };
    InteractionResponse { embed: Some(embed) }
}

/// The outcomes that have an answer: an error that arises after the
/// compiler ran, other than a timeout, comes with the compiler's output.
pub open spec fn message_defined(o: crate::executor::OutcomeView) -> bool {
    !(o matches Err((None, err)) && (err == Error::BuildError || err == Error::ExecError))
}

/// The answer to the outcome `o` of a run.
pub open spec fn outcome_text(o: crate::executor::OutcomeView) -> Seq<char> {
    match o {
        Ok((c, e)) => c + e,
        Err((c, err)) => match err {
            Error::BuildError => "Build error!\n"@ + c->0,
            Error::ExecError => "Execution error!\nCompile output:\n"@ + c->0,
            Error::InvokeError => "Failed to call compiler!"@,
            Error::FsError => "File system error on server!"@,
            Error::Unsupported => "Currently unsupported"@,
            Error::TimeOut => "Time out. Write normal code and try again"@,
        },
    }
}

/// The answer the bot sends once a run is over: the compiler's diagnostics
/// followed by the program's output, or what went wrong.
pub fn outcome_message(outcome: &RunResult) -> (s: String)
    requires
        message_defined(crate::executor::outcome_view(*outcome)),
    ensures
        s@ == outcome_text(crate::executor::outcome_view(*outcome)),
{
    match outcome {
        Ok((c, e)) => {
            let mut s = c.clone();
            s.append(e.as_str());
            s
        },
        Err((c, err)) => match err {
            Error::BuildError => {
                let mut s = "Build error!\n".to_owned();
                if let Some(c) = c {
                    s.append(c.as_str());
                }
                s
            },
            Error::ExecError => {
                let mut s = "Execution error!\nCompile output:\n".to_owned();
                if let Some(c) = c {
                    s.append(c.as_str());
                }
                s
            },
            Error::InvokeError => "Failed to call compiler!".to_owned(),
            Error::FsError => "File system error on server!".to_owned(),
            Error::Unsupported => "Currently unsupported".to_owned(),
            Error::TimeOut => "Time out. Write normal code and try again".to_owned(),
        },
    }
}

/// The answer to a run: for a success, the compiler's output followed by
/// the program's output, whatever either holds (empty ones included); for
/// each error, its message, followed by the compiler's output for a build
/// or execution error.
pub proof fn lemma_outcome_answers(c: Seq<char>, e: Seq<char>)
    ensures
        outcome_text(Ok((c, e))) == c + e,
        outcome_text(Ok((c, e))).len() == c.len() + e.len(),
        outcome_text(Ok((c, e))).skip(c.len() as int) == e,
        outcome_text(Err((Some(c), Error::BuildError))) == "Build error!\n"@ + c,
        outcome_text(Err((Some(c), Error::ExecError))) == "Execution error!\nCompile output:\n"@ + c,
        forall|d: Option<Seq<char>>|
            #![trigger outcome_text(Err((d, Error::InvokeError)))]
            outcome_text(Err((d, Error::InvokeError))) == "Failed to call compiler!"@,
        forall|d: Option<Seq<char>>|
            #![trigger outcome_text(Err((d, Error::FsError)))]
            outcome_text(Err((d, Error::FsError))) == "File system error on server!"@,
        forall|d: Option<Seq<char>>|
            #![trigger outcome_text(Err((d, Error::Unsupported)))]
            outcome_text(Err((d, Error::Unsupported))) == "Currently unsupported"@,
        forall|d: Option<Seq<char>>|
            #![trigger outcome_text(Err((d, Error::TimeOut)))]
            outcome_text(Err((d, Error::TimeOut))) == "Time out. Write normal code and try again"@,
{
    assert((c + e).skip(c.len() as int) =~= e);
}

/// Every outcome that a run completes with has an answer.
pub proof fn lemma_completed_runs_are_answered(
    s: crate::executor::SessionView,
    e: crate::executor::EventView,
)
    requires
        crate::executor::session_wf(s),
    ensures
        crate::executor::step(s, e).1 matches crate::executor::ActionView::Complete(o)
            ==> message_defined(o),
{
    crate::executor::lemma_step_keeps_diagnostics(s, e);
}

/// The languages offered for `/run`, as (shown name, value) pairs.
pub open spec fn lang_choices() -> Seq<(Seq<char>, Seq<char>)> {
    seq![
        (seq!['R', 'u', 's', 't'], seq!['r', 'u', 's', 't']),
        (seq!['C', '+', '+'], seq!['c', 'p', 'p']),
        (seq!['C'], seq!['c']),
    ]
}

fn choice(name: &str, value: &str) -> (c: CommandChoice)
    ensures
        c.name@ == name@,
        c.value@ == value@,
{
    CommandChoice { name: name.to_owned(), value: value.to_owned() }
}

/// The `/run` command: a required `lang` option offering Rust, C++ and C,
/// and a required `code` option.
pub open spec fn is_run_command(c: CommandSpec) -> bool {
    &&& c.name@ == "run"@
    &&& c.description@ == "Run code"@
    &&& c.options@.len() == 2
    &&& c.options@[0].name@ == lang_option()
    &&& c.options@[0].description@ == "Language"@
    &&& c.options@[0].required
    &&& c.options@[0].kind == OptionKind::String
    &&& c.options@[0].choices@.len() == lang_choices().len()
    &&& forall|i: int|
        0 <= i < lang_choices().len() ==> (#[trigger] c.options@[0].choices@[i]).name@
            == lang_choices()[i].0 && c.options@[0].choices@[i].value@ == lang_choices()[i].1
    &&& c.options@[1].name@ == code_option()
    &&& c.options@[1].description@ == "Code"@
    &&& c.options@[1].required
    &&& c.options@[1].kind == OptionKind::String
    &&& c.options@[1].choices@.len() == 0
}

/// The `/run` command: a required `lang` option offering Rust, C++ and C,
/// and a required `code` option.
pub fn setup_command() -> (c: CommandSpec)
    ensures
        is_run_command(c),
{
    proof {
        reveal_strlit("Rust");
        reveal_strlit("rust");
        reveal_strlit("C++");
        reveal_strlit("cpp");
        reveal_strlit("C");
        reveal_strlit("c");
        reveal_strlit("lang");
        reveal_strlit("code");
        assert("Rust"@ =~= lang_choices()[0].0);
        assert("rust"@ =~= lang_choices()[0].1);
        assert("C++"@ =~= lang_choices()[1].0);
        assert("cpp"@ =~= lang_choices()[1].1);
        assert("C"@ =~= lang_choices()[2].0);
        assert("c"@ =~= lang_choices()[2].1);
        assert("lang"@ =~= lang_option());
        assert("code"@ =~= code_option());
    }
    let mut choices = Vec::new();
    choices.push(choice("Rust", "rust"));
    choices.push(choice("C++", "cpp"));
    choices.push(choice("C", "c"));
    let lang = CommandOptionSpec {
        name: "lang".to_owned(),
        description: "Language".to_owned(),
        required: true,
        kind: OptionKind::String,
        choices,
    };
    let code = CommandOptionSpec {
        name: "code".to_owned(),
        description: "Code".to_owned(),
        required: true,
        kind: OptionKind::String,
        choices: Vec::new(),
    };
    let mut options = Vec::new();
    options.push(lang);
    options.push(code);
    CommandSpec { name: "run".to_owned(), description: "Run code".to_owned(), options }
}

/// Some value offered for `/run` reads as `l`.
pub open spec fn is_offered(l: Language) -> bool {
    exists|i: int|
        0 <= i < lang_choices().len() && #[trigger] Language::named(lang_choices()[i].1) == Some(l)
}

/// `/run` offers exactly the languages the bot compiles: every offered value
/// reads as a language, and every language is offered.
pub proof fn lemma_lang_choices_are_the_languages()
    ensures
        forall|i: int|
            0 <= i < lang_choices().len() ==> (#[trigger] Language::named(lang_choices()[i].1)) is Some,
        forall|l: Language| #[trigger] is_offered(l),
{
    assert(Language::named(lang_choices()[0].1) == Some(Language::Rust));
    assert(Language::named(lang_choices()[1].1) == Some(Language::Cpp));
    assert(lang_choices()[2].1.len() == 1);
    assert(Language::named(lang_choices()[2].1) == Some(Language::C));
    assert forall|l: Language| #[trigger] is_offered(l) by {
        match l {
            Language::Rust => assert(Language::named(lang_choices()[0].1) == Some(l)),
            Language::Cpp => assert(Language::named(lang_choices()[1].1) == Some(l)),
            Language::C => assert(Language::named(lang_choices()[2].1) == Some(l)),
        }
    }
}

/// `/run` can be served exactly when its last `code` option holds text and
/// its last `lang` option holds `rust`, `cpp` or `c`; the run then uses that
/// text as its code and the language named.
pub proof fn lemma_run_options(opts: Seq<CommandOption>)
    ensures
        run_options_valid(opts) <==> ({
            &&& crate::commands::option_index(opts, seq!['c', 'o', 'd', 'e']) is Some
            &&& opts[crate::commands::option_index(opts, seq!['c', 'o', 'd', 'e'])->0].value is Text
            &&& crate::commands::option_index(opts, seq!['l', 'a', 'n', 'g']) is Some
            &&& opts[crate::commands::option_index(opts, seq!['l', 'a', 'n', 'g'])->0].value is Text
            &&& ({
                let l = opts[crate::commands::option_index(opts, seq!['l', 'a', 'n', 'g'])->0].value->Text_0@;
                l == seq!['r', 'u', 's', 't'] || l == seq!['c', 'p', 'p'] || l == seq!['c']
            })
        }),
        option_text(opts, code_option()) matches Some(t) ==> (opts[crate::commands::option_index(
            opts,
            seq!['c', 'o', 'd', 'e'],
        )->0].value->Text_0@ == t),
{
}

/// The languages by their option values: `rust` is Rust, `cpp` is C++, `c`
/// is C, and nothing else is a language; the shown names are `Rust`, `C++`
/// and `C`, in that order.
pub proof fn lemma_language_names()
    ensures
        Language::named(seq!['r', 'u', 's', 't']) == Some(Language::Rust),
        Language::named(seq!['c', 'p', 'p']) == Some(Language::Cpp),
        Language::named(seq!['c']) == Some(Language::C),
        forall|n: Seq<char>|
            #![trigger Language::named(n)]
            Language::named(n) is Some ==> n == seq!['r', 'u', 's', 't'] || n == seq!['c', 'p', 'p']
                || n == seq!['c'],
        lang_choices() == seq![
            (seq!['R', 'u', 's', 't'], seq!['r', 'u', 's', 't']),
            (seq!['C', '+', '+'], seq!['c', 'p', 'p']),
            (seq!['C'], seq!['c']),
        ],
{
    assert(seq!['c'].len() == 1);
    assert(seq!['c', 'p', 'p'].len() == 3);
}

/// The immediate answer to `/run` names the user: its only embed is titled
/// `Compilling` and says `Compilling <@id> code`, with the user's id in
/// decimal, reading back as the id.
pub proof fn lemma_acknowledgement_names_user(r: InteractionResponse, user: u64)
    requires
        is_acknowledgement(r, user),
    ensures
        r.embed->0.title->0@ == seq!['C', 'o', 'm', 'p', 'i', 'l', 'l', 'i', 'n', 'g'],
        r.embed->0.description->0@ == seq!['C', 'o', 'm', 'p', 'i', 'l', 'l', 'i', 'n', 'g', ' ', '<', '@']
            + crate::text::dec(user as nat) + seq!['>', ' ', 'c', 'o', 'd', 'e'],
        crate::text::parse_u64_spec(
            r.embed->0.description->0@.subrange(13, r.embed->0.description->0@.len() - 6),
        ) == Some(user),
        r.embed->0.fields@.len() == 0,
{
    reveal_strlit("Compilling");
    reveal_strlit("Compilling ");
    reveal_strlit(" code");
    let d = r.embed->0.description->0@;
    assert(r.embed->0.title->0@ =~= seq!['C', 'o', 'm', 'p', 'i', 'l', 'l', 'i', 'n', 'g']);
    assert(d =~= seq!['C', 'o', 'm', 'p', 'i', 'l', 'l', 'i', 'n', 'g', ' ', '<', '@']
        + crate::text::dec(user as nat) + seq!['>', ' ', 'c', 'o', 'd', 'e']);
    assert(d.subrange(13, d.len() - 6) =~= crate::text::dec(user as nat));
    crate::text::lemma_parse_dec(user);
}

/// The commands registered: `/run`, described `Run code`, with a required
/// text option `lang` (`Language`) offering the three languages and a
/// required text option `code` (`Code`); `/system_load`, described
/// `Get system load`, without options.
pub proof fn lemma_command_definitions(c: CommandSpec)
    ensures
        is_run_command(c) ==> {
            &&& c.name@ == seq!['r', 'u', 'n']
            &&& c.description@ == seq!['R', 'u', 'n', ' ', 'c', 'o', 'd', 'e']
            &&& c.options@.len() == 2
            &&& c.options@[0].name@ == seq!['l', 'a', 'n', 'g']
            &&& c.options@[0].description@ == seq!['L', 'a', 'n', 'g', 'u', 'a', 'g', 'e']
            &&& c.options@[0].required && c.options@[0].kind == OptionKind::String
            &&& c.options@[0].choices@.len() == 3
            &&& c.options@[1].name@ == seq!['c', 'o', 'd', 'e']
            &&& c.options@[1].description@ == seq!['C', 'o', 'd', 'e']
            &&& c.options@[1].required && c.options@[1].kind == OptionKind::String
            &&& c.options@[1].choices@.len() == 0
        },
        crate::commands::system_load::is_system_load_command(c) ==> {
            &&& c.name@ == seq!['s', 'y', 's', 't', 'e', 'm', '_', 'l', 'o', 'a', 'd']
            &&& c.description@ == seq!['G', 'e', 't', ' ', 's', 'y', 's', 't', 'e', 'm', ' ', 'l', 'o', 'a', 'd']
            &&& c.options@.len() == 0
        },
{
    reveal_strlit("run");
    reveal_strlit("Run code");
    reveal_strlit("Language");
    reveal_strlit("Code");
    reveal_strlit("system_load");
    reveal_strlit("Get system load");
    assert("run"@ =~= seq!['r', 'u', 'n']);
    assert("Run code"@ =~= seq!['R', 'u', 'n', ' ', 'c', 'o', 'd', 'e']);
    assert("Language"@ =~= seq!['L', 'a', 'n', 'g', 'u', 'a', 'g', 'e']);
    assert("Code"@ =~= seq!['C', 'o', 'd', 'e']);
    assert("system_load"@ =~= seq!['s', 'y', 's', 't', 'e', 'm', '_', 'l', 'o', 'a', 'd']);
    assert("Get system load"@ =~= seq!['G', 'e', 't', ' ', 's', 'y', 's', 't', 'e', 'm', ' ', 'l', 'o', 'a', 'd']);
}

} // verus!
