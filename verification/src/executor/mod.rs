//! Compiling and running one piece of user code.
//!
//! A run writes the code to `./<channel>-<user>.<ext>`, compiles it to
//! `./<channel>-<user>.o`, runs that program, removes both files and
//! reports the compiler's diagnostics and the program's output. The
//! process and file work is done by the caller: [`RunSession`] decides,
//! after each reported [`Event`], the next [`Action`].

pub mod utils;

use vstd::prelude::*;
use vstd::string::StringExecFns;
use crate::text::file_name_of;
use crate::text::str_equal;

verus! {

/// A language that the bot compiles.
#[derive(Copy, Clone, Debug, PartialEq, Eq, Structural)]
pub enum Language {
    Rust,
    Cpp,
    C,
}

/// Why a run failed.
#[derive(Copy, Clone, Debug, PartialEq, Eq, Structural)]
pub enum Error {
    /// The compiled program could not be started.
    BuildError,
    /// Waiting for the compiled program failed.
    ExecError,
    /// The compiler's diagnostics were not UTF-8.
    InvokeError,
    /// The source file could not be opened or written.
    FsError,
    /// The compiler could not be started.
    Unsupported,
    /// The compiled program ran past its time limit.
    TimeOut,
}

impl Language {
    /// The file extension of sources in this language.
    pub open spec fn extension(self) -> Seq<char> {
        match self {
            Language::Rust => seq!['r', 's'],
            Language::Cpp => seq!['c', 'p', 'p'],
            Language::C => seq!['c'],
        }
    }

    /// The language that the `lang` option value `name` selects.
    pub open spec fn named(name: Seq<char>) -> Option<Language> {
        if name == seq!['r', 'u', 's', 't'] {
            Some(Language::Rust)
        } else if name == seq!['c', 'p', 'p'] {
            Some(Language::Cpp)
        } else if name == seq!['c'] {
            Some(Language::C)
        } else {
            None
        }
    }

    /// The program that compiles sources in this language.
    pub open spec fn compiler(self) -> Seq<char> {
        match self {
            Language::Rust => seq!['r', 'u', 's', 't', 'c'],
            Language::Cpp => seq!['g', '+', '+'],
            Language::C => seq!['g', 'c', 'c'],
        }
    }

    /// The file extension of sources in this language: `rs`, `cpp` or `c`.
    pub fn as_str(&self) -> (s: &'static str)
        ensures
            s@ == self.extension(),
    {
        proof {
            reveal_strlit("rs");
            reveal_strlit("cpp");
            reveal_strlit("c");
        }
        match self {
            Language::Rust => "rs",
            Language::Cpp => "cpp",
            Language::C => "c",
        }
    }

    /// Reads a language from its option value: `rust`, `cpp` or `c`;
    /// anything else is refused.
    pub fn from_str(s: &str) -> (r: Result<Language, ()>)
        ensures
            r == (match Language::named(s@) {
                Some(l) => Ok(l),
                None => Err(()),
            }),
    {
        proof {
            reveal_strlit("rust");
            reveal_strlit("cpp");
            reveal_strlit("c");
            assert("rust"@ =~= seq!['r', 'u', 's', 't']);
            assert("cpp"@ =~= seq!['c', 'p', 'p']);
            assert("c"@ =~= seq!['c']);
        }
        if str_equal(s, "rust") {
            Ok(Language::Rust)
        } else if str_equal(s, "cpp") {
            Ok(Language::Cpp)
        } else if str_equal(s, "c") {
            Ok(Language::C)
        } else {
            Err(())
        }
    }

    /// The program that compiles sources in this language: `rustc`, `g++` or `gcc`.
    pub fn compiler_name(&self) -> (s: &'static str)
        ensures
            s@ == self.compiler(),
    {
        proof {
            reveal_strlit("rustc");
            reveal_strlit("g++");
            reveal_strlit("gcc");
        }
        match self {
            Language::Rust => "rustc",
            Language::Cpp => "g++",
            Language::C => "gcc",
        }
    }
}

/// Reading a language with `str::parse`: as [`Language::from_str`].
impl std::str::FromStr for Language {
    type Err = ();

    fn from_str(s: &str) -> Result<Language, ()> {
        Language::from_str(s)
    }
}

/// The extension of the compiled program, `o`.
pub open spec fn program_extension() -> Seq<char> {
    seq!['o']
}

/// `./` followed by `name`.
pub open spec fn in_work_dir(name: Seq<char>) -> Seq<char> {
    seq!['.', '/'] + name
}

/// The path of the source file of a run of `user` in `channel`.
pub open spec fn source_path(lang: Language, channel: u64, user: u64) -> Seq<char> {
    in_work_dir(crate::text::file_name(channel, user, lang.extension()))
}

/// The path of the compiled program of a run of `user` in `channel`.
pub open spec fn program_path(channel: u64, user: u64) -> Seq<char> {
    in_work_dir(crate::text::file_name(channel, user, program_extension()))
}

/// What an [`Executor`] holds: the code, its language, and who asked where.
pub struct ExecutorView {
    pub code: Seq<char>,
    pub lang: Language,
    pub channel: u64,
    pub user: u64,
}

struct Id {
    channel: u64,
    user: u64,
}

/// One request to compile and run `code` for `user` in `channel`.
pub struct Executor {
    code: String,
    lang: Language,
    id: Id,
}

impl View for Executor {
    type V = ExecutorView;

    closed spec fn view(&self) -> ExecutorView {
        ExecutorView { code: self.code@, lang: self.lang, channel: self.id.channel, user: self.id.user }
    }
}

/// The text that `bytes` encode, when they are valid UTF-8.
pub open spec fn utf8_text(bytes: Seq<u8>) -> Option<Seq<char>> {
    if vstd::utf8::valid_utf8(bytes) {
        Some(vstd::utf8::decode_utf8(bytes))
    } else {
        None
    }
}

/// `String::from_utf8(bytes).ok()`: std documents that it returns the text
/// that `bytes` encode exactly when they are valid UTF-8, and an error
/// otherwise.
#[verifier::external_body]
fn text_from_utf8(bytes: Vec<u8>) -> (r: Option<String>)
    ensures
        r is Some <==> vstd::utf8::valid_utf8(bytes@),
        r matches Some(s) ==> s@ == vstd::utf8::decode_utf8(bytes@),
{
    String::from_utf8(bytes).ok()
}

fn decode_output(bytes: Vec<u8>) -> (r: Option<String>)
    ensures
        r is Some <==> utf8_text(bytes@) is Some,
        r matches Some(s) ==> utf8_text(bytes@) == Some(s@),
{
    text_from_utf8(bytes)
}

impl Executor {
    /// A request to compile and run `code`, written in `lang`, for `user` in `channel`.
    pub fn new(lang: Language, code: String, channel: u64, user: u64) -> (e: Executor)
        ensures
            e@ == (ExecutorView { code: code@, lang, channel, user }),
    {
        Executor { code, lang, id: Id { channel, user } }
    }

    /// `./<channel>-<user>.<format>`, the path of a file of this run.
    pub fn form_file_name(channel: u64, user: u64, format: &str) -> (s: String)
        ensures
            s@ == in_work_dir(crate::text::file_name(channel, user, format@)),
    {
        proof {
            reveal_strlit("./");
        }
        let name = file_name_of(channel, user, format);
        let mut s = "./".to_owned();
        s.append(name.as_str());
        s
    }

    /// The path the source is written to.
    pub fn code_path(&self) -> (s: String)
        ensures
            s@ == source_path(self@.lang, self@.channel, self@.user),
    {
        Self::form_file_name(self.id.channel, self.id.user, self.lang.as_str())
    }

    /// The path the program is compiled to.
    pub fn exec_path(&self) -> (s: String)
        ensures
            s@ == program_path(self@.channel, self@.user),
    {
        proof {
            reveal_strlit("o");
        }
        Self::form_file_name(self.id.channel, self.id.user, "o")
    }

    /// The code of this request.
    pub fn code(&self) -> (s: &String)
        ensures
            s@ == self@.code,
    {
        &self.code
    }

    /// The language of this request.
    pub fn lang(&self) -> (l: Language)
        ensures
            l == self@.lang,
    {
        self.lang
    }

    /// Starts the run, giving the compiled program `time_limit_secs` seconds
    /// to finish: the session begins by opening the source file.
    pub fn compile_and_run(self, time_limit_secs: u64) -> (r: (RunSession, Action))
        ensures
            r.0@ == (SessionView { executor: self@, time_limit_secs, stage: StageView::Opening }),
            r.0.wf(),
            r.1@ == ActionView::OpenSource(source_path(self@.lang, self@.channel, self@.user)),
    {
        let path = self.code_path();
        (
            RunSession { executor: self, time_limit_secs, stage: Stage::Opening },
            Action::OpenSource { path },
        )
    }
}

/// What a run produces: the compiler's diagnostics and the program's output,
/// or the compiler's diagnostics when they were produced, and the error.
pub type RunResult = Result<(String, String), (Option<String>, Error)>;

/// A [`RunResult`] with its texts as character sequences.
pub type OutcomeView = Result<(Seq<char>, Seq<char>), (Option<Seq<char>>, Error)>;

/// The texts of a [`RunResult`].
pub open spec fn outcome_view(r: RunResult) -> OutcomeView {
    match r {
        Ok((c, e)) => Ok((c@, e@)),
        Err((Some(c), err)) => Err((Some(c@), err)),
        Err((None, err)) => Err((None, err)),
    }
}

/// An outcome comes with the compiler's diagnostics exactly when its error
/// arose after the compiler ran: the program could not start, could not be
/// waited for, or ran out of time.
pub open spec fn diagnostics_accompany(o: OutcomeView) -> bool {
    match o {
        Ok(_) => true,
        Err((c, err)) => (c is Some) <==> (err == Error::BuildError || err == Error::ExecError
            || err == Error::TimeOut),
    }
}

/// Where a run stands.
pub enum Stage {
    Opening,
    Writing,
    Compiling,
    Running { compile_output: String },
    CleaningUp { outcome: RunResult },
    Finished,
}

/// A [`Stage`] with its texts as character sequences.
pub enum StageView {
    Opening,
    Writing,
    Compiling,
    Running(Seq<char>),
    CleaningUp(OutcomeView),
    Finished,
}

impl View for Stage {
    type V = StageView;

    open spec fn view(&self) -> StageView {
        match self {
            Stage::Opening => StageView::Opening,
            Stage::Writing => StageView::Writing,
            Stage::Compiling => StageView::Compiling,
            Stage::Running { compile_output } => StageView::Running(compile_output@),
            Stage::CleaningUp { outcome } => StageView::CleaningUp(outcome_view(*outcome)),
            Stage::Finished => StageView::Finished,
        }
    }
}

/// What happened to the last [`Action`] of a session.
pub enum Event {
    SourceOpened,
    SourceOpenFailed,
    SourceWritten,
    SourceWriteFailed,
    CompilerNotStarted,
    CompilerWaitFailed,
    /// The compiler finished with these bytes on its standard error.
    CompilerExited { stderr: Vec<u8> },
    ProgramNotStarted,
    ProgramWaitFailed,
    ProgramTimedOut,
    /// The program finished with these bytes on its standard output.
    ProgramExited { stdout: Vec<u8> },
    FilesRemoved,
}

/// An [`Event`] with its bytes as sequences.
pub enum EventView {
    SourceOpened,
    SourceOpenFailed,
    SourceWritten,
    SourceWriteFailed,
    CompilerNotStarted,
    CompilerWaitFailed,
    CompilerExited(Seq<u8>),
    ProgramNotStarted,
    ProgramWaitFailed,
    ProgramTimedOut,
    ProgramExited(Seq<u8>),
    FilesRemoved,
}

impl View for Event {
    type V = EventView;

    open spec fn view(&self) -> EventView {
        match self {
            Event::SourceOpened => EventView::SourceOpened,
            Event::SourceOpenFailed => EventView::SourceOpenFailed,
            Event::SourceWritten => EventView::SourceWritten,
            Event::SourceWriteFailed => EventView::SourceWriteFailed,
            Event::CompilerNotStarted => EventView::CompilerNotStarted,
            Event::CompilerWaitFailed => EventView::CompilerWaitFailed,
            Event::CompilerExited { stderr } => EventView::CompilerExited(stderr@),
            Event::ProgramNotStarted => EventView::ProgramNotStarted,
            Event::ProgramWaitFailed => EventView::ProgramWaitFailed,
            Event::ProgramTimedOut => EventView::ProgramTimedOut,
            Event::ProgramExited { stdout } => EventView::ProgramExited(stdout@),
            Event::FilesRemoved => EventView::FilesRemoved,
        }
    }
}

/// Why a run cannot go on at all.
#[derive(Copy, Clone, Debug, PartialEq, Eq, Structural)]
pub enum AbortCause {
    /// Waiting for the compiler failed.
    CompilerLost,
    /// The program's output was not UTF-8.
    OutputNotText,
}

/// The next thing to do for a run.
pub enum Action {
    /// Open (creating it if needed) the source file at `path` for reading and writing.
    OpenSource { path: String },
    /// Write `contents` to the opened source file.
    WriteSource { contents: String },
    /// Run `program input -o output`, capturing its standard error.
    InvokeCompiler { program: String, input: String, output: String },
    /// Run the program at `path` in its sandbox, capturing its standard
    /// output, and give up on it after `time_limit_secs` seconds.
    RunProgram { path: String, time_limit_secs: u64 },
    /// Remove the files at `source` and `program`.
    RemoveFiles { source: String, program: String },
    /// The run is over with this result.
    Complete(RunResult),
    /// The run cannot go on.
    Abort(AbortCause),
    /// The event did not belong to the current stage; nothing changed.
    Idle,
}

/// An [`Action`] with its texts as character sequences.
pub enum ActionView {
    OpenSource(Seq<char>),
    WriteSource(Seq<char>),
    InvokeCompiler(Seq<char>, Seq<char>, Seq<char>),
    RunProgram(Seq<char>, u64),
    RemoveFiles(Seq<char>, Seq<char>),
    Complete(OutcomeView),
    Abort(AbortCause),
    Idle,
}

impl View for Action {
    type V = ActionView;

    open spec fn view(&self) -> ActionView {
        match self {
            Action::OpenSource { path } => ActionView::OpenSource(path@),
            Action::WriteSource { contents } => ActionView::WriteSource(contents@),
            Action::InvokeCompiler { program, input, output } => ActionView::InvokeCompiler(
                program@,
                input@,
                output@,
            ),
            Action::RunProgram { path, time_limit_secs } => ActionView::RunProgram(
                path@,
                *time_limit_secs,
            ),
            Action::RemoveFiles { source, program } => ActionView::RemoveFiles(source@, program@),
            Action::Complete(r) => ActionView::Complete(outcome_view(*r)),
            Action::Abort(c) => ActionView::Abort(*c),
            Action::Idle => ActionView::Idle,
        }
    }
}

/// A session: the request and where its run stands.
pub struct SessionView {
    pub executor: ExecutorView,
    pub time_limit_secs: u64,
    pub stage: StageView,
}

/// The step a session takes on an event: after it, the session leaves
/// behind its source and program files only where a failure to write the
/// source ends it at once, and it reports its outcome only once both files
/// were removed.
pub open spec fn step(s: SessionView, e: EventView) -> (SessionView, ActionView) {
    let x = s.executor;
    let source = source_path(x.lang, x.channel, x.user);
    let program = program_path(x.channel, x.user);
    let cleanup = |o: OutcomeView|
        (
            SessionView { stage: StageView::CleaningUp(o), ..s },
            ActionView::RemoveFiles(source, program),
        );
    match (s.stage, e) {
        (StageView::Opening, EventView::SourceOpened) => (
            SessionView { stage: StageView::Writing, ..s },
            ActionView::WriteSource(x.code),
        ),
        (StageView::Opening, EventView::SourceOpenFailed) => cleanup(Err((None, Error::FsError))),
        (StageView::Writing, EventView::SourceWritten) => (
            SessionView { stage: StageView::Compiling, ..s },
            ActionView::InvokeCompiler(x.lang.compiler(), source, program),
        ),
        (StageView::Writing, EventView::SourceWriteFailed) => (
            SessionView { stage: StageView::Finished, ..s },
            ActionView::Complete(Err((None, Error::FsError))),
        ),
        (StageView::Compiling, EventView::CompilerNotStarted) => cleanup(
            Err((None, Error::Unsupported)),
        ),
        (StageView::Compiling, EventView::CompilerWaitFailed) => (
            SessionView { stage: StageView::Finished, ..s },
            ActionView::Abort(AbortCause::CompilerLost),
        ),
        (StageView::Compiling, EventView::CompilerExited(stderr)) => match utf8_text(stderr) {
            Some(c) => (
                SessionView { stage: StageView::Running(c), ..s },
                ActionView::RunProgram(program, s.time_limit_secs),
            ),
            None => cleanup(Err((None, Error::InvokeError))),
        },
        (StageView::Running(c), EventView::ProgramNotStarted) => cleanup(
            Err((Some(c), Error::BuildError)),
        ),
        (StageView::Running(c), EventView::ProgramWaitFailed) => cleanup(
            Err((Some(c), Error::ExecError)),
        ),
        (StageView::Running(c), EventView::ProgramTimedOut) => cleanup(
            Err((Some(c), Error::TimeOut)),
        ),
        (StageView::Running(c), EventView::ProgramExited(stdout)) => match utf8_text(stdout) {
            Some(out) => cleanup(Ok((c, out))),
            None => (
                SessionView { stage: StageView::Finished, ..s },
                ActionView::Abort(AbortCause::OutputNotText),
            ),
        },
        (StageView::CleaningUp(o), EventView::FilesRemoved) => (
            SessionView { stage: StageView::Finished, ..s },
            ActionView::Complete(o),
        ),
        _ => (s, ActionView::Idle),
    }
}

/// A session is well formed when the outcome it holds has the compiler's
/// diagnostics exactly where [`diagnostics_accompany`] says.
pub open spec fn session_wf(s: SessionView) -> bool {
    s.stage matches StageView::CleaningUp(o) ==> diagnostics_accompany(o)
}

/// A run of an [`Executor`], driven by the events its caller reports.
pub struct RunSession {
    executor: Executor,
    time_limit_secs: u64,
    stage: Stage,
}

/// The session's request and stage.
impl View for RunSession {
    type V = SessionView;

    closed spec fn view(&self) -> SessionView {
        SessionView {
            executor: self.executor@,
            time_limit_secs: self.time_limit_secs,
            stage: self.stage@,
        }
    }
}

impl RunSession {
    /// The session holds an outcome only with the diagnostics that belong to it.
    pub open spec fn wf(&self) -> bool {
        session_wf(self@)
    }

    /// Where the run stands.
    pub fn stage(&self) -> (s: &Stage)
        ensures
            s@ == self@.stage,
    {
        &self.stage
    }

    fn clean_up(&mut self, outcome: RunResult) -> (a: Action)
        ensures
            final(self)@ == (SessionView {
                stage: StageView::CleaningUp(outcome_view(outcome)),
                ..old(self)@
            }),
            a@ == ActionView::RemoveFiles(
                source_path(old(self)@.executor.lang, old(self)@.executor.channel, old(self)@.executor.user),
                program_path(old(self)@.executor.channel, old(self)@.executor.user),
            ),
    {
        let source = self.executor.code_path();
        let program = self.executor.exec_path();
        self.stage = Stage::CleaningUp { outcome };
        Action::RemoveFiles { source, program }
    }

    /// Takes the session one step on `event` and says what to do next.
    pub fn on_event(&mut self, event: Event) -> (a: Action)
        requires
            old(self).wf(),
        ensures
            final(self)@ == step(old(self)@, event@).0,
            a@ == step(old(self)@, event@).1,
            final(self).wf(),
            a@ matches ActionView::Complete(o) ==> diagnostics_accompany(o),
    {
        let mut stage = Stage::Finished;
        std::mem::swap(&mut stage, &mut self.stage);
        match (stage, event) {
            (Stage::Opening, Event::SourceOpened) => {
                self.stage = Stage::Writing;
                Action::WriteSource { contents: self.executor.code.clone() }
            },
            (Stage::Opening, Event::SourceOpenFailed) => self.clean_up(Err((None, Error::FsError))),
            (Stage::Writing, Event::SourceWritten) => {
                let program = self.executor.lang.compiler_name().to_owned();
                let input = self.executor.code_path();
                let output = self.executor.exec_path();
                self.stage = Stage::Compiling;
                Action::InvokeCompiler { program, input, output }
            },
            (Stage::Writing, Event::SourceWriteFailed) => {
                Action::Complete(Err((None, Error::FsError)))
            },
            (Stage::Compiling, Event::CompilerNotStarted) => self.clean_up(
                Err((None, Error::Unsupported)),
            ),
            (Stage::Compiling, Event::CompilerWaitFailed) => Action::Abort(AbortCause::CompilerLost),
            (Stage::Compiling, Event::CompilerExited { stderr }) => match decode_output(stderr) {
                Some(compile_output) => {
                    let path = self.executor.exec_path();
                    self.stage = Stage::Running { compile_output };
                    Action::RunProgram { path, time_limit_secs: self.time_limit_secs }
                },
                None => self.clean_up(Err((None, Error::InvokeError))),
            },
            (Stage::Running { compile_output }, Event::ProgramNotStarted) => self.clean_up(
                Err((Some(compile_output), Error::BuildError)),
            ),
            (Stage::Running { compile_output }, Event::ProgramWaitFailed) => self.clean_up(
                Err((Some(compile_output), Error::ExecError)),
            ),
            (Stage::Running { compile_output }, Event::ProgramTimedOut) => self.clean_up(
                Err((Some(compile_output), Error::TimeOut)),
            ),
            (Stage::Running { compile_output }, Event::ProgramExited { stdout }) => match decode_output(
                stdout,
            ) {
                Some(out) => self.clean_up(Ok((compile_output, out))),
                None => Action::Abort(AbortCause::OutputNotText),
            },
            (Stage::CleaningUp { outcome }, Event::FilesRemoved) => Action::Complete(outcome),
            (stage, _) => {
                self.stage = stage;
                Action::Idle
            },
        }
    }
}

/// A run never compiles over its own source: the program path differs from
/// the source path for every language.
pub proof fn lemma_source_is_not_program(lang: Language, channel: u64, user: u64)
    ensures
        source_path(lang, channel, user) != program_path(channel, user),
{
    if source_path(lang, channel, user) == program_path(channel, user) {
        let p1 = crate::text::file_name(channel, user, lang.extension());
        let p2 = crate::text::file_name(channel, user, program_extension());
        assert(p1 =~= source_path(lang, channel, user).skip(2));
        assert(p2 =~= program_path(channel, user).skip(2));
        crate::text::lemma_file_name_injective(channel, user, lang.extension(), channel, user, program_extension());
        assert(lang.extension()[0] != 'o');
    }
}

/// Runs for different users, or in different channels, never touch each
/// other's files.
pub proof fn lemma_runs_keep_apart(
    lang1: Language,
    channel1: u64,
    user1: u64,
    lang2: Language,
    channel2: u64,
    user2: u64,
)
    requires
        channel1 != channel2 || user1 != user2,
    ensures
        source_path(lang1, channel1, user1) != source_path(lang2, channel2, user2),
        program_path(channel1, user1) != program_path(channel2, user2),
        source_path(lang1, channel1, user1) != program_path(channel2, user2),
{
    let e1 = lang1.extension();
    let e2 = lang2.extension();
    let o = program_extension();
    if source_path(lang1, channel1, user1) == source_path(lang2, channel2, user2) {
        assert(crate::text::file_name(channel1, user1, e1) =~= source_path(lang1, channel1, user1).skip(2));
        assert(crate::text::file_name(channel2, user2, e2) =~= source_path(lang2, channel2, user2).skip(2));
        crate::text::lemma_file_name_injective(channel1, user1, e1, channel2, user2, e2);
    }
    if program_path(channel1, user1) == program_path(channel2, user2) {
        assert(crate::text::file_name(channel1, user1, o) =~= program_path(channel1, user1).skip(2));
        assert(crate::text::file_name(channel2, user2, o) =~= program_path(channel2, user2).skip(2));
        crate::text::lemma_file_name_injective(channel1, user1, o, channel2, user2, o);
    }
    if source_path(lang1, channel1, user1) == program_path(channel2, user2) {
        assert(crate::text::file_name(channel1, user1, e1) =~= source_path(lang1, channel1, user1).skip(2));
        assert(crate::text::file_name(channel2, user2, o) =~= program_path(channel2, user2).skip(2));
        crate::text::lemma_file_name_injective(channel1, user1, e1, channel2, user2, o);
    }
}

/// A finished run stays finished: every later event leaves it as it is.
pub proof fn lemma_finished_is_final(s: SessionView, e: EventView)
    requires
        s.stage is Finished,
    ensures
        step(s, e) == (s, ActionView::Idle),
{
}

/// Every step keeps a session well formed, and a run that completes reports
/// the compiler's diagnostics exactly with the errors that arise after the
/// compiler ran.
pub proof fn lemma_step_keeps_diagnostics(s: SessionView, e: EventView)
    requires
        session_wf(s),
    ensures
        session_wf(step(s, e).0),
        step(s, e).1 matches ActionView::Complete(o) ==> diagnostics_accompany(o),
{
}

/// A run reports its outcome only once its files were removed, except when
/// writing the source failed, which ends the run at once.
pub proof fn lemma_complete_only_after_cleanup(s: SessionView, e: EventView)
    ensures
        step(s, e).1 is Complete ==> (s.stage is CleaningUp && e is FilesRemoved) || (
        s.stage is Writing && e is SourceWriteFailed),
{
}

/// The paths of a run: `./<channel>-<user>.<ext>` for the source, with `rs`,
/// `cpp` or `c` by language, and `./<channel>-<user>.o` for the program.
pub proof fn lemma_paths(lang: Language, channel: u64, user: u64)
    ensures
        source_path(lang, channel, user) == seq!['.', '/'] + crate::text::dec(channel as nat)
            + seq!['-'] + crate::text::dec(user as nat) + seq!['.'] + lang.extension(),
        program_path(channel, user) == seq!['.', '/'] + crate::text::dec(channel as nat) + seq![
            '-',
        ] + crate::text::dec(user as nat) + seq!['.', 'o'],
        lang == Language::Rust ==> lang.extension() == seq!['r', 's'] && lang.compiler() == seq![
            'r',
            'u',
            's',
            't',
            'c',
        ],
        lang == Language::Cpp ==> lang.extension() == seq!['c', 'p', 'p'] && lang.compiler()
            == seq!['g', '+', '+'],
        lang == Language::C ==> lang.extension() == seq!['c'] && lang.compiler() == seq![
            'g',
            'c',
            'c',
        ],
{
    let d = crate::text::dec(channel as nat) + seq!['-'] + crate::text::dec(user as nat) + seq!['.'];
    assert(source_path(lang, channel, user) =~= seq!['.', '/'] + d + lang.extension());
    assert(program_path(channel, user) =~= seq!['.', '/'] + d + seq!['o']);
    assert(seq!['.', '/'] + d + seq!['o'] =~= seq!['.', '/'] + crate::text::dec(channel as nat)
        + seq!['-'] + crate::text::dec(user as nat) + seq!['.', 'o']);
}

/// What a run does on each event, for every session: it opens the source,
/// writes the code, calls the language's compiler from the source to the
/// program, runs the program with the session's time limit once the
/// compiler's output is valid UTF-8, and completes, after removing both
/// files, with the compiler's output and the program's decoded output, or
/// with the error that stopped it. Events that do not belong to the stage
/// change nothing.
pub proof fn lemma_run_steps(s: SessionView, e: EventView)
    ensures
        ({
            let x = s.executor;
            let source = source_path(x.lang, x.channel, x.user);
            let program = program_path(x.channel, x.user);
            let finished = SessionView { stage: StageView::Finished, ..s };
            &&& s.stage is Opening && e is SourceOpened ==> step(s, e) == (
                SessionView { stage: StageView::Writing, ..s },
                ActionView::WriteSource(x.code),
            )
            &&& s.stage is Opening && e is SourceOpenFailed ==> step(s, e) == (
                SessionView { stage: StageView::CleaningUp(Err((None, Error::FsError))), ..s },
                ActionView::RemoveFiles(source, program),
            )
            &&& s.stage is Opening && !(e is SourceOpened || e is SourceOpenFailed) ==> step(s, e)
                == (s, ActionView::Idle)
            &&& s.stage is Writing && e is SourceWritten ==> step(s, e) == (
                SessionView { stage: StageView::Compiling, ..s },
                ActionView::InvokeCompiler(x.lang.compiler(), source, program),
            )
            &&& s.stage is Writing && e is SourceWriteFailed ==> step(s, e) == (
                finished,
                ActionView::Complete(Err((None, Error::FsError))),
            )
            &&& s.stage is Writing && !(e is SourceWritten || e is SourceWriteFailed) ==> step(s, e)
                == (s, ActionView::Idle)
            &&& s.stage is Compiling && e is CompilerNotStarted ==> step(s, e) == (
                SessionView { stage: StageView::CleaningUp(Err((None, Error::Unsupported))), ..s },
                ActionView::RemoveFiles(source, program),
            )
            &&& s.stage is Compiling && e is CompilerWaitFailed ==> step(s, e) == (
                finished,
                ActionView::Abort(AbortCause::CompilerLost),
            )
            &&& s.stage is Compiling && e is CompilerExited && vstd::utf8::valid_utf8(e->CompilerExited_0)
                ==> step(s, e) == (
                SessionView { stage: StageView::Running(vstd::utf8::decode_utf8(e->CompilerExited_0)), ..s },
                ActionView::RunProgram(program, s.time_limit_secs),
            )
            &&& s.stage is Compiling && e is CompilerExited && !vstd::utf8::valid_utf8(e->CompilerExited_0)
                ==> step(s, e) == (
                SessionView { stage: StageView::CleaningUp(Err((None, Error::InvokeError))), ..s },
                ActionView::RemoveFiles(source, program),
            )
            &&& s.stage is Compiling && !(e is CompilerNotStarted || e is CompilerWaitFailed
                || e is CompilerExited) ==> step(s, e) == (s, ActionView::Idle)
            &&& s.stage is Running ==> ({
                &&& e is ProgramNotStarted ==> step(s, e) == (
                    SessionView {
                        stage: StageView::CleaningUp(Err((Some(s.stage->Running_0), Error::BuildError))),
                        ..s
                    },
                    ActionView::RemoveFiles(source, program),
                )
                &&& e is ProgramWaitFailed ==> step(s, e) == (
                    SessionView {
                        stage: StageView::CleaningUp(Err((Some(s.stage->Running_0), Error::ExecError))),
                        ..s
                    },
                    ActionView::RemoveFiles(source, program),
                )
                &&& e is ProgramTimedOut ==> step(s, e) == (
                    SessionView { stage: StageView::CleaningUp(Err((Some(s.stage->Running_0), Error::TimeOut))), ..s },
                    ActionView::RemoveFiles(source, program),
                )
                &&& e is ProgramExited && vstd::utf8::valid_utf8(e->ProgramExited_0) ==> step(s, e)
                    == (
                    SessionView {
                        stage: StageView::CleaningUp(Ok((s.stage->Running_0, vstd::utf8::decode_utf8(e->ProgramExited_0)))),
                        ..s
                    },
                    ActionView::RemoveFiles(source, program),
                )
            })
            &&& s.stage is Running && e is ProgramExited && !vstd::utf8::valid_utf8(e->ProgramExited_0)
                ==> step(s, e) == (finished, ActionView::Abort(AbortCause::OutputNotText))
            &&& s.stage is Running && !(e is ProgramNotStarted || e is ProgramWaitFailed
                || e is ProgramTimedOut || e is ProgramExited) ==> step(s, e) == (s, ActionView::Idle)
            &&& s.stage is CleaningUp ==> (e is FilesRemoved ==> step(s, e) == (
                finished,
                ActionView::Complete(s.stage->CleaningUp_0),
            ))
            &&& s.stage is CleaningUp && !(e is FilesRemoved) ==> step(s, e) == (s, ActionView::Idle)
            &&& s.stage is Finished ==> step(s, e) == (s, ActionView::Idle)
        }),
        step(s, e).1 matches ActionView::Abort(AbortCause::OutputNotText) ==> (s.stage is Running
            && e is ProgramExited && !vstd::utf8::valid_utf8(e->ProgramExited_0)),
        step(s, e).1 matches ActionView::Abort(AbortCause::CompilerLost) ==> (s.stage is Compiling
            && e is CompilerWaitFailed),
{
}

/// The views keep every text and byte sequence where it stands: an outcome
/// shows the compiler's output first and the program's output second, and
/// events and actions carry their bytes, paths and limits unchanged.
pub proof fn lemma_views_keep_contents(r: RunResult, e: Event, a: Action)
    ensures
        r matches Ok((c, o)) ==> outcome_view(r) == Ok::<(Seq<char>, Seq<char>), (Option<Seq<char>>, Error)>((c@, o@)),
        r matches Err((Some(c), err)) ==> outcome_view(r) == Err::<(Seq<char>, Seq<char>), (Option<Seq<char>>, Error)>((Some(c@), err)),
        r matches Err((None, err)) ==> outcome_view(r) == Err::<(Seq<char>, Seq<char>), (Option<Seq<char>>, Error)>((None, err)),
        e matches Event::CompilerExited { stderr } ==> e@ == EventView::CompilerExited(stderr@),
        e matches Event::ProgramExited { stdout } ==> e@ == EventView::ProgramExited(stdout@),
        a matches Action::RunProgram { path, time_limit_secs } ==> a@ == ActionView::RunProgram(path@, time_limit_secs),
        a matches Action::RemoveFiles { source, program } ==> a@ == ActionView::RemoveFiles(source@, program@),
        a matches Action::InvokeCompiler { program, input, output } ==> a@ == ActionView::InvokeCompiler(program@, input@, output@),
        a matches Action::OpenSource { path } ==> a@ == ActionView::OpenSource(path@),
        a matches Action::WriteSource { contents } ==> a@ == ActionView::WriteSource(contents@),
        a matches Action::Complete(o) ==> a@ == ActionView::Complete(outcome_view(o)),
{
}

} // verus!
