//! A single compilation of user code, without running it.
//!
//! [`Compiler::new`] decides where the source goes; the caller writes it
//! there. [`Compiler::compile`] decides the compiler call; the caller makes
//! it and hands what came back to [`CompileJob::finish`].

use vstd::prelude::*;
use vstd::string::StringExecFns;
use crate::text::file_name_of;

pub use crate::executor::Language;

verus! {

/// One source file of `lang`, written for `user` in `channel`, to be compiled.
pub struct Compiler {
    code: String,
    path: String,
    lang: Language,
    id: (u64, u64),
}

/// The compiler call of a [`Compiler`]: `program input -o output`.
pub struct CompileJob {
    pub program: String,
    pub input: String,
    pub output: String,
}

impl Compiler {
    /// A compilation of `code` for `user` in `channel`; its source belongs at
    /// `./<channel>-<user>.<ext>`.
    pub fn new(lang: Language, code: String, channel: u64, user: u64) -> (c: Compiler)
        ensures
            c.path()@ == crate::executor::in_work_dir(crate::text::file_name(channel, user, lang.extension())),
            c.code()@ == code@,
            c.lang() == lang,
            c.id() == (channel, user),
    {
        proof {
            reveal_strlit("./");
        }
        let name = Self::form_file_name(channel, user, lang.as_str());
        let mut path = "./".to_owned();
        path.append(name.as_str());
        Compiler { code, path, lang, id: (channel, user) }
    }

    /// `<channel>-<user>.<format>`.
    pub fn form_file_name(channel: u64, user: u64, format: &str) -> (s: String)
        ensures
            s@ == crate::text::file_name(channel, user, format@),
    {
        file_name_of(channel, user, format)
    }

    /// Where the source is to be written.
    #[verifier::when_used_as_spec(spec_path)]
    pub fn path(&self) -> (p: &String)
        ensures
            p == self.spec_path(),
    {
        &self.path
    }

    /// Where the source is to be written.
    pub closed spec fn spec_path(&self) -> &String {
        &self.path
    }

    /// The source to be written.
    #[verifier::when_used_as_spec(spec_code)]
    pub fn code(&self) -> (c: &String)
        ensures
            c == self.spec_code(),
    {
        &self.code
    }

    /// The source to be written.
    pub closed spec fn spec_code(&self) -> &String {
        &self.code
    }

    /// The language of the source.
    #[verifier::when_used_as_spec(spec_lang)]
    pub fn lang(&self) -> (l: Language)
        ensures
            l == self.spec_lang(),
    {
        self.lang
    }

    /// The language of the source.
    pub closed spec fn spec_lang(&self) -> Language {
        self.lang
    }

    /// The channel and the user the compilation is for.
    #[verifier::when_used_as_spec(spec_id)]
    pub fn id(&self) -> (i: (u64, u64))
        ensures
            i == self.spec_id(),
    {
        self.id
    }

    /// The channel and the user the compilation is for.
    pub closed spec fn spec_id(&self) -> (u64, u64) {
        self.id
    }

    /// The compiler call: the language's compiler, from the source to
    /// `./<channel>-<user>.o`.
    pub fn compile(self) -> (j: CompileJob)
        ensures
            j.program@ == self.lang().compiler(),
            j.input@ == self.path()@,
            j.output@ == crate::executor::in_work_dir(crate::text::file_name(self.id().0, self.id().1, crate::executor::program_extension())),
    {
        proof {
            reveal_strlit("./");
            reveal_strlit("o");
        }
        let name = Self::form_file_name(self.id.0, self.id.1, "o");
        let mut output = "./".to_owned();
        output.append(name.as_str());
        CompileJob { program: self.lang.compiler_name().to_owned(), input: self.path, output }
    }
}

impl CompileJob {
    /// The result of the call: the program's path and the compiler's
    /// standard error when the compiler could be run (`stderr` is `Some`),
    /// `Err(())` when it could not.
    pub fn finish(self, stderr: Option<Vec<u8>>) -> (r: Result<(String, Vec<u8>), ()>)
        ensures
            stderr is None ==> r is Err,
            stderr matches Some(e) ==> (r matches Ok((p, e2)) && p@ == self.output@ && e2@ == e@),
    {
        match stderr {
            Some(e) => Ok((self.output, e)),
            None => Err(()),
        }
    }
}

} // verus!
