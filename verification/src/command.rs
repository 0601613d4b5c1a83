use vstd::prelude::*;

use crate::text::{owned, split_words, words};

verus! {

/// The characters of each string, in order.
pub open spec fn texts(v: Seq<String>) -> Seq<Seq<char>> {
    v.map_values(|s: String| s@)
}

/// Text appended to every prompt that an executor sends to its agent.
pub struct AppendPrompt(pub Option<String>);

impl AppendPrompt {
    /// The prompt with the appended text, if any, after it.
    pub open spec fn combined(self, prompt: Seq<char>) -> Seq<char> {
        match self.0 {
            Some(extra) => prompt + extra@,
            None => prompt,
        }
    }

    /// `prompt` followed by the text to append, if there is one.
    pub fn combine_prompt(&self, prompt: &str) -> (r: String)
        ensures
            r@ == self.combined(prompt@),
    {
        let mut r = owned(prompt);
        if let Some(extra) = &self.0 {
            r.append(extra.as_str());
        }
        r
    }
}

/// What a profile changes in an executor's command.
pub struct CmdOverrides {
    /// Replaces the base command.
    pub base_command_override: Option<String>,
    /// Parameters appended after the executor's own.
    pub additional_params: Option<Vec<String>>,
    /// Environment variables for the process, as name and value.
    pub env: Option<Vec<(String, String)>>,
}

/// A command line under construction: a base command and parameters after it.
pub struct CommandBuilder {
    /// The base command, one or more words separated by white space.
    pub base: String,
    /// The parameters, each one argument.
    pub params: Option<Vec<String>>,
}

/// A command ready to run: the program and its arguments.
pub struct CommandParts {
    pub program: String,
    pub args: Vec<String>,
}

/// Why a command could not be built.
#[derive(PartialEq, Eq, Structural, Debug)]
pub enum CommandBuildError {
    /// The command has no word at all.
    EmptyCommand,
}

/// The parameters of a builder, none when it has none.
pub open spec fn params_of(params: Option<Vec<String>>) -> Seq<Seq<char>> {
    match params {
        Some(p) => texts(p@),
        None => Seq::empty(),
    }
}

/// The words of a command line: the base command's words, then the parameters, then the
/// extra arguments.
pub open spec fn command_line(base: Seq<char>, params: Seq<Seq<char>>, extra: Seq<Seq<char>>) -> Seq<Seq<char>> {
    words(base) + params + extra
}

/// Clones of `src`, appended to `dst`.
fn append_clones(dst: &mut Vec<String>, src: &Vec<String>)
    ensures
        texts(final(dst)@) == texts(old(dst)@) + texts(src@),
{
    let ghost start = texts(dst@);
    let mut i: usize = 0;
    while i < src.len()
        invariant
            0 <= i <= src.len(),
            texts(dst@) == start + texts(src@.take(i as int)),
        decreases src.len() - i,
    {
        let ghost before = dst@;
        dst.push(src[i].clone());
        assert(texts(dst@) == texts(before).push(src@[i as int]@));
        assert(src@.take(i + 1) == src@.take(i as int).push(src@[i as int]));
        assert(texts(src@.take(i + 1)) == texts(src@.take(i as int)).push(src@[i as int]@));
        i = i + 1;
    }
    assert(src@.take(src@.len() as int) == src@);
}

impl CommandBuilder {
    /// The parameters, none when there are none.
    pub open spec fn param_texts(self) -> Seq<Seq<char>> {
        params_of(self.params)
    }

    /// What building with `extra` arguments gives: the first word as the program, the rest
    /// as its arguments, or `EmptyCommand` when there is no word.
    pub open spec fn spec_build(self, extra: Seq<Seq<char>>) -> Result<(Seq<char>, Seq<Seq<char>>), CommandBuildError> {
        let line = command_line(self.base@, self.param_texts(), extra);
        if line.len() == 0 {
            Err(CommandBuildError::EmptyCommand)
        } else {
            Ok((line[0], line.drop_first()))
        }
    }

    /// A builder for `base` without parameters.
    pub fn new(base: String) -> (b: Self)
        ensures
            b.base == base,
            b.params is None,
    {
        CommandBuilder { base, params: None }
    }

    /// The builder with its parameters replaced by `params`.
    pub fn params(self, params: Vec<String>) -> (b: Self)
        ensures
            b.base == self.base,
            b.param_texts() == texts(params@),
    {
        CommandBuilder { base: self.base, params: Some(params) }
    }

    /// The builder with `more` appended to its parameters.
    pub fn extend_params(self, more: Vec<String>) -> (b: Self)
        ensures
            b.base == self.base,
            b.params is Some,
            b.param_texts() == self.param_texts() + texts(more@),
    {
        let mut params = match self.params {
            Some(p) => p,
            None => Vec::new(),
        };
        append_clones(&mut params, &more);
        CommandBuilder { base: self.base, params: Some(params) }
    }

    /// The builder with its base command replaced by `base`.
    pub fn override_base(self, base: String) -> (b: Self)
        ensures
            b.base == base,
            b.params == self.params,
    {
        CommandBuilder { base, params: self.params }
    }

    /// The command with `extra` arguments after the parameters.
    fn build(&self, extra: &Vec<String>) -> (r: Result<CommandParts, CommandBuildError>)
        ensures
            match (r, self.spec_build(texts(extra@))) {
                (Ok(parts), Ok((program, args))) => parts.program@ == program && texts(
                    parts.args@,
                ) == args,
                (Err(e), Err(f)) => e == f,
                _ => false,
            },
    {
        let mut line = split_words(self.base.as_str());
        assert(texts(line@) == words(self.base@));
        if let Some(p) = &self.params {
            append_clones(&mut line, p);
        }
        append_clones(&mut line, extra);
        assert(texts(line@) == command_line(self.base@, self.param_texts(), texts(extra@)));
        if line.len() == 0 {
            return Err(CommandBuildError::EmptyCommand);
        }
        let ghost all = line@;
        let program = line.remove(0);
        assert(line@ == all.drop_first());
        assert(texts(all)[0] == program@);
        assert(texts(line@) == texts(all).drop_first());
        Ok(CommandParts { program, args: line })
    }

    /// The command for a first run.
    pub fn build_initial(&self) -> (r: Result<CommandParts, CommandBuildError>)
        ensures
            match (r, self.spec_build(Seq::empty())) {
                (Ok(parts), Ok((program, args))) => parts.program@ == program && texts(
                    parts.args@,
                ) == args,
                (Err(e), Err(f)) => e == f,
                _ => false,
            },
    {
        let none: Vec<String> = Vec::new();
        assert(texts(none@) == Seq::<Seq<char>>::empty());
        self.build(&none)
    }

    /// The command for a follow-up run, with `additional_args` after the parameters.
    pub fn build_follow_up(&self, additional_args: &Vec<String>) -> (r: Result<CommandParts, CommandBuildError>)
        ensures
            match (r, self.spec_build(texts(additional_args@))) {
                (Ok(parts), Ok((program, args))) => parts.program@ == program && texts(
                    parts.args@,
                ) == args,
                (Err(e), Err(f)) => e == f,
                _ => false,
            },
    {
        self.build(additional_args)
    }
}

/// The base command after the overrides: the override where there is one.
pub open spec fn overridden_base(base: Seq<char>, overrides: CmdOverrides) -> Seq<char> {
    match overrides.base_command_override {
        Some(b) => b@,
        None => base,
    }
}

/// The parameters after the overrides: the builder's, then the additional ones.
pub open spec fn overridden_params(params: Seq<Seq<char>>, overrides: CmdOverrides) -> Seq<Seq<char>> {
    params + params_of(overrides.additional_params)
}

/// `builder` with the profile's overrides applied: its base replaced by the override, if
/// any, and the additional parameters, if any, appended to its parameters.
pub fn apply_overrides(builder: CommandBuilder, overrides: &CmdOverrides) -> (r: Result<
    CommandBuilder,
    CommandBuildError,
>)
    ensures
        r matches Ok(b) && b.base@ == overridden_base(builder.base@, *overrides)
            && b.param_texts() == overridden_params(builder.param_texts(), *overrides),
{
    let builder = match &overrides.base_command_override {
        Some(base) => builder.override_base(base.clone()),
        None => builder,
    };
    match &overrides.additional_params {
        Some(extra) => Ok(builder.extend_params(extra.clone())),
        None => {
            assert(builder.param_texts() + Seq::<Seq<char>>::empty() == builder.param_texts());
            Ok(builder)
        },
    }
}

} // verus!
