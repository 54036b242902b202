//! How a tool is invoked.

use vstd::prelude::*;

use crate::text;

verus! {

/// Definition of a tool: its command line and how it exchanges text.
#[derive(Debug, Clone)]
pub struct ToolDefinition {
    /// Program name, followed by the arguments that every invocation gets.
    pub command: Vec<String>,
    /// Whether the tool reads its input from standard input.
    pub stdin: bool,
    /// Whether the tool writes its result to standard output.
    pub stdout: bool,
    /// Additional arguments for linting.
    pub lint_args: Vec<String>,
    /// Additional arguments for formatting.
    pub format_args: Vec<String>,
}

/// The mathematical contents of a [`ToolDefinition`].
pub struct ToolModel {
    pub command: Seq<Seq<char>>,
    pub stdin: bool,
    pub stdout: bool,
    pub lint_args: Seq<Seq<char>>,
    pub format_args: Seq<Seq<char>>,
}

impl View for ToolDefinition {
    type V = ToolModel;

    open spec fn view(&self) -> ToolModel {
        ToolModel {
            command: text::words_of(self.command@),
            stdin: self.stdin,
            stdout: self.stdout,
            lint_args: text::words_of(self.lint_args@),
            format_args: text::words_of(self.format_args@),
        }
    }
}

impl ToolModel {
    /// The arguments that depend on the mode.
    pub open spec fn mode_args(self, is_format_mode: bool) -> Seq<Seq<char>> {
        if is_format_mode {
            self.format_args
        } else {
            self.lint_args
        }
    }

    /// All arguments that follow the program name.
    pub open spec fn args(self, is_format_mode: bool) -> Seq<Seq<char>> {
        self.command.skip(1) + self.mode_args(is_format_mode)
    }

    /// The program name, or the empty name when there is no command.
    pub open spec fn name(self) -> Seq<char> {
        if self.command.len() == 0 {
            seq![]
        } else {
            self.command[0]
        }
    }
}

/// Appends the words of `from`, starting at index `start`, to `out`.
pub(crate) fn append_words(out: &mut Vec<String>, from: &Vec<String>, start: usize)
    requires
        start <= from.len(),
    ensures
        text::words_of(final(out)@) == text::words_of(old(out)@) + text::words_of(from@).skip(
            start as int,
        ),
{
    let ghost before = text::words_of(old(out)@);
    let ghost source = text::words_of(from@);
    let mut i: usize = start;
    assert(text::words_of(out@) =~= before + source.subrange(start as int, i as int));
    while i < from.len()
        invariant
            start <= i <= from.len(),
            source == text::words_of(from@),
            text::words_of(out@) == before + source.subrange(start as int, i as int),
        decreases from.len() - i,
    {
        let ghost prev = out@;
        out.push(from[i].clone());
        assert(text::words_of(out@) =~= text::words_of(prev).push(source[i as int]));
        assert(source.subrange(start as int, i + 1) =~= source.subrange(
            start as int,
            i as int,
        ).push(source[i as int]));
        assert(text::words_of(out@) =~= before + source.subrange(start as int, i + 1));
        i += 1;
    }
    assert(source.subrange(start as int, from.len() as int) =~= source.skip(start as int));
}

impl ToolDefinition {
    /// The arguments that follow the program name: those of the command itself,
    /// and after them those of the mode.
    pub(crate) fn args(&self, is_format_mode: bool) -> (args: Vec<String>)
        requires
            self.command.len() > 0,
        ensures
            text::words_of(args@) == self@.args(is_format_mode),
    {
        let mut args: Vec<String> = Vec::new();
        append_words(&mut args, &self.command, 1);
        let extra = if is_format_mode {
            &self.format_args
        } else {
            &self.lint_args
        };
        append_words(&mut args, extra, 0);
        assert(text::words_of(args@) =~= self@.args(is_format_mode));
        args
    }

    /// The program name, or the empty name when there is no command.
    pub(crate) fn name(&self) -> (name: String)
        ensures
            name@ == self@.name(),
    {
        if self.command.len() == 0 {
            String::new()
        } else {
            self.command[0].clone()
        }
    }
}

} // verus!
