//! Command lines of the programs that the bridge starts.

use vstd::prelude::*;

verus! {

/// A program to start, by name, with the arguments that follow the name.
#[derive(Clone, Debug, PartialEq, Eq)]
pub struct CommandLine {
    pub program: String,
    pub arguments: Vec<String>,
}

/// The mathematical content of a [`CommandLine`].
pub struct CommandLineView {
    pub program: Seq<char>,
    pub arguments: Seq<Seq<char>>,
}

impl View for CommandLine {
    type V = CommandLineView;

    open spec fn view(&self) -> CommandLineView {
        CommandLineView { program: self.program@, arguments: self.arguments.deep_view() }
    }
}

} // verus!
