//! A command that is run before packaging.

use vstd::prelude::*;

verus! {

/// A program and its arguments, to be run to completion by the caller.
#[derive(Clone, Debug, PartialEq, Eq)]
pub struct Task {
    command: String,
    args: Vec<String>,
}

impl Task {
    /// The program's name, as characters.
    pub closed spec fn spec_command(&self) -> Seq<char> {
        self.command@
    }

    /// The arguments, in order.
    pub closed spec fn spec_args(&self) -> Seq<String> {
        self.args@
    }

    /// A task that runs `command` with `args`.
    pub fn new(command: String, args: Vec<String>) -> (r: Task)
        ensures
            r.spec_command() == command@,
            r.spec_args() == args@,
    {
        Task { command, args }
    }

    /// The program to run.
    pub fn command(&self) -> (r: &str)
        ensures
            r@ == self.spec_command(),
    {
        self.command.as_str()
    }

    /// The arguments to hand to the program.
    pub fn args(&self) -> (r: &Vec<String>)
        ensures
            r@ == self.spec_args(),
    {
        &self.args
    }
}

impl Default for Task {
    /// The empty command without arguments.
    fn default() -> (r: Task)
        ensures
            r.spec_command() == Seq::<char>::empty(),
            r.spec_args() == Seq::<String>::empty(),
    {
        Task { command: String::new(), args: Vec::new() }
    }
}

} // verus!
