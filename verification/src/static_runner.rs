//! Runnables that a user wrote down as a command with its arguments.
use crate::output::{clone_lines, texts};
use vstd::prelude::*;

verus! {

/// A command as the user configured it.
#[derive(Debug, PartialEq, Eq)]
pub struct Definition {
    /// The executable to run.
    pub command: String,
    /// Its arguments, in order.
    pub args: Vec<String>,
    /// The name shown for the runnable.
    pub label: String,
}

/// The request to spawn one runnable in a terminal.
#[derive(Debug, PartialEq, Eq)]
pub struct SpawnTaskInTerminal {
    pub task_id: u64,
    pub reuse_terminal: bool,
    pub label: String,
    pub command: String,
    pub args: Vec<String>,
    pub cwd: Option<String>,
}

/// A runnable made from a [`Definition`].
#[derive(Debug, PartialEq, Eq)]
pub struct StaticRunner {
    runnable: Definition,
}

impl Clone for Definition {
    fn clone(&self) -> (copy: Self)
        ensures
            copy.command@ == self.command@,
            texts(copy.args@) == texts(self.args@),
            copy.label@ == self.label@,
    {
        Definition {
            command: self.command.clone(),
            args: clone_lines(&self.args),
            label: self.label.clone(),
        }
    }
}

impl Clone for StaticRunner {
    fn clone(&self) -> (copy: Self)
        ensures
            copy.label() == self.label(),
            copy.definition().command@ == self.definition().command@,
            texts(copy.definition().args@) == texts(self.definition().args@),
    {
        StaticRunner { runnable: self.runnable.clone() }
    }
}

impl StaticRunner {
    /// The definition that the runner was made from.
    pub closed spec fn definition(&self) -> Definition {
        self.runnable
    }

    /// The label of that definition.
    pub open spec fn label(&self) -> Seq<char> {
        self.definition().label@
    }

    pub fn new(runnable: Definition) -> (runner: Self)
        ensures
            runner.definition() == runnable,
    {
        StaticRunner { runnable }
    }

    /// The name of the runnable: the label of its definition.
    pub fn name(&self) -> (name: String)
        ensures
            name@ == self.label(),
    {
        self.runnable.label.clone()
    }

    /// The request that starts this runnable as task `id` in directory `cwd`:
    /// command, arguments and label are those of the definition, and the
    /// terminal is never reused.
    pub fn exec(&self, id: u64, cwd: Option<String>) -> (request: SpawnTaskInTerminal)
        ensures
            request.task_id == id,
            !request.reuse_terminal,
            request.label@ == self.label(),
            request.command@ == self.definition().command@,
            texts(request.args@) == texts(self.definition().args@),
            request.cwd == cwd,
    {
        SpawnTaskInTerminal {
            task_id: id,
            reuse_terminal: false,
            label: self.runnable.label.clone(),
            command: self.runnable.command.clone(),
            args: clone_lines(&self.runnable.args),
            cwd,
        }
    }
}

/// The name of a runner is the label that it was constructed with, whatever
/// that label is, the empty one too.
pub proof fn lemma_name_is_label(runner: StaticRunner, definition: Definition)
    requires
        runner.definition() == definition,
    ensures
        runner.label() == definition.label@,
{
}

} // verus!
