//! What every layer has in common: its types, the strategy for a cached
//! layer, and the commands that a layer asks its driver to run.

use vstd::prelude::*;

verus! {

/// Where a layer is available.
#[derive(Clone, Copy, Debug, PartialEq, Eq, Structural)]
pub struct LayerTypes {
    /// Visible to later build steps.
    pub build: bool,
    /// Visible to the launched process.
    pub launch: bool,
    /// Kept for the next build.
    pub cache: bool,
}

/// What to do with a layer that a previous build left behind.
#[derive(Clone, Copy, Debug, PartialEq, Eq, Structural)]
pub enum ExistingLayerStrategy {
    /// Use the layer as it is.
    Keep,
    /// Run the layer's `update` on it.
    Update,
    /// Delete it and run the layer's `create`.
    Recreate,
}

/// A command that a layer needs run: a program and its arguments.
#[derive(Debug, PartialEq, Eq)]
pub struct Command {
    pub program: String,
    pub args: Vec<String>,
}

/// A command, as contracts speak of it.
pub struct CommandView {
    pub program: Seq<char>,
    pub args: Seq<Seq<char>>,
}

impl View for Command {
    type V = CommandView;

    open spec fn view(&self) -> CommandView {
        CommandView { program: self.program@, args: self.args.deep_view() }
    }
}

/// How a command ended.
#[derive(Debug, PartialEq, Eq)]
pub enum CommandOutcome {
    /// It ran and reported success.
    Success,
    /// It ran and ended with this exit code, or without one.
    ExitStatus(Option<i32>),
    /// It could not be run; the text says why.
    Failed(String),
}

/// The outcome of a command, as contracts speak of it.
pub enum OutcomeView {
    Success,
    ExitStatus(Option<i32>),
    Failed(Seq<char>),
}

impl View for CommandOutcome {
    type V = OutcomeView;

    open spec fn view(&self) -> OutcomeView {
        match self {
            CommandOutcome::Success => OutcomeView::Success,
            CommandOutcome::ExitStatus(code) => OutcomeView::ExitStatus(*code),
            CommandOutcome::Failed(reason) => OutcomeView::Failed(reason@),
        }
    }
}

/// The outcomes of a list of commands, in the order in which they ran.
pub open spec fn outcomes_view(outcomes: Seq<CommandOutcome>) -> Seq<OutcomeView> {
    outcomes.map_values(|o: CommandOutcome| o@)
}

} // verus!
