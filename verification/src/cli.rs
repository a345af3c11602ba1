//! What the command line asks for.

use vstd::prelude::*;
use vstd::std_specs::cmp::PartialEqSpecImpl;
use crate::text::opt_text;

verus! {

/// A shell for which completions can be written.
#[derive(Debug, Clone, Copy, PartialEq, Eq, Structural)]
pub enum Shell {
    Bash,
    Elvish,
    Fish,
    PowerShell,
    Zsh,
}

/// The subcommands.
#[derive(Debug, Clone, Copy, PartialEq, Eq, Structural)]
pub enum Commands {
    /// Run the setup wizard.
    Setup,
    /// List the projects.
    List,
    /// Scan again and renew the cache.
    Refresh,
    /// Show the settings.
    Config,
    /// Write the completions for a shell.
    Completions { shell: Shell },
}

/// The arguments of the command line.
#[derive(Debug)]
pub struct Cli {
    /// The name of the project to open.
    pub project_name: Option<String>,
    /// Pick a project interactively.
    pub interactive: bool,
    /// List the projects.
    pub list: bool,
    /// Pick a project with `fzf`.
    pub fzf: bool,
    /// Scan again before anything else.
    pub refresh: bool,
    /// Say what is being done.
    pub verbose: bool,
    /// The subcommand, if one was given.
    pub command: Option<Commands>,
}

/// What the switcher is to do.
#[derive(Debug)]
pub enum OperationMode {
    /// Open the project of this name.
    Direct(String),
    Interactive,
    List,
    Fzf,
    Setup,
    Refresh,
    ShowConfig,
    Completions(Shell),
}

/// What the switcher is to do, with its text as a sequence of characters.
pub enum ModeView {
    Direct(Seq<char>),
    Interactive,
    List,
    Fzf,
    Setup,
    Refresh,
    ShowConfig,
    Completions(Shell),
}

impl View for OperationMode {
    type V = ModeView;

    open spec fn view(&self) -> ModeView {
        match self {
            OperationMode::Direct(name) => ModeView::Direct(name@),
            OperationMode::Interactive => ModeView::Interactive,
            OperationMode::List => ModeView::List,
            OperationMode::Fzf => ModeView::Fzf,
            OperationMode::Setup => ModeView::Setup,
            OperationMode::Refresh => ModeView::Refresh,
            OperationMode::ShowConfig => ModeView::ShowConfig,
            OperationMode::Completions(shell) => ModeView::Completions(*shell),
        }
    }
}

impl PartialEq for OperationMode {
    fn eq(&self, other: &Self) -> (r: bool) {
        match (self, other) {
            (OperationMode::Direct(a), OperationMode::Direct(b)) => *a == *b,
            (OperationMode::Interactive, OperationMode::Interactive) => true,
            (OperationMode::List, OperationMode::List) => true,
            (OperationMode::Fzf, OperationMode::Fzf) => true,
            (OperationMode::Setup, OperationMode::Setup) => true,
            (OperationMode::Refresh, OperationMode::Refresh) => true,
            (OperationMode::ShowConfig, OperationMode::ShowConfig) => true,
            (OperationMode::Completions(a), OperationMode::Completions(b)) => *a == *b,
            _ => false,
        }
    }
}

impl PartialEqSpecImpl for OperationMode {
    open spec fn obeys_eq_spec() -> bool {
        true
    }

    open spec fn eq_spec(&self, other: &Self) -> bool {
        self@ == other@
    }
}

impl Eq for OperationMode {

}

/// What is done before the first run goes on.
#[derive(Debug, Clone, Copy, PartialEq, Eq, Structural)]
pub enum FirstRunAction {
    /// Ask the user for a GitHub account.
    PromptGithubSetup,
    /// Tell the user that the setup can connect a GitHub account.
    ShowSetupTip,
    /// Nothing.
    Nothing,
}

/// The mode that the arguments ask for: a project name comes first, then
/// the subcommand, then the flags; with none of them the picker runs.
pub open spec fn mode_of(
    project_name: Option<Seq<char>>,
    command: Option<Commands>,
    list: bool,
    fzf: bool,
) -> ModeView {
    match project_name {
        Some(name) => ModeView::Direct(name),
        None => match command {
            Some(Commands::Setup) => ModeView::Setup,
            Some(Commands::List) => ModeView::List,
            Some(Commands::Refresh) => ModeView::Refresh,
            Some(Commands::Config) => ModeView::ShowConfig,
            Some(Commands::Completions { shell }) => ModeView::Completions(shell),
            None => if list {
                ModeView::List
            } else if fzf {
                ModeView::Fzf
            } else {
                ModeView::Interactive
            },
        },
    }
}

/// What a first run does before it goes on: it asks for a GitHub account
/// before a picker, shows a tip before a list or the settings if it is
/// verbose, and nothing else. A later run, and one with an account, does
/// nothing.
pub open spec fn first_run_step(
    is_first_time: bool,
    should_setup_github: bool,
    mode: ModeView,
    verbose: bool,
) -> FirstRunAction {
    if !(is_first_time && should_setup_github) {
        FirstRunAction::Nothing
    } else {
        match mode {
            ModeView::Interactive | ModeView::Fzf => FirstRunAction::PromptGithubSetup,
            ModeView::List | ModeView::ShowConfig => if verbose {
                FirstRunAction::ShowSetupTip
            } else {
                FirstRunAction::Nothing
            },
            _ => FirstRunAction::Nothing,
        }
    }
}

impl Cli {
    /// What the arguments ask for.
    pub fn operation_mode(&self) -> (r: OperationMode)
        ensures
            r@ == mode_of(opt_text(self.project_name), self.command, self.list, self.fzf),
    {
        if let Some(project_name) = &self.project_name {
            return OperationMode::Direct(project_name.clone());
        }
        match self.command {
            Some(Commands::Setup) => OperationMode::Setup,
            Some(Commands::List) => OperationMode::List,
            Some(Commands::Refresh) => OperationMode::Refresh,
            Some(Commands::Config) => OperationMode::ShowConfig,
            Some(Commands::Completions { shell }) => OperationMode::Completions(shell),
            None => {
                if self.list {
                    OperationMode::List
                } else if self.fzf {
                    OperationMode::Fzf
                } else {
                    OperationMode::Interactive
                }
            },
        }
    }
}

/// What a run does before it goes on, given whether it is the first, and
/// whether a GitHub account is still to be set up.
pub fn first_run_action(
    is_first_time: bool,
    should_setup_github: bool,
    mode: &OperationMode,
    verbose: bool,
) -> (r: FirstRunAction)
    ensures
        r == first_run_step(is_first_time, should_setup_github, mode@, verbose),
{
    if !(is_first_time && should_setup_github) {
        return FirstRunAction::Nothing;
    }
    match mode {
        OperationMode::Interactive => FirstRunAction::PromptGithubSetup,
        OperationMode::Fzf => FirstRunAction::PromptGithubSetup,
        OperationMode::List => if verbose {
            FirstRunAction::ShowSetupTip
        } else {
            FirstRunAction::Nothing
        },
        OperationMode::ShowConfig => if verbose {
            FirstRunAction::ShowSetupTip
        } else {
            FirstRunAction::Nothing
        },
        _ => FirstRunAction::Nothing,
    }
}

} // verus!
