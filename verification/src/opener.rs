//! Opening a project in the editor: what has to be run, and whether the
//! project has to be cloned first.

use vstd::prelude::*;
use vstd::string::StringExecFns;
use crate::config::Config;
use crate::models::{Project, ProjectView};
use crate::text::{
    is_blank, is_blank_text, lemma_words_of_blank, same_text, texts_of, words, words_of,
};

verus! {

/// Opens projects in the configured editor.
#[derive(Debug, Clone, Copy)]
pub struct ProjectOpener;

/// Why a project cannot be opened.
#[derive(Debug, Clone, Copy, PartialEq, Eq, Structural)]
pub enum OpenError {
    /// The editor command holds nothing but white space.
    EmptyEditor,
    /// Nothing exists at the project's path.
    MissingPath,
    /// The project has to be cloned, but carries no address to clone from.
    MissingUrl,
}

/// The command that launches the editor.
#[derive(Debug)]
pub struct LaunchPlan {
    /// The program to run: the first word of the editor command.
    pub program: String,
    /// Its arguments: the other words of the editor command. The path of
    /// the project comes behind them.
    pub args: Vec<String>,
    /// The path of the project.
    pub path: String,
    /// Whether the editor goes on by itself, so that its end is not waited
    /// for.
    pub background: bool,
}

/// What a clone has to do.
#[derive(Debug)]
pub struct ClonePlan {
    /// The address of the repository.
    pub url: String,
    /// The directory to clone into.
    pub target: String,
}

/// What to do next to open a project.
#[derive(Debug)]
pub enum OpenStep {
    /// Clone the repository, then ask again.
    CloneFirst(ClonePlan),
    /// Launch the editor.
    Launch(LaunchPlan),
}

/// True for the editors that open a window and return at once.
pub open spec fn is_background(editor: Seq<char>) -> bool {
    editor == "cursor"@ || editor == "code"@ || editor == "subl"@ || editor == "atom"@
}

/// A launch, with its texts as sequences of characters.
pub struct LaunchView {
    pub program: Seq<char>,
    pub args: Seq<Seq<char>>,
    pub path: Seq<char>,
    pub background: bool,
}

impl View for LaunchPlan {
    type V = LaunchView;

    open spec fn view(&self) -> LaunchView {
        LaunchView {
            program: self.program@,
            args: texts_of(self.args@),
            path: self.path@,
            background: self.background,
        }
    }
}

/// The launch of `editor_command` on the project at `path`: an error for a
/// blank command, then for a path at which nothing exists; else the first
/// word of the command with the other words as arguments.
pub open spec fn launch_of(editor_command: Seq<char>, path: Seq<char>, path_exists: bool) -> Result<
    LaunchView,
    OpenError,
> {
    if is_blank_text(editor_command) {
        Err(OpenError::EmptyEditor)
    } else if !path_exists {
        Err(OpenError::MissingPath)
    } else {
        let parts = words_of(editor_command);
        Ok(
            LaunchView {
                program: parts[0],
                args: parts.skip(1),
                path,
                background: is_background(parts[0]),
            },
        )
    }
}

/// True when a project has to be cloned before it can be opened: a remote
/// source reported it, and nothing exists at its path yet.
pub open spec fn must_clone(p: ProjectView, path_exists: bool) -> bool {
    p.source.is_remote() && !path_exists
}

/// Tells whether `editor` opens a window and returns at once.
pub fn is_background_editor(editor: &str) -> (r: bool)
    ensures
        r == is_background(editor@),
{
    same_text(editor, "cursor") || same_text(editor, "code") || same_text(editor, "subl")
        || same_text(editor, "atom")
}

/// The sentence that tells the user why the project at `path` cannot be
/// opened.
pub open spec fn open_error_text(e: OpenError, path: Seq<char>) -> Seq<char> {
    match e {
        OpenError::EmptyEditor => "Editor command is empty"@,
        OpenError::MissingPath => "Project path does not exist: "@ + path,
        OpenError::MissingUrl => "GitHub project missing URL"@,
    }
}

impl OpenError {
    /// The sentence that tells the user what is wrong, for the project at
    /// `path`.
    pub fn message(&self, path: &str) -> (r: String)
        ensures
            r@ == open_error_text(*self, path@),
    {
        match self {
            OpenError::EmptyEditor => String::from_str("Editor command is empty"),
            OpenError::MissingPath => {
                let mut m = String::from_str("Project path does not exist: ");
                m.append(path);
                m
            },
            OpenError::MissingUrl => String::from_str("GitHub project missing URL"),
        }
    }
}

impl Default for ProjectOpener {
    fn default() -> (r: Self) {
        ProjectOpener::new()
    }
}

impl ProjectOpener {
    /// An opener.
    pub fn new() -> (r: ProjectOpener) {
        ProjectOpener
    }

    /// What a clone of `project` has to do. A project without the address of
    /// its repository cannot be cloned.
    pub fn clone_github_project(&self, project: &Project) -> (r: Result<ClonePlan, OpenError>)
        ensures
            match r {
                Ok(plan) => Project::origin_of(project@) == Some(plan.url@) && plan.target@
                    == project@.path,
                Err(e) => e == OpenError::MissingUrl && Project::origin_of(project@) is None,
            },
    {
        match project.origin_url() {
            Some(url) => Ok(ClonePlan { url, target: project.path.clone() }),
            None => Err(OpenError::MissingUrl),
        }
    }

    /// The command that opens the project at `path`, given whether anything
    /// exists there.
    pub fn open_project_path(&self, path: &str, config: &Config, path_exists: bool) -> (r: Result<
        LaunchPlan,
        OpenError,
    >)
        ensures
            match r {
                Ok(plan) => launch_of(config@.editor_command, path@, path_exists) == Ok::<
                    LaunchView,
                    OpenError,
                >(plan@),
                Err(e) => launch_of(config@.editor_command, path@, path_exists) == Err::<
                    LaunchView,
                    OpenError,
                >(e),
            },
    {
        if is_blank(config.editor_command.as_str()) {
            return Err(OpenError::EmptyEditor);
        }
        if !path_exists {
            return Err(OpenError::MissingPath);
        }
        let mut parts = words(config.editor_command.as_str());
        proof {
            lemma_words_of_blank(config@.editor_command);
        }
        let ghost all = texts_of(parts@);
        let program = parts.remove(0);
        assert(texts_of(parts@) =~= all.skip(1));
        let background = is_background_editor(program.as_str());
        Ok(LaunchPlan { program, args: parts, path: String::from_str(path), background })
    }

    /// What to do next to open `project`, given whether anything exists at
    /// its path: clone it first where it has to be, else launch the editor.
    pub fn open_project(&self, project: &Project, config: &Config, path_exists: bool) -> (r: Result<
        OpenStep,
        OpenError,
    >)
        ensures
            must_clone(project@, path_exists) ==> match r {
                Ok(OpenStep::CloneFirst(plan)) => Project::origin_of(project@) == Some(plan.url@)
                    && plan.target@ == project@.path,
                Ok(OpenStep::Launch(_)) => false,
                Err(e) => e == OpenError::MissingUrl && Project::origin_of(project@) is None,
            },
            !must_clone(project@, path_exists) ==> match r {
                Ok(OpenStep::Launch(plan)) => launch_of(
                    config@.editor_command,
                    project@.path,
                    path_exists,
                ) == Ok::<LaunchView, OpenError>(plan@),
                Ok(OpenStep::CloneFirst(_)) => false,
                Err(e) => launch_of(config@.editor_command, project@.path, path_exists) == Err::<
                    LaunchView,
                    OpenError,
                >(e),
            },
    {
        if project.source.remote() && !path_exists {
            match self.clone_github_project(project) {
                Ok(plan) => Ok(OpenStep::CloneFirst(plan)),
                Err(e) => Err(e),
            }
        } else {
            match self.open_project_path(project.path.as_str(), config, path_exists) {
                Ok(plan) => Ok(OpenStep::Launch(plan)),
                Err(e) => Err(e),
            }
        }
    }
}

} // verus!
