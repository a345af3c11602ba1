//! What the commands compute before they print or run anything: the project
//! that a name means, and the lines handed to an outside picker.

use vstd::prelude::*;
use vstd::string::StringExecFns;
use crate::config::{same_as, Config, ConfigView};
use crate::models::{label_text, opt_project, views, Project, ProjectList, ProjectView};
use crate::search::{first_index, lemma_first_index_is};
use crate::text::{
    append_decimal, contains_text, decimal_text, has_part, is_blank, is_blank_text, lowercase,
    lowercase_text, same_text, texts_of, trimmed, trimmed_text,
};

verus! {

/// True when the name of `p` holds `query`, letter case aside.
pub open spec fn name_matches(p: ProjectView, query: Seq<char>) -> bool {
    has_part(lowercase_text(p.name), lowercase_text(query))
}

/// The test that a project passes when its name holds `query`, letter case
/// aside.
pub open spec fn named_like(query: Seq<char>) -> spec_fn(ProjectView) -> bool {
    |p: ProjectView| name_matches(p, query)
}

/// The position of the first project of `s` whose name holds `query`, or
/// the length of `s` where none does.
pub open spec fn first_match(s: Seq<ProjectView>, query: Seq<char>) -> int {
    first_index(s, named_like(query))
}

/// The project that `query` means: the first whose name holds it.
pub open spec fn found_by_name(s: Seq<ProjectView>, query: Seq<char>) -> Option<ProjectView> {
    if first_match(s, query) < s.len() {
        Some(s[first_match(s, query)])
    } else {
        None
    }
}

/// The lines for an outside picker, one for each project: its label.
pub open spec fn picker_texts(s: Seq<ProjectView>) -> Seq<Seq<char>> {
    s.map_values(|p: ProjectView| label_text(p))
}

/// The position of the first line that equals `line`, or the number of
/// lines where none does.
pub open spec fn first_line(lines: Seq<Seq<char>>, line: Seq<char>) -> int {
    first_index(lines, same_as(line))
}

/// The project whose line was picked: the first whose line equals `line`.
pub open spec fn picked(s: Seq<ProjectView>, line: Seq<char>) -> Option<ProjectView> {
    let at = first_line(picker_texts(s), line);
    if at < s.len() {
        Some(s[at])
    } else {
        None
    }
}

/// The first project of the list whose name holds `query`, letter case
/// aside.
pub fn find_project_by_name(list: &ProjectList, query: &str) -> (r: Option<Project>)
    ensures
        opt_project(r) == found_by_name(list@, query@),
{
    let projects = list.projects();
    let wanted = lowercase(query);
    let ghost wanted_by = named_like(query@);
    let mut i: usize = 0;
    while i < projects.len()
        invariant
            i <= projects.len(),
            views(projects@) == list@,
            wanted@ == lowercase_text(query@),
            wanted_by == named_like(query@),
            forall|k: int| 0 <= k < i ==> !wanted_by(#[trigger] list@[k]),
        decreases projects.len() - i,
    {
        assert(list@[i as int] == projects@[i as int]@);
        let name = lowercase(projects[i].name.as_str());
        if contains_text(name.as_str(), wanted.as_str()) {
            proof {
                assert(wanted_by(list@[i as int]));
                lemma_first_index_is(list@, wanted_by, i as int);
            }
            return Some(projects[i].clone());
        }
        i = i + 1;
    }
    proof {
        lemma_first_index_is(list@, wanted_by, i as int);
    }
    None
}

/// The line that stands for a project in an outside picker: its label.
pub fn fzf_line(project: &Project) -> (r: String)
    ensures
        r@ == label_text(project@),
{
    project.label()
}

/// The lines for an outside picker, one for each project of the list, in
/// its order.
pub fn fzf_lines(list: &ProjectList) -> (r: Vec<String>)
    ensures
        texts_of(r@) == picker_texts(list@),
{
    let projects = list.projects();
    let mut lines: Vec<String> = Vec::new();
    let mut i: usize = 0;
    while i < projects.len()
        invariant
            i <= projects.len(),
            views(projects@) == list@,
            texts_of(lines@) == picker_texts(list@).take(i as int),
        decreases projects.len() - i,
    {
        let ghost prev = lines@;
        let line = fzf_line(&projects[i]);
        lines.push(line);
        proof {
            assert(list@[i as int] == projects@[i as int]@);
            assert(texts_of(lines@) =~= texts_of(prev).push(line@));
            assert(picker_texts(list@).take(i + 1) =~= picker_texts(list@).take(i as int).push(
                label_text(list@[i as int]),
            ));
        }
        i = i + 1;
    }
    assert(picker_texts(list@).take(i as int) =~= picker_texts(list@));
    lines
}

/// The line that the outside picker gave back: what it wrote, trimmed;
/// none where nothing is left.
pub fn selected_line(stdout: &str) -> (r: Option<String>)
    ensures
        match r {
            Some(line) => !is_blank_text(stdout@) && line@ == trimmed_text(stdout@),
            None => is_blank_text(stdout@),
        },
{
    if is_blank(stdout) {
        None
    } else {
        Some(trimmed(stdout))
    }
}

/// The project whose line the outside picker gave back: the first project
/// of the list whose line equals `line`.
pub fn project_for_line(list: &ProjectList, line: &str) -> (r: Option<Project>)
    ensures
        opt_project(r) == picked(list@, line@),
{
    let projects = list.projects();
    let ghost lines = picker_texts(list@);
    let ghost picked_by = same_as(line@);
    let mut i: usize = 0;
    while i < projects.len()
        invariant
            i <= projects.len(),
            views(projects@) == list@,
            lines == picker_texts(list@),
            picked_by == same_as(line@),
            forall|k: int| 0 <= k < i ==> !picked_by(#[trigger] lines[k]),
        decreases projects.len() - i,
    {
        assert(list@[i as int] == projects@[i as int]@);
        assert(lines[i as int] == label_text(list@[i as int]));
        let candidate = fzf_line(&projects[i]);
        if same_text(candidate.as_str(), line) {
            proof {
                assert(picked_by(lines[i as int]));
                lemma_first_index_is(lines, picked_by, i as int);
            }
            return Some(projects[i].clone());
        }
        i = i + 1;
    }
    proof {
        lemma_first_index_is(lines, picked_by, i as int);
    }
    None
}

/// Each text behind the same text.
pub open spec fn prefixed(prefix: Seq<char>, texts: Seq<Seq<char>>) -> Seq<Seq<char>> {
    texts.map_values(|t: Seq<char>| prefix + t)
}

/// The display lines of the projects of `s`.
pub open spec fn display_texts(s: Seq<ProjectView>) -> Seq<Seq<char>> {
    s.map_values(|p: ProjectView| crate::models::display_text(p))
}

/// What a listing says: that nothing was found, and where it was looked
/// for; or how many projects were found, and each of them.
pub open spec fn listing(s: Seq<ProjectView>, project_dirs: Seq<Seq<char>>) -> Seq<Seq<char>> {
    if s.len() == 0 {
        seq!["No projects found in configured directories:"@] + prefixed("  "@, project_dirs)
    } else {
        seq!["Found "@ + decimal_text(s.len()) + " project(s):"@] + prefixed(
            "  "@,
            display_texts(s),
        )
    }
}

/// Puts each of `texts`, behind `prefix`, at the end of `lines`.
fn push_prefixed(lines: &mut Vec<String>, prefix: &str, texts: &Vec<String>)
    ensures
        texts_of(final(lines)@) == texts_of(old(lines)@) + prefixed(prefix@, texts_of(texts@)),
{
    let ghost before = texts_of(lines@);
    let ghost all = prefixed(prefix@, texts_of(texts@));
    let mut i: usize = 0;
    assert(texts_of(lines@) =~= before + all.take(0));
    while i < texts.len()
        invariant
            i <= texts.len(),
            all == prefixed(prefix@, texts_of(texts@)),
            texts_of(lines@) == before + all.take(i as int),
        decreases texts.len() - i,
    {
        let ghost prev = lines@;
        let mut line = String::from_str(prefix);
        line.append(texts[i].as_str());
        lines.push(line);
        proof {
            assert(texts_of(lines@) =~= texts_of(prev).push(line@));
            assert(all.take(i + 1) =~= all.take(i as int).push(prefix@ + texts@[i as int]@));
        }
        i = i + 1;
    }
    assert(all.take(i as int) =~= all);
}

/// The lines that a listing of the projects prints, given the directories
/// that were looked in.
pub fn list_report(list: &ProjectList, project_dirs: &Vec<String>) -> (r: Vec<String>)
    ensures
        texts_of(r@) == listing(list@, texts_of(project_dirs@)),
{
    let mut lines: Vec<String> = Vec::new();
    if list.is_empty() {
        let head = String::from_str("No projects found in configured directories:");
        lines.push(head);
        assert(texts_of(lines@) =~= seq!["No projects found in configured directories:"@]);
        push_prefixed(&mut lines, "  ", project_dirs);
        return lines;
    }
    let mut head = String::from_str("Found ");
    append_decimal(&mut head, list.len() as u128);
    head.append(" project(s):");
    lines.push(head);
    assert(texts_of(lines@) =~= seq!["Found "@ + decimal_text(list@.len()) + " project(s):"@]);
    let projects = list.projects();
    let mut shown: Vec<String> = Vec::new();
    let mut i: usize = 0;
    while i < projects.len()
        invariant
            i <= projects.len(),
            views(projects@) == list@,
            texts_of(shown@) == display_texts(list@).take(i as int),
        decreases projects.len() - i,
    {
        let ghost prev = shown@;
        let line = projects[i].display_string();
        shown.push(line);
        proof {
            assert(list@[i as int] == projects@[i as int]@);
            assert(texts_of(shown@) =~= texts_of(prev).push(line@));
            assert(display_texts(list@).take(i + 1) =~= display_texts(list@).take(i as int).push(
                crate::models::display_text(list@[i as int]),
            ));
        }
        i = i + 1;
    }
    assert(display_texts(list@).take(i as int) =~= display_texts(list@));
    push_prefixed(&mut lines, "  ", &shown);
    lines
}

/// What was found out about the sign-in of the GitHub client.
#[derive(Debug)]
pub enum AuthCheck {
    /// The client is signed in.
    SignedIn,
    /// The client is not signed in.
    SignedOut,
    /// The question could not be asked; the text says why.
    Failed(String),
}

/// What was found out about the GitHub client.
#[derive(Debug)]
pub enum GitHubProbe {
    /// The client is not installed.
    NotInstalled,
    /// The client is installed, and this is known of its sign-in.
    Installed(AuthCheck),
}

/// What was found out about the GitLab client.
#[derive(Debug, Clone, Copy, PartialEq, Eq, Structural)]
pub enum GitLabProbe {
    /// The client is not installed.
    NotInstalled,
    /// The client is installed, and reaches its server or not.
    Installed { accessible: bool },
}

/// What is known of the GitHub client, with its text as a sequence of
/// characters.
pub enum GitHubProbeView {
    NotInstalled,
    SignedIn,
    SignedOut,
    Failed(Seq<char>),
}

impl View for GitHubProbe {
    type V = GitHubProbeView;

    open spec fn view(&self) -> GitHubProbeView {
        match self {
            GitHubProbe::NotInstalled => GitHubProbeView::NotInstalled,
            GitHubProbe::Installed(AuthCheck::SignedIn) => GitHubProbeView::SignedIn,
            GitHubProbe::Installed(AuthCheck::SignedOut) => GitHubProbeView::SignedOut,
            GitHubProbe::Installed(AuthCheck::Failed(reason)) => GitHubProbeView::Failed(reason@),
        }
    }
}

/// The lines that show the editor, the project directories, and the time to
/// live of the cache.
pub open spec fn settings_lines(c: ConfigView) -> Seq<Seq<char>> {
    seq!["Configuration:"@, "  Editor: "@ + c.editor_command, "  Project directories:"@]
        + prefixed("    "@, c.project_dirs) + seq![
        "  Cache TTL: "@ + decimal_text(c.cache_ttl_seconds as nat) + " seconds"@,
    ]
}

/// The lines that show how the GitHub account and its client stand.
pub open spec fn github_lines(username: Option<Seq<char>>, probe: GitHubProbeView) -> Seq<Seq<char>> {
    match username {
        Some(name) => seq![
            "  GitHub username: "@ + name,
            match probe {
                GitHubProbeView::NotInstalled => "  GitHub status: ⚠️  GitHub CLI not installed"@,
                GitHubProbeView::SignedIn => "  GitHub status: ✅ Authenticated"@,
                GitHubProbeView::SignedOut => "  GitHub status: ❌ Not authenticated"@,
                GitHubProbeView::Failed(reason) => "  GitHub status: ⚠️  Error checking status: "@
                    + reason,
            },
        ],
        None => match probe {
            GitHubProbeView::NotInstalled => seq![
                "  GitHub: ❌ Not configured"@,
                "  GitHub CLI: ❌ Not installed"@,
            ],
            GitHubProbeView::SignedIn => seq![
                "  GitHub: ⚠️  Authenticated but not configured"@,
                "    💡 Run 'sw setup' to enable GitHub integration"@,
            ],
            GitHubProbeView::SignedOut => seq!["  GitHub: ❌ Not configured"@],
            GitHubProbeView::Failed(reason) => seq![
                "  GitHub: ❌ Not configured (error checking auth: "@ + reason + ")"@,
            ],
        },
    }
}

/// The lines that show how the GitLab account and its client stand.
pub open spec fn gitlab_lines(username: Option<Seq<char>>, probe: GitLabProbe) -> Seq<Seq<char>> {
    match username {
        Some(name) => seq![
            "  GitLab username: "@ + name,
            match probe {
                GitLabProbe::NotInstalled => "  GitLab status: ⚠️  GitLab CLI not installed"@,
                GitLabProbe::Installed { accessible } => if accessible {
                    "  GitLab status: ✅ Accessible"@
                } else {
                    "  GitLab status: ❌ Not accessible (check VPN/auth)"@
                },
            },
        ],
        None => match probe {
            GitLabProbe::NotInstalled => seq![
                "  GitLab: ❌ Not configured"@,
                "  GitLab CLI: ❌ Not installed"@,
            ],
            GitLabProbe::Installed { accessible } => seq![
                "  GitLab: ❌ Not configured"@,
                "    💡 Run 'sw setup' to enable GitLab integration"@,
            ],
        },
    }
}

/// What the settings are shown as: the settings themselves, then GitHub,
/// then GitLab.
pub open spec fn config_report(c: ConfigView, github: GitHubProbeView, gitlab: GitLabProbe) -> Seq<
    Seq<char>,
> {
    settings_lines(c) + github_lines(c.github_username, github) + gitlab_lines(
        c.gitlab_username,
        gitlab,
    )
}

/// The text `head` followed by `tail`.
fn joined_text(head: &str, tail: &str) -> (r: String)
    ensures
        r@ == head@ + tail@,
{
    let mut line = String::from_str(head);
    line.append(tail);
    line
}

/// The lines that show the settings.
fn settings_report(config: &Config) -> (r: Vec<String>)
    ensures
        texts_of(r@) == settings_lines(config@),
{
    let mut lines: Vec<String> = Vec::new();
    lines.push(String::from_str("Configuration:"));
    lines.push(joined_text("  Editor: ", config.editor_command.as_str()));
    lines.push(String::from_str("  Project directories:"));
    assert(texts_of(lines@) =~= seq![
        "Configuration:"@,
        "  Editor: "@ + config@.editor_command,
        "  Project directories:"@,
    ]);
    push_prefixed(&mut lines, "    ", &config.project_dirs);
    let ghost head = texts_of(lines@);
    let mut ttl = String::from_str("  Cache TTL: ");
    append_decimal(&mut ttl, config.cache_ttl_seconds as u128);
    ttl.append(" seconds");
    lines.push(ttl);
    assert(texts_of(lines@) =~= head + seq![
        "  Cache TTL: "@ + decimal_text(config.cache_ttl_seconds as nat) + " seconds"@,
    ]);
    lines
}

/// The lines that show how the GitHub account and its client stand.
fn github_report(username: &Option<String>, probe: &GitHubProbe) -> (r: Vec<String>)
    ensures
        texts_of(r@) == github_lines(crate::text::opt_text(*username), probe@),
{
    let mut lines: Vec<String> = Vec::new();
    match username {
        Some(name) => {
            lines.push(joined_text("  GitHub username: ", name.as_str()));
            let status = match probe {
                GitHubProbe::NotInstalled => String::from_str(
                    "  GitHub status: ⚠️  GitHub CLI not installed",
                ),
                GitHubProbe::Installed(AuthCheck::SignedIn) => String::from_str(
                    "  GitHub status: ✅ Authenticated",
                ),
                GitHubProbe::Installed(AuthCheck::SignedOut) => String::from_str(
                    "  GitHub status: ❌ Not authenticated",
                ),
                GitHubProbe::Installed(AuthCheck::Failed(reason)) => joined_text(
                    "  GitHub status: ⚠️  Error checking status: ",
                    reason.as_str(),
                ),
            };
            lines.push(status);
            assert(texts_of(lines@) =~= github_lines(Some(name@), probe@));
        },
        None => {
            match probe {
                GitHubProbe::NotInstalled => {
                    lines.push(String::from_str("  GitHub: ❌ Not configured"));
                    lines.push(String::from_str("  GitHub CLI: ❌ Not installed"));
                },
                GitHubProbe::Installed(AuthCheck::SignedIn) => {
                    lines.push(String::from_str("  GitHub: ⚠️  Authenticated but not configured"));
                    lines.push(
                        String::from_str("    💡 Run 'sw setup' to enable GitHub integration"),
                    );
                },
                GitHubProbe::Installed(AuthCheck::SignedOut) => {
                    lines.push(String::from_str("  GitHub: ❌ Not configured"));
                },
                GitHubProbe::Installed(AuthCheck::Failed(reason)) => {
                    let mut line = joined_text(
                        "  GitHub: ❌ Not configured (error checking auth: ",
                        reason.as_str(),
                    );
                    line.append(")");
                    lines.push(line);
                },
            }
            assert(texts_of(lines@) =~= github_lines(None, probe@));
        },
    }
    lines
}

/// The lines that show how the GitLab account and its client stand.
fn gitlab_report(username: &Option<String>, probe: GitLabProbe) -> (r: Vec<String>)
    ensures
        texts_of(r@) == gitlab_lines(crate::text::opt_text(*username), probe),
{
    let mut lines: Vec<String> = Vec::new();
    match username {
        Some(name) => {
            lines.push(joined_text("  GitLab username: ", name.as_str()));
            let status = match probe {
                GitLabProbe::NotInstalled => "  GitLab status: ⚠️  GitLab CLI not installed",
                GitLabProbe::Installed { accessible } => if accessible {
                    "  GitLab status: ✅ Accessible"
                } else {
                    "  GitLab status: ❌ Not accessible (check VPN/auth)"
                },
            };
            lines.push(String::from_str(status));
            assert(texts_of(lines@) =~= gitlab_lines(Some(name@), probe));
        },
        None => {
            lines.push(String::from_str("  GitLab: ❌ Not configured"));
            match probe {
                GitLabProbe::NotInstalled => {
                    lines.push(String::from_str("  GitLab CLI: ❌ Not installed"));
                },
                GitLabProbe::Installed { accessible } => {
                    lines.push(
                        String::from_str("    💡 Run 'sw setup' to enable GitLab integration"),
                    );
                },
            }
            assert(texts_of(lines@) =~= gitlab_lines(None, probe));
        },
    }
    lines
}

/// Puts copies of the lines of `more` at the end of `lines`.
fn push_lines(lines: &mut Vec<String>, more: &Vec<String>)
    ensures
        texts_of(final(lines)@) == texts_of(old(lines)@) + texts_of(more@),
{
    let ghost before = texts_of(lines@);
    let mut i: usize = 0;
    assert(texts_of(lines@) =~= before + texts_of(more@).take(0));
    while i < more.len()
        invariant
            i <= more.len(),
            texts_of(lines@) == before + texts_of(more@).take(i as int),
        decreases more.len() - i,
    {
        let ghost prev = lines@;
        let line = more[i].clone();
        lines.push(line);
        proof {
            assert(texts_of(lines@) =~= texts_of(prev).push(line@));
            assert(texts_of(more@).take(i + 1) =~= texts_of(more@).take(i as int).push(
                more@[i as int]@,
            ));
        }
        i = i + 1;
    }
    assert(texts_of(more@).take(i as int) =~= texts_of(more@));
}

/// The lines that show the settings and how the clients of the hosting
/// services stand, given what was found out about the clients.
pub fn show_config_report(config: &Config, github: &GitHubProbe, gitlab: GitLabProbe) -> (r: Vec<
    String,
>)
    ensures
        texts_of(r@) == config_report(config@, github@, gitlab),
{
    let mut lines = settings_report(config);
    let hub = github_report(&config.github_username, github);
    let lab = gitlab_report(&config.gitlab_username, gitlab);
    push_lines(&mut lines, &hub);
    push_lines(&mut lines, &lab);
    lines
}

/// What the setup learned about one hosting service.
#[derive(Debug)]
pub enum ClientAnswer {
    /// The client is not installed, and the user wants to install it before
    /// going on.
    MissingStop,
    /// The client is not installed, and the user goes on without it.
    MissingGoOn,
    /// The client is installed; this is the account to list, if any.
    Account(Option<String>),
}

/// What the setup does next.
#[derive(Debug)]
pub enum WizardStep {
    /// Stop without saving anything.
    Stop,
    /// Save these settings; the setup is done.
    Save(Config),
    /// Ask about GitLab; these are the settings so far.
    AskGitLab(Config),
}

/// The answer about a hosting service, with its text as a sequence of
/// characters.
pub enum AnswerView {
    MissingStop,
    MissingGoOn,
    Account(Option<Seq<char>>),
}

/// What the setup does next, with the settings as their view.
pub enum StepView {
    Stop,
    Save(ConfigView),
    AskGitLab(ConfigView),
}

impl View for ClientAnswer {
    type V = AnswerView;

    open spec fn view(&self) -> AnswerView {
        match self {
            ClientAnswer::MissingStop => AnswerView::MissingStop,
            ClientAnswer::MissingGoOn => AnswerView::MissingGoOn,
            ClientAnswer::Account(name) => AnswerView::Account(crate::text::opt_text(*name)),
        }
    }
}

impl View for WizardStep {
    type V = StepView;

    open spec fn view(&self) -> StepView {
        match self {
            WizardStep::Stop => StepView::Stop,
            WizardStep::Save(config) => StepView::Save(config@),
            WizardStep::AskGitLab(config) => StepView::AskGitLab(config@),
        }
    }
}

/// The step behind the answer about GitHub: without the client the setup
/// stops, or saves the editor and the directories with no account at all;
/// with it the setup goes on to GitLab with the GitHub account set.
pub open spec fn step_after_github(
    ttl: u64,
    editor_command: Seq<char>,
    project_dirs: Seq<Seq<char>>,
    answer: AnswerView,
) -> StepView {
    let plain = ConfigView {
        editor_command,
        project_dirs,
        github_username: None,
        gitlab_username: None,
        cache_ttl_seconds: ttl,
    };
    match answer {
        AnswerView::MissingStop => StepView::Stop,
        AnswerView::MissingGoOn => StepView::Save(plain),
        AnswerView::Account(name) => StepView::AskGitLab(
            ConfigView { github_username: name, ..plain },
        ),
    }
}

/// The step behind the answer about GitLab: without the client the setup
/// stops, or saves the settings so far; with it the setup saves them with
/// the GitLab account set.
pub open spec fn step_after_gitlab(so_far: ConfigView, answer: AnswerView) -> StepView {
    match answer {
        AnswerView::MissingStop => StepView::Stop,
        AnswerView::MissingGoOn => StepView::Save(ConfigView { gitlab_username: None, ..so_far }),
        AnswerView::Account(name) => StepView::Save(
            ConfigView { gitlab_username: name, ..so_far },
        ),
    }
}

/// What the setup does once it knows about GitHub. The time to live of the
/// cache stays as `config` has it.
pub fn wizard_after_github(
    config: &Config,
    editor_command: String,
    project_dirs: Vec<String>,
    answer: ClientAnswer,
) -> (r: WizardStep)
    ensures
        r@ == step_after_github(
            config.cache_ttl_seconds,
            editor_command@,
            texts_of(project_dirs@),
            answer@,
        ),
{
    match answer {
        ClientAnswer::MissingStop => WizardStep::Stop,
        ClientAnswer::MissingGoOn => WizardStep::Save(
            Config {
                editor_command,
                project_dirs,
                github_username: None,
                gitlab_username: None,
                cache_ttl_seconds: config.cache_ttl_seconds,
            },
        ),
        ClientAnswer::Account(name) => WizardStep::AskGitLab(
            Config {
                editor_command,
                project_dirs,
                github_username: name,
                gitlab_username: None,
                cache_ttl_seconds: config.cache_ttl_seconds,
            },
        ),
    }
}

/// What the setup does once it knows about GitLab too.
pub fn wizard_after_gitlab(so_far: Config, answer: ClientAnswer) -> (r: WizardStep)
    ensures
        r@ == step_after_gitlab(so_far@, answer@),
{
    let mut config = so_far;
    match answer {
        ClientAnswer::MissingStop => WizardStep::Stop,
        ClientAnswer::MissingGoOn => {
            config.gitlab_username = None;
            WizardStep::Save(config)
        },
        ClientAnswer::Account(name) => {
            config.gitlab_username = name;
            WizardStep::Save(config)
        },
    }
}

/// The account that the user typed: the text, trimmed; none where nothing
/// is left.
pub fn typed_account(input: &str) -> (r: Option<String>)
    ensures
        match r {
            Some(name) => !is_blank_text(input@) && name@ == trimmed_text(input@),
            None => is_blank_text(input@),
        },
{
    selected_line(input)
}

} // verus!
