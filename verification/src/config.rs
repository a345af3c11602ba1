//! The settings of the switcher, and the choices that fill them where the
//! user has made none.

use vstd::prelude::*;
use vstd::std_specs::cmp::PartialEqSpecImpl;
use vstd::string::StringExecFns;
use crate::paths::{join_path, joined};
use crate::search::{first_index, lemma_first_index, lemma_first_index_is};
use crate::text::{
    clone_opt_text, clone_texts, is_blank, is_blank_text, opt_text, same_opt_text, same_text,
    same_texts, texts_of,
};

verus! {

/// The settings that every part of the switcher reads.
#[derive(Debug)]
pub struct Config {
    /// The command that opens a project, with its arguments.
    pub editor_command: String,
    /// The directories under which local projects are looked for.
    pub project_dirs: Vec<String>,
    /// The GitHub account whose repositories are listed, if any.
    pub github_username: Option<String>,
    /// The GitLab account whose repositories are listed, if any.
    pub gitlab_username: Option<String>,
    /// How long a cache file stays valid, in seconds.
    pub cache_ttl_seconds: u64,
}

/// The settings, with their texts as sequences of characters.
pub struct ConfigView {
    pub editor_command: Seq<char>,
    pub project_dirs: Seq<Seq<char>>,
    pub github_username: Option<Seq<char>>,
    pub gitlab_username: Option<Seq<char>>,
    pub cache_ttl_seconds: u64,
}

impl View for Config {
    type V = ConfigView;

    open spec fn view(&self) -> ConfigView {
        ConfigView {
            editor_command: self.editor_command@,
            project_dirs: texts_of(self.project_dirs@),
            github_username: opt_text(self.github_username),
            gitlab_username: opt_text(self.gitlab_username),
            cache_ttl_seconds: self.cache_ttl_seconds,
        }
    }
}

/// Why a configuration cannot be used or found.
#[derive(Debug, Clone, Copy, PartialEq, Eq, Structural)]
pub enum ConfigError {
    /// The editor command holds nothing but white space.
    EmptyEditor,
    /// The cache's time to live is zero.
    ZeroTtl,
    /// The machine gives no directory for the configuration file.
    NoConfigDirectory,
    /// The machine gives no directory for the cache.
    NoCacheDirectory,
}

/// The sentence that tells the user what is wrong with the settings.
pub open spec fn config_error_text(e: ConfigError) -> Seq<char> {
    match e {
        ConfigError::EmptyEditor => "Editor command cannot be empty"@,
        ConfigError::ZeroTtl => "Cache TTL must be greater than 0"@,
        ConfigError::NoConfigDirectory => "Failed to determine config directory"@,
        ConfigError::NoCacheDirectory => "Failed to determine cache directory"@,
    }
}

/// The name of the configuration file.
pub open spec fn config_file_name() -> Seq<char> {
    "config.json"@
}

impl ConfigError {
    /// The sentence that tells the user what is wrong.
    pub fn message(&self) -> (r: &'static str)
        ensures
            r@ == config_error_text(*self),
    {
        match self {
            ConfigError::EmptyEditor => "Editor command cannot be empty",
            ConfigError::ZeroTtl => "Cache TTL must be greater than 0",
            ConfigError::NoConfigDirectory => "Failed to determine config directory",
            ConfigError::NoCacheDirectory => "Failed to determine cache directory",
        }
    }
}

/// How long a cache file stays valid where the user has set nothing: half an
/// hour.
pub const DEFAULT_CACHE_TTL_SECONDS: u64 = 1800;

impl Clone for Config {
    fn clone(&self) -> (r: Self)
        ensures
            r@ == self@,
    {
        Config {
            editor_command: self.editor_command.clone(),
            project_dirs: clone_texts(&self.project_dirs),
            github_username: clone_opt_text(&self.github_username),
            gitlab_username: clone_opt_text(&self.gitlab_username),
            cache_ttl_seconds: self.cache_ttl_seconds,
        }
    }
}

impl PartialEq for Config {
    fn eq(&self, other: &Self) -> (r: bool) {
        self.editor_command == other.editor_command && same_texts(
            &self.project_dirs,
            &other.project_dirs,
        ) && same_opt_text(&self.github_username, &other.github_username) && same_opt_text(
            &self.gitlab_username,
            &other.gitlab_username,
        ) && self.cache_ttl_seconds == other.cache_ttl_seconds
    }
}

impl PartialEqSpecImpl for Config {
    open spec fn obeys_eq_spec() -> bool {
        true
    }

    open spec fn eq_spec(&self, other: &Self) -> bool {
        self@ == other@
    }
}

impl Eq for Config {

}

/// The position of the first text of `s` that equals `t`, or the length of
/// `s` where none does.
pub open spec fn position_of(s: Seq<Seq<char>>, t: Seq<char>) -> int {
    first_index(s, same_as(t))
}

/// The test that a text passes when it equals `t`.
pub open spec fn same_as(t: Seq<char>) -> spec_fn(Seq<char>) -> bool {
    |x: Seq<char>| x == t
}

/// Finds the first text of `v` that equals `t`.
fn find_text(v: &Vec<String>, t: &str) -> (r: usize)
    ensures
        r == position_of(texts_of(v@), t@),
        r <= v@.len(),
        r < v@.len() <==> texts_of(v@).contains(t@),
{
    let ghost same = same_as(t@);
    let mut i: usize = 0;
    while i < v.len()
        invariant
            i <= v.len(),
            same == same_as(t@),
            forall|k: int| 0 <= k < i ==> !same(#[trigger] texts_of(v@)[k]),
        decreases v.len() - i,
    {
        if same_text(v[i].as_str(), t) {
            proof {
                assert(same(texts_of(v@)[i as int]));
                lemma_first_index_is(texts_of(v@), same, i as int);
                assert(texts_of(v@)[i as int] == t@);
            }
            return i;
        }
        i = i + 1;
    }
    proof {
        lemma_first_index_is(texts_of(v@), same, i as int);
        if texts_of(v@).contains(t@) {
            let w = choose|w: int| 0 <= w < texts_of(v@).len() && texts_of(v@)[w] == t@;
            assert(same(texts_of(v@)[w]));
        }
    }
    i
}

impl Config {
    /// The settings that a first run starts from: the given editor and
    /// directories, no remote account, and a cache that stays valid for half
    /// an hour.
    pub fn with_defaults(editor_command: String, project_dirs: Vec<String>) -> (r: Config)
        ensures
            r@ == (ConfigView {
                editor_command: editor_command@,
                project_dirs: texts_of(project_dirs@),
                github_username: None,
                gitlab_username: None,
                cache_ttl_seconds: DEFAULT_CACHE_TTL_SECONDS,
            }),
    {
        Config {
            editor_command,
            project_dirs,
            github_username: None,
            gitlab_username: None,
            cache_ttl_seconds: DEFAULT_CACHE_TTL_SECONDS,
        }
    }

    /// Where the configuration file lives on this machine: `config.json` in
    /// the directory that the machine gives for the configuration of the
    /// switcher.
    pub fn config_file_path() -> (r: Result<String, ConfigError>)
        ensures
            match r {
                Ok(path) => exists|dir: Seq<char>| path@ == joined(dir, config_file_name()),
                Err(e) => e == ConfigError::NoConfigDirectory,
            },
    {
        match project_directories("sw") {
            Some((config_dir, _)) => {
                let path = join_path(config_dir.as_str(), "config.json");
                assert(path@ == joined(config_dir@, config_file_name()));
                Ok(path)
            },
            None => Err(ConfigError::NoConfigDirectory),
        }
    }

    /// The directory that the machine gives for the cache of the switcher.
    pub fn cache_dir_path() -> (r: Result<String, ConfigError>)
        ensures
            r matches Err(e) ==> e == ConfigError::NoCacheDirectory,
    {
        Config::cache_dir_for(project_directories("sw"))
    }

    /// The directory of the cache, given the two directories that the machine
    /// gave for the switcher, that of its configuration first: the second of
    /// them, or a failure where the machine gave none.
    pub fn cache_dir_for(found: Option<(String, String)>) -> (r: Result<String, ConfigError>)
        ensures
            match found {
                Some(dirs) => r matches Ok(cache_dir) && cache_dir@ == dirs.1@,
                None => r == Err::<String, ConfigError>(ConfigError::NoCacheDirectory),
            },
    {
        match found {
            Some((_, cache_dir)) => Ok(cache_dir),
            None => Err(ConfigError::NoCacheDirectory),
        }
    }

    /// What is wrong with the settings, if anything: a blank editor command
    /// first, then a cache that never stays valid.
    pub open spec fn fault(c: ConfigView) -> Option<ConfigError> {
        if is_blank_text(c.editor_command) {
            Some(ConfigError::EmptyEditor)
        } else if c.cache_ttl_seconds == 0 {
            Some(ConfigError::ZeroTtl)
        } else {
            None
        }
    }

    /// Checks that the settings can be used. A project directory that does
    /// not exist is no fault.
    pub fn validate(&self) -> (r: Result<(), ConfigError>)
        ensures
            match r {
                Ok(_) => Config::fault(self@) is None,
                Err(e) => Config::fault(self@) == Some(e),
            },
    {
        if is_blank(self.editor_command.as_str()) {
            return Err(ConfigError::EmptyEditor);
        }
        if self.cache_ttl_seconds == 0 {
            return Err(ConfigError::ZeroTtl);
        }
        Ok(())
    }

    /// Adds `path` to the project directories unless it is one of them.
    pub fn add_project_dir(&mut self, path: &str)
        ensures
            final(self)@ == (ConfigView {
                project_dirs: if old(self)@.project_dirs.contains(path@) {
                    old(self)@.project_dirs
                } else {
                    old(self)@.project_dirs.push(path@)
                },
                ..old(self)@
            }),
    {
        if find_text(&self.project_dirs, path) == self.project_dirs.len() {
            let ghost prev = self.project_dirs@;
            let added = String::from_str(path);
            self.project_dirs.push(added);
            assert(texts_of(self.project_dirs@) =~= texts_of(prev).push(path@));
        }
    }

    /// Removes the first project directory that equals `path`, and tells
    /// whether there was one.
    pub fn remove_project_dir(&mut self, path: &str) -> (r: bool)
        ensures
            r == old(self)@.project_dirs.contains(path@),
            final(self)@ == (ConfigView {
                project_dirs: if r {
                    old(self)@.project_dirs.remove(
                        position_of(old(self)@.project_dirs, path@),
                    )
                } else {
                    old(self)@.project_dirs
                },
                ..old(self)@
            }),
    {
        let at = find_text(&self.project_dirs, path);
        if at < self.project_dirs.len() {
            let ghost prev = self.project_dirs@;
            let _ = self.project_dirs.remove(at);
            assert(texts_of(self.project_dirs@) =~= texts_of(prev).remove(at as int));
            true
        } else {
            false
        }
    }

    /// Sets the command that opens a project.
    pub fn set_editor(&mut self, editor: String)
        ensures
            final(self)@ == (ConfigView { editor_command: editor@, ..old(self)@ }),
    {
        self.editor_command = editor;
    }

    /// Tells whether the user has yet to be asked for a GitHub account.
    pub fn should_prompt_github_setup(&self) -> (r: bool)
        ensures
            r == (self@.github_username is None),
    {
        self.github_username.is_none()
    }
}

/// Asks `which::which` whether a program of that name can be run from the
/// search path. The answer depends on the machine, so nothing is claimed of
/// it.
#[verifier::external_body]
pub(crate) fn program_on_path(name: &str) -> (r: bool) {
    which::which(name).is_ok()
}

/// Asks `directories::ProjectDirs::from` for the directories of the
/// application of that name, without qualifier and organization, and hands
/// back its `config_dir()` and its `cache_dir()` as texts, in this order.
/// `None` where there are none or a path is no text. The answer depends on
/// the machine, so nothing is claimed of it.
#[verifier::external_body]
pub(crate) fn project_directories(application: &str) -> (r: Option<(String, String)>) {
    match directories::ProjectDirs::from("", "", application) {
        Some(found) => match (found.config_dir().to_str(), found.cache_dir().to_str()) {
            (Some(config), Some(cache)) => Some((String::from(config), String::from(cache))),
            _ => None,
        },
        None => None,
    }
}

/// Asks `dirs::home_dir` for the home directory of the user, as a text.
/// `None` where there is none or its path is no text. The answer depends on
/// the machine, so nothing is claimed of it.
#[verifier::external_body]
pub(crate) fn home_directory() -> (r: Option<String>) {
    match dirs::home_dir() {
        Some(path) => path.to_str().map(String::from),
        None => None,
    }
}

/// The editors that are looked for where the environment names none, in the
/// order of preference.
pub open spec fn editor_candidates() -> Seq<Seq<char>> {
    seq!["cursor"@, "code"@, "vim"@, "nvim"@, "nano"@]
}

/// The editor that is taken where none is found: `vim`.
pub open spec fn fallback_editor() -> Seq<char> {
    "vim"@
}

/// The test that a mark passes when it is set.
pub open spec fn is_marked() -> spec_fn(bool) -> bool {
    |b: bool| b
}

/// The position of the first `true` in `found`, or its length.
pub open spec fn first_found(found: Seq<bool>) -> int {
    first_index(found, is_marked())
}

/// The default editor: what `EDITOR` holds, else what `VISUAL` holds, else
/// the first candidate that `found` marks, else the fallback.
pub open spec fn chosen_editor(
    editor_var: Option<Seq<char>>,
    visual_var: Option<Seq<char>>,
    found: Seq<bool>,
) -> Seq<char> {
    match editor_var {
        Some(e) => e,
        None => match visual_var {
            Some(v) => v,
            None => {
                let at = first_found(found);
                if at < found.len() && at < editor_candidates().len() {
                    editor_candidates()[at]
                } else {
                    fallback_editor()
                }
            },
        },
    }
}

/// The candidate editor at position `i`, if there is one.
pub fn editor_candidate(i: usize) -> (r: Option<&'static str>)
    ensures
        match r {
            Some(name) => i < editor_candidates().len() && name@ == editor_candidates()[i as int],
            None => i >= editor_candidates().len(),
        },
{
    if i == 0 {
        Some("cursor")
    } else if i == 1 {
        Some("code")
    } else if i == 2 {
        Some("vim")
    } else if i == 3 {
        Some("nvim")
    } else if i == 4 {
        Some("nano")
    } else {
        None
    }
}

/// Finds the first `true` in `found`.
fn find_first(found: &Vec<bool>) -> (r: usize)
    ensures
        r == first_found(found@),
        r <= found@.len(),
{
    let ghost set = is_marked();
    let mut i: usize = 0;
    while i < found.len()
        invariant
            i <= found.len(),
            set == is_marked(),
            forall|k: int| 0 <= k < i ==> !set(#[trigger] found@[k]),
        decreases found.len() - i,
    {
        if found[i] {
            proof {
                assert(set(found@[i as int]));
                lemma_first_index_is(found@, set, i as int);
            }
            return i;
        }
        i = i + 1;
    }
    proof {
        lemma_first_index_is(found@, set, i as int);
    }
    i
}

/// Chooses the default editor from what the environment holds and from which
/// of the candidates were found on the search path, `found[i]` standing for
/// the candidate at position `i`.
pub fn choose_editor(
    editor_var: Option<String>,
    visual_var: Option<String>,
    found: &Vec<bool>,
) -> (r: String)
    ensures
        r@ == chosen_editor(opt_text(editor_var), opt_text(visual_var), found@),
{
    if let Some(e) = editor_var {
        return e;
    }
    if let Some(v) = visual_var {
        return v;
    }
    let at = find_first(found);
    if at < found.len() {
        match editor_candidate(at) {
            Some(name) => String::from_str(name),
            None => String::from_str("vim"),
        }
    } else {
        String::from_str("vim")
    }
}

/// The default editor on this machine: what `EDITOR` holds, else what
/// `VISUAL` holds, else the first candidate on the search path, else `vim`.
/// The two variables are handed in by the caller.
pub fn detect_default_editor(editor_var: Option<String>, visual_var: Option<String>) -> (r: String)
    ensures
        exists|found: Seq<bool>|
            found.len() == editor_candidates().len() && r@ == chosen_editor(
                opt_text(editor_var),
                opt_text(visual_var),
                found,
            ),
{
    let mut found: Vec<bool> = Vec::new();
    let mut i: usize = 0;
    while i < 5
        invariant
            i <= 5,
            found.len() == i,
        decreases 5 - i,
    {
        let there = match editor_candidate(i) {
            Some(name) => program_on_path(name),
            None => false,
        };
        found.push(there);
        i = i + 1;
    }
    choose_editor(editor_var, visual_var, &found)
}

/// What was found at a place where projects may live.
#[derive(Debug, Clone, Copy, PartialEq, Eq, Structural)]
pub struct DirProbe {
    /// Something exists at the path.
    pub exists: bool,
    /// What exists there is a directory.
    pub is_dir: bool,
}

/// The places below the home directory where projects usually live, in the
/// order of preference.
pub open spec fn dir_candidates() -> Seq<Seq<char>> {
    seq![
        "Code"@,
        "Projects"@,
        "Documents/git"@,
        "src"@,
        "workspace"@,
        "Documents/projects"@,
    ]
}

/// The candidate place at position `i`, if there is one.
pub fn dir_candidate(i: usize) -> (r: Option<&'static str>)
    ensures
        match r {
            Some(name) => i < dir_candidates().len() && name@ == dir_candidates()[i as int],
            None => i >= dir_candidates().len(),
        },
{
    if i == 0 {
        Some("Code")
    } else if i == 1 {
        Some("Projects")
    } else if i == 2 {
        Some("Documents/git")
    } else if i == 3 {
        Some("src")
    } else if i == 4 {
        Some("workspace")
    } else if i == 5 {
        Some("Documents/projects")
    } else {
        None
    }
}

/// The directories taken from the first `n` candidates: those that are
/// there and are directories, two at most.
pub open spec fn taken_dirs(home: Seq<char>, probes: Seq<DirProbe>, n: int) -> Seq<Seq<char>>
    decreases n,
{
    if n <= 0 {
        Seq::empty()
    } else {
        let before = taken_dirs(home, probes, n - 1);
        if before.len() < 2 && n - 1 < probes.len() && probes[n - 1].exists && probes[n
            - 1].is_dir {
            before.push(joined(home, dir_candidates()[n - 1]))
        } else {
            before
        }
    }
}

/// The one directory taken where none of the candidates is a directory: the
/// first of the first three at which something exists, else `Documents/git`.
pub open spec fn last_resort_dir(home: Seq<char>, probes: Seq<DirProbe>) -> Seq<char> {
    if probes.len() > 0 && probes[0].exists {
        joined(home, dir_candidates()[0])
    } else if probes.len() > 1 && probes[1].exists {
        joined(home, dir_candidates()[1])
    } else {
        joined(home, dir_candidates()[2])
    }
}

/// The default project directories: none without a home directory; else
/// the first two candidates that are directories; else the last resort.
pub open spec fn default_dirs(home: Option<Seq<char>>, probes: Seq<DirProbe>) -> Seq<Seq<char>> {
    match home {
        None => Seq::empty(),
        Some(h) => {
            let taken = taken_dirs(h, probes, dir_candidates().len() as int);
            if taken.len() > 0 {
                taken
            } else {
                seq![last_resort_dir(h, probes)]
            }
        },
    }
}

/// The project directories that a first run starts from. `probes[i]` says
/// what was found at the candidate of position `i` below `home`; a
/// candidate without a probe counts as absent.
pub fn default_project_dirs(home: Option<&str>, probes: &Vec<DirProbe>) -> (r: Vec<String>)
    ensures
        texts_of(r@) == default_dirs(
            match home {
                Some(h) => Some(h@),
                None => None,
            },
            probes@,
        ),
{
    let mut dirs: Vec<String> = Vec::new();
    assert(texts_of(dirs@) =~= Seq::<Seq<char>>::empty());
    let h = match home {
        Some(h) => h,
        None => {
            return dirs;
        },
    };
    let mut i: usize = 0;
    while i < 6
        invariant
            i <= 6,
            texts_of(dirs@) == taken_dirs(h@, probes@, i as int),
        decreases 6 - i,
    {
        if dirs.len() < 2 && i < probes.len() && probes[i].exists && probes[i].is_dir {
            if let Some(name) = dir_candidate(i) {
                let ghost prev = dirs@;
                let d = join_path(h, name);
                dirs.push(d);
                assert(texts_of(dirs@) =~= texts_of(prev).push(d@));
            }
        }
        i = i + 1;
    }
    if dirs.len() == 0 {
        let at: usize = if probes.len() > 0 && probes[0].exists {
            0
        } else if probes.len() > 1 && probes[1].exists {
            1
        } else {
            2
        };
        if let Some(name) = dir_candidate(at) {
            let d = join_path(h, name);
            dirs.push(d);
            assert(texts_of(dirs@) =~= seq![d@]);
        }
    }
    dirs
}

/// The position of a text in a list lies within the list exactly when the
/// list holds the text; the text at it is that text, and no text before it
/// is.
pub proof fn lemma_position_of(s: Seq<Seq<char>>, t: Seq<char>)
    ensures
        0 <= position_of(s, t) <= s.len(),
        position_of(s, t) < s.len() <==> s.contains(t),
        position_of(s, t) < s.len() ==> s[position_of(s, t)] == t,
        forall|k: int| 0 <= k < position_of(s, t) ==> #[trigger] s[k] != t,
{
    let same = same_as(t);
    let at = position_of(s, t);
    lemma_first_index(s, same);
    if s.contains(t) {
        let w = choose|w: int| 0 <= w < s.len() && s[w] == t;
        assert(same(s[w]));
    }
    if at < s.len() {
        assert(same(s[at]));
    }
    assert forall|k: int| 0 <= k < at implies #[trigger] s[k] != t by {
        assert(!same(s[k]));
    }
}

} // verus!
