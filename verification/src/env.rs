use crate::span::Span;
use vstd::prelude::*;

verus! {

#[verifier::external_type_specification]
#[verifier::external_body]
pub struct ExRepository(git2::Repository);

#[verifier::external_type_specification]
#[verifier::external_body]
pub struct ExReference<'a>(git2::Reference<'a>);

/// What looking up the repository's HEAD branch yielded.
#[derive(Clone, Debug)]
pub enum HeadName {
    /// The human-readable shorthand of the HEAD reference.
    Branch(String),
    /// HEAD exists but its shorthand is not valid text.
    Unnamed,
    /// HEAD points at a branch with no commits yet.
    Unborn,
    /// HEAD could not be read at all.
    Unavailable,
}

/// The facts a prompt needs about a discovered repository.
#[derive(Clone, Debug)]
pub struct RepoFacts {
    pub head: HeadName,
    pub bare: bool,
    /// The repository directory (the `.git` directory for normal
    /// repositories, the repository itself for bare ones).
    pub git_dir: String,
}

/// Whether the working directory is inside a git repository, and if so what
/// is known about it. Discovery failures other than "not a repository" also
/// count as no repository: a broken repository never breaks the prompt.
#[derive(Clone, Debug)]
pub enum RepoStatus {
    NoRepo,
    Repo(RepoFacts),
}

/// What repository discovery yielded, with the handle kept for follow-up
/// queries.
enum RepoDiscovery {
    Found(git2::Repository),
    NotARepository,
    Failed,
}

/// What looking up HEAD yielded, with the reference kept for the shorthand
/// query.
enum HeadRef<'a> {
    Found(git2::Reference<'a>),
    Unborn,
    Failed,
}

/// Relies on `git2::Repository::discover`: walks up the filesystem from the
/// given directory looking for a repository, and on `git2::Error::code` to
/// tell "not a repository" (`ErrorCode::NotFound`) from real failures.
#[verifier::external_body]
fn discover_repository(dir: &str) -> RepoDiscovery {
    match git2::Repository::discover(dir) {
        Ok(repo) => RepoDiscovery::Found(repo),
        Err(e) => {
            if e.code() == git2::ErrorCode::NotFound {
                RepoDiscovery::NotARepository
            } else {
                RepoDiscovery::Failed
            }
        },
    }
}

/// Relies on `git2::Repository::is_bare`: whether the repository is bare.
#[verifier::external_body]
fn repository_is_bare(repo: &git2::Repository) -> bool {
    repo.is_bare()
}

/// Relies on `git2::Repository::path`: the path to the repository directory.
#[verifier::external_body]
fn repository_dir(repo: &git2::Repository) -> String {
    repo.path().to_string_lossy().into_owned()
}

/// Relies on `git2::Repository::head`: resolves the reference HEAD points
/// at, and on `git2::Error::code` to recognize an unborn branch.
#[verifier::external_body]
fn repository_head(repo: &git2::Repository) -> HeadRef<'_> {
    match repo.head() {
        Ok(head) => HeadRef::Found(head),
        Err(e) => {
            if e.code() == git2::ErrorCode::UnbornBranch {
                HeadRef::Unborn
            } else {
                HeadRef::Failed
            }
        },
    }
}

/// Relies on `git2::Reference::shorthand`: the human-readable shorthand of a
/// reference, when it is valid text.
#[verifier::external_body]
fn reference_shorthand(reference: &git2::Reference<'_>) -> Option<String> {
    reference.shorthand().ok().map(|s| s.to_string())
}

/// Relies on `dirs::home_dir`: the user's home directory, if known.
#[verifier::external_body]
fn home_dir_string() -> Option<String> {
    dirs::home_dir().map(|p| p.to_string_lossy().into_owned())
}

/// Relies on `whoami::username`: the current user's login name, if known.
#[verifier::external_body]
fn current_username() -> Option<String> {
    whoami::username().ok()
}

/// Relies on `whoami::hostname`: this machine's hostname, if known.
#[verifier::external_body]
fn current_hostname() -> Option<String> {
    whoami::hostname().ok()
}

/// Queries the ambient repository facts for a working directory.
fn discover_repo_status(dir: &str) -> RepoStatus {
    match discover_repository(dir) {
        RepoDiscovery::Found(repo) => {
            let head = match repository_head(&repo) {
                HeadRef::Found(reference) => match reference_shorthand(&reference) {
                    Some(name) => HeadName::Branch(name),
                    None => HeadName::Unnamed,
                },
                HeadRef::Unborn => HeadName::Unborn,
                HeadRef::Failed => HeadName::Unavailable,
            };
            let bare = repository_is_bare(&repo);
            let git_dir = repository_dir(&repo);
            RepoStatus::Repo(RepoFacts { head, bare, git_dir })
        },
        RepoDiscovery::NotARepository => RepoStatus::NoRepo,
        RepoDiscovery::Failed => RepoStatus::NoRepo,
    }
}

/// A read-only snapshot of the ambient state a prompt is generated from.
///
/// All facts are resolved when the snapshot is built — the producers are then
/// pure functions of the producer tree and this value. The builder methods
/// override single facts, so callers (and tests) can fix any of them.
#[derive(Debug)]
pub struct Environment {
    pub working_dir: Option<String>,
    pub prev_exit_code: i32,
    pub prev_cmd_duration: Option<Span>,
    pub force_alternative_prompt: bool,
    pub home_dir: Option<String>,
    pub hostname: Option<String>,
    pub username: Option<String>,
    pub repo: RepoStatus,
}

impl Environment {
    /// Builds a snapshot around the given working directory, querying the
    /// ambient facts (home directory, identity, repository) once, up front.
    /// The previous exit code starts at zero and the previous command
    /// duration as unknown.
    pub fn new(working_dir: Option<String>) -> (r: Environment)
        ensures
            r.working_dir == working_dir,
            r.prev_exit_code == 0,
            r.prev_cmd_duration is None,
            !r.force_alternative_prompt,
    {
        let repo = match &working_dir {
            Some(dir) => discover_repo_status(dir.as_str()),
            None => RepoStatus::NoRepo,
        };
        Environment {
            working_dir,
            prev_exit_code: 0,
            prev_cmd_duration: None,
            force_alternative_prompt: false,
            home_dir: home_dir_string(),
            hostname: current_hostname(),
            username: current_username(),
            repo,
        }
    }

    pub fn with_prev_exit_code(self, code: i32) -> (r: Environment)
        ensures
            r == (Environment { prev_exit_code: code, ..self }),
    {
        Environment { prev_exit_code: code, ..self }
    }

    pub fn with_prev_cmd_duration(self, d: Span) -> (r: Environment)
        ensures
            r == (Environment { prev_cmd_duration: Some(d), ..self }),
    {
        Environment { prev_cmd_duration: Some(d), ..self }
    }

    pub fn force_alternative_prompt(self, yes: bool) -> (r: Environment)
        ensures
            r == (Environment { force_alternative_prompt: yes, ..self }),
    {
        Environment { force_alternative_prompt: yes, ..self }
    }

    pub fn with_home_dir(self, home_dir: Option<String>) -> (r: Environment)
        ensures
            r == (Environment { home_dir, ..self }),
    {
        Environment { home_dir, ..self }
    }

    pub fn with_hostname(self, hostname: Option<String>) -> (r: Environment)
        ensures
            r == (Environment { hostname, ..self }),
    {
        Environment { hostname, ..self }
    }

    pub fn with_username(self, username: Option<String>) -> (r: Environment)
        ensures
            r == (Environment { username, ..self }),
    {
        Environment { username, ..self }
    }

    pub fn with_repo(self, repo: RepoStatus) -> (r: Environment)
        ensures
            r == (Environment { repo, ..self }),
    {
        Environment { repo, ..self }
    }

    pub fn working_dir(&self) -> (r: Option<&String>)
        ensures
            match r {
                Some(d) => self.working_dir == Some(*d),
                None => self.working_dir is None,
            },
    {
        self.working_dir.as_ref()
    }

    pub fn prev_exit_code(&self) -> (r: i32)
        ensures
            r == self.prev_exit_code,
    {
        self.prev_exit_code
    }

    pub fn prev_cmd_duration(&self) -> (r: Option<Span>)
        ensures
            r == self.prev_cmd_duration,
    {
        self.prev_cmd_duration
    }

    pub fn repo(&self) -> (r: &RepoStatus)
        ensures
            r == &self.repo,
    {
        &self.repo
    }

    /// Whether the alternative prompt should be used. The environment-derived
    /// triggers (terminal type, an explicit request) are resolved by whoever
    /// builds the snapshot; here they are one flag.
    pub fn alternative_prompt_is_used(&self) -> (r: bool)
        ensures
            r == self.force_alternative_prompt,
    {
        self.force_alternative_prompt
    }
}

} // verus!
