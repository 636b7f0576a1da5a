use crate::block::{Block, SpecBlock};
use crate::env::{Environment, RepoStatus};
use crate::paths::{parent_dir, spec_parent, spec_strip_prefix, strip_path_prefix};
use crate::style::{spec_no_style, Style};
use vstd::prelude::*;

verus! {

/// Produces the working directory relative to the directory containing the
/// repository: a prefix block and that relative path, both in the configured
/// style. A bare repository, no repository, or a working directory outside
/// the repository's parent yields nothing.
#[derive(Clone, Debug)]
pub struct GitPath {
    pub style: Style,
    pub prefix: String,
}

/// The text of the path block: the working directory stripped of the parent
/// of the repository's work tree (the work tree being the parent of the
/// repository directory itself).
pub open spec fn spec_repo_relative(
    git_dir: Seq<char>,
    working_dir: Option<Seq<char>>,
) -> Option<Seq<char>> {
    match spec_parent(git_dir) {
        Some(work_tree) => match spec_parent(work_tree) {
            Some(base) => match working_dir {
                Some(pwd) => spec_strip_prefix(pwd, base),
                None => None,
            },
            None => None,
        },
        None => None,
    }
}

pub open spec fn spec_blocks(p: GitPath, env: Environment) -> Seq<SpecBlock> {
    match env.repo {
        RepoStatus::Repo(f) => if f.bare {
            Seq::<SpecBlock>::empty()
        } else {
            match spec_repo_relative(
                f.git_dir@,
                match env.working_dir {
                    Some(d) => Some(d@),
                    None => None,
                },
            ) {
                Some(rel) => seq![
                    SpecBlock { text: p.prefix@, style: p.style@ },
                    SpecBlock { text: rel, style: p.style@ },
                ],
                None => Seq::<SpecBlock>::empty(),
            }
        },
        RepoStatus::NoRepo => Seq::<SpecBlock>::empty(),
    }
}

impl GitPath {
    pub fn new() -> (r: GitPath)
        ensures
            r.prefix@ == "\u{f7a1}"@,
            r.style@ == spec_no_style(),
    {
        GitPath { style: Style::new(), prefix: String::from_str("\u{f7a1}") }
    }

    pub fn with_style(self, style: Style) -> (r: GitPath)
        ensures
            r.prefix@ == self.prefix@,
            r.style@ == style@,
    {
        GitPath { style, ..self }
    }

    pub fn with_prefix(self, prefix: &str) -> (r: GitPath)
        ensures
            r.prefix@ == prefix@,
            r.style@ == self.style@,
    {
        GitPath { prefix: String::from_str(prefix), ..self }
    }

    pub fn produce(&self, environment: &Environment) -> (r: Vec<Block>)
        ensures
            r.deep_view() == spec_blocks(*self, *environment),
    {
        let mut r: Vec<Block> = Vec::new();
        match &environment.repo {
            RepoStatus::Repo(f) => {
                if !f.bare {
                    let rel = repo_relative(&f.git_dir, &environment.working_dir);
                    match rel {
                        Some(text) => {
                            r.push(
                                Block { text: self.prefix.clone(), style: self.style.duplicate() },
                            );
                            r.push(Block { text, style: self.style.duplicate() });
                        },
                        None => {},
                    }
                }
            },
            RepoStatus::NoRepo => {},
        }
        assert(r.deep_view() =~= spec_blocks(*self, *environment));
        r
    }
}

fn repo_relative(git_dir: &String, working_dir: &Option<String>) -> (r: Option<String>)
    ensures
        match r {
            Some(rel) => spec_repo_relative(
                git_dir@,
                match working_dir {
                    Some(d) => Some(d@),
                    None => None,
                },
            ) == Some(rel@),
            None => spec_repo_relative(
                git_dir@,
                match working_dir {
                    Some(d) => Some(d@),
                    None => None,
                },
            ) is None,
        },
{
    match parent_dir(git_dir.as_str()) {
        Some(work_tree) => match parent_dir(work_tree.as_str()) {
            Some(base) => match working_dir {
                Some(pwd) => strip_path_prefix(pwd.as_str(), base.as_str()),
                None => None,
            },
            None => None,
        },
        None => None,
    }
}

impl Default for GitPath {
    fn default() -> (r: GitPath)
        ensures
            r.prefix@ == "\u{f7a1}"@,
            r.style@ == spec_no_style(),
    {
        GitPath::new()
    }
}

} // verus!
