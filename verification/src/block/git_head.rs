use crate::block::{Block, SpecBlock};
use crate::env::{Environment, HeadName, RepoStatus};
use crate::style::{spec_no_style, Style};
use vstd::prelude::*;

verus! {

/// Produces the repository's HEAD branch: a prefix block and the branch
/// name, both in the configured style. A branch with no commits yet shows as
/// `master`; no repository, or an unreadable or unnameable HEAD, yields
/// nothing.
#[derive(Clone, Debug)]
pub struct GitHead {
    pub style: Style,
    pub prefix: String,
}

pub open spec fn spec_blocks(p: GitHead, env: Environment) -> Seq<SpecBlock> {
    match env.repo {
        RepoStatus::Repo(f) => match f.head {
            HeadName::Branch(n) => seq![
                SpecBlock { text: p.prefix@, style: p.style@ },
                SpecBlock { text: n@, style: p.style@ },
            ],
            HeadName::Unborn => seq![
                SpecBlock { text: p.prefix@, style: p.style@ },
                SpecBlock { text: "master"@, style: p.style@ },
            ],
            HeadName::Unnamed => Seq::<SpecBlock>::empty(),
            HeadName::Unavailable => Seq::<SpecBlock>::empty(),
        },
        RepoStatus::NoRepo => Seq::<SpecBlock>::empty(),
    }
}

impl GitHead {
    pub fn new() -> (r: GitHead)
        ensures
            r.prefix@ == "\u{e725}"@,
            r.style@ == spec_no_style(),
    {
        GitHead { style: Style::new(), prefix: String::from_str("\u{e725}") }
    }

    pub fn with_style(self, style: Style) -> (r: GitHead)
        ensures
            r.prefix@ == self.prefix@,
            r.style@ == style@,
    {
        GitHead { style, ..self }
    }

    pub fn with_prefix(self, prefix: &str) -> (r: GitHead)
        ensures
            r.prefix@ == prefix@,
            r.style@ == self.style@,
    {
        GitHead { prefix: String::from_str(prefix), ..self }
    }

    pub fn produce(&self, environment: &Environment) -> (r: Vec<Block>)
        ensures
            r.deep_view() == spec_blocks(*self, *environment),
    {
        let mut r: Vec<Block> = Vec::new();
        match &environment.repo {
            RepoStatus::Repo(f) => {
                let name: Option<&str> = match &f.head {
                    HeadName::Branch(n) => Some(n.as_str()),
                    HeadName::Unborn => Some("master"),
                    HeadName::Unnamed => None,
                    HeadName::Unavailable => None,
                };
                match name {
                    Some(n) => {
                        r.push(Block { text: self.prefix.clone(), style: self.style.duplicate() });
                        r.push(Block { text: String::from_str(n), style: self.style.duplicate() });
                    },
                    None => {},
                }
            },
            RepoStatus::NoRepo => {},
        }
        assert(r.deep_view() =~= spec_blocks(*self, *environment));
        r
    }
}

impl Default for GitHead {
    fn default() -> (r: GitHead)
        ensures
            r.prefix@ == "\u{e725}"@,
            r.style@ == spec_no_style(),
    {
        GitHead::new()
    }
}

} // verus!
