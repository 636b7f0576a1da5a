use crate::block::{Block, SpecBlock};
use crate::env::Environment;
use crate::paths::{spec_tilde, tilde_path};
use crate::style::{spec_no_style, Style};
use vstd::prelude::*;

verus! {

/// Produces the working directory: a prefix block and the directory, both in
/// the configured style. With `home_as_tilde` the home directory prefix is
/// abbreviated to `~`; an unknown working directory shows a marker.
#[derive(Clone, Debug)]
pub struct WorkingDirectory {
    pub style: Style,
    pub home_as_tilde: bool,
    pub prefix: String,
}

pub open spec fn spec_blocks(p: WorkingDirectory, env: Environment) -> Seq<SpecBlock> {
    let text = match env.working_dir {
        Some(d) => if p.home_as_tilde {
            spec_tilde(
                d@,
                match env.home_dir {
                    Some(h) => Some(h@),
                    None => None,
                },
            )
        } else {
            d@
        },
        None => "<NONE>"@,
    };
    seq![
        SpecBlock { text: p.prefix@, style: p.style@ },
        SpecBlock { text, style: p.style@ },
    ]
}

impl WorkingDirectory {
    pub fn new() -> (r: WorkingDirectory)
        ensures
            r.prefix@ == "\u{f07c}"@,
            r.style@ == spec_no_style(),
            r.home_as_tilde,
    {
        WorkingDirectory {
            style: Style::new(),
            home_as_tilde: true,
            prefix: String::from_str("\u{f07c}"),
        }
    }

    pub fn with_style(self, style: Style) -> (r: WorkingDirectory)
        ensures
            r.prefix@ == self.prefix@,
            r.style@ == style@,
            r.home_as_tilde == self.home_as_tilde,
    {
        WorkingDirectory { style, ..self }
    }

    pub fn with_home_as_tilde(self, home_as_tilde: bool) -> (r: WorkingDirectory)
        ensures
            r.prefix@ == self.prefix@,
            r.style@ == self.style@,
            r.home_as_tilde == home_as_tilde,
    {
        WorkingDirectory { home_as_tilde, ..self }
    }

    pub fn with_prefix(self, prefix: &str) -> (r: WorkingDirectory)
        ensures
            r.prefix@ == prefix@,
            r.style@ == self.style@,
            r.home_as_tilde == self.home_as_tilde,
    {
        WorkingDirectory { prefix: String::from_str(prefix), ..self }
    }

    pub fn produce(&self, environment: &Environment) -> (r: Vec<Block>)
        ensures
            r.deep_view() == spec_blocks(*self, *environment),
    {
        let text = match &environment.working_dir {
            Some(d) => if self.home_as_tilde {
                tilde_path(d.as_str(), &environment.home_dir)
            } else {
                d.clone()
            },
            None => String::from_str("<NONE>"),
        };
        let mut r: Vec<Block> = Vec::new();
        r.push(Block { text: self.prefix.clone(), style: self.style.duplicate() });
        r.push(Block { text, style: self.style.duplicate() });
        assert(r.deep_view() =~= spec_blocks(*self, *environment));
        r
    }
}

impl Default for WorkingDirectory {
    fn default() -> (r: WorkingDirectory)
        ensures
            r.prefix@ == "\u{f07c}"@,
            r.style@ == spec_no_style(),
            r.home_as_tilde,
    {
        WorkingDirectory::new()
    }
}

} // verus!
