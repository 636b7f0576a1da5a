use crate::block::{Block, SpecBlock};
use crate::env::Environment;
use crate::style::{spec_no_style, Style};
use vstd::prelude::*;

verus! {

/// Produces the current user's login name: a prefix block and the name, both
/// in the configured style. An unknown username yields nothing.
#[derive(Clone, Debug)]
pub struct Username {
    pub style: Style,
    pub prefix: String,
}

pub open spec fn spec_blocks(p: Username, env: Environment) -> Seq<SpecBlock> {
    match env.username {
        Some(u) => seq![
            SpecBlock { text: p.prefix@, style: p.style@ },
            SpecBlock { text: u@, style: p.style@ },
        ],
        None => Seq::<SpecBlock>::empty(),
    }
}

impl Username {
    pub fn new() -> (r: Username)
        ensures
            r.prefix@ == ""@,
            r.style@ == spec_no_style(),
    {
        proof {
            reveal_strlit("");
            assert(""@ =~= Seq::<char>::empty());
        }
        Username { style: Style::new(), prefix: String::new() }
    }

    pub fn with_style(self, style: Style) -> (r: Username)
        ensures
            r.prefix@ == self.prefix@,
            r.style@ == style@,
    {
        Username { style, ..self }
    }

    pub fn with_prefix(self, prefix: &str) -> (r: Username)
        ensures
            r.prefix@ == prefix@,
            r.style@ == self.style@,
    {
        Username { prefix: String::from_str(prefix), ..self }
    }

    pub fn produce(&self, environment: &Environment) -> (r: Vec<Block>)
        ensures
            r.deep_view() == spec_blocks(*self, *environment),
    {
        let mut r: Vec<Block> = Vec::new();
        match &environment.username {
            Some(u) => {
                r.push(Block { text: self.prefix.clone(), style: self.style.duplicate() });
                r.push(Block { text: u.clone(), style: self.style.duplicate() });
            },
            None => {},
        }
        assert(r.deep_view() =~= spec_blocks(*self, *environment));
        r
    }
}

} // verus!
