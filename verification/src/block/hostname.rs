use crate::block::{Block, SpecBlock};
use crate::env::Environment;
use crate::style::{spec_no_style, Style};
use vstd::prelude::*;

verus! {

/// Produces the machine's hostname: a prefix block and the name, both in the
/// configured style. An unknown hostname yields nothing.
#[derive(Clone, Debug)]
pub struct Hostname {
    pub style: Style,
    pub prefix: String,
}

pub open spec fn spec_blocks(p: Hostname, env: Environment) -> Seq<SpecBlock> {
    match env.hostname {
        Some(h) => seq![
            SpecBlock { text: p.prefix@, style: p.style@ },
            SpecBlock { text: h@, style: p.style@ },
        ],
        None => Seq::<SpecBlock>::empty(),
    }
}

impl Hostname {
    pub fn new() -> (r: Hostname)
        ensures
            r.prefix@ == ""@,
            r.style@ == spec_no_style(),
    {
        proof {
            reveal_strlit("");
            assert(""@ =~= Seq::<char>::empty());
        }
        Hostname { style: Style::new(), prefix: String::new() }
    }

    pub fn with_style(self, style: Style) -> (r: Hostname)
        ensures
            r.prefix@ == self.prefix@,
            r.style@ == style@,
    {
        Hostname { style, ..self }
    }

    pub fn with_prefix(self, prefix: &str) -> (r: Hostname)
        ensures
            r.prefix@ == prefix@,
            r.style@ == self.style@,
    {
        Hostname { prefix: String::from_str(prefix), ..self }
    }

    pub fn produce(&self, environment: &Environment) -> (r: Vec<Block>)
        ensures
            r.deep_view() == spec_blocks(*self, *environment),
    {
        let mut r: Vec<Block> = Vec::new();
        match &environment.hostname {
            Some(h) => {
                r.push(Block { text: self.prefix.clone(), style: self.style.duplicate() });
                r.push(Block { text: h.clone(), style: self.style.duplicate() });
            },
            None => {},
        }
        assert(r.deep_view() =~= spec_blocks(*self, *environment));
        r
    }
}

} // verus!
