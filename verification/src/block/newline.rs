use crate::block::{Block, SpecBlock};
use crate::env::Environment;
use crate::style::spec_no_style;
use vstd::prelude::*;

verus! {

/// Produces a single unstyled newline block.
#[derive(Clone, Debug)]
pub struct Newline;

pub open spec fn spec_blocks(p: Newline, env: Environment) -> Seq<SpecBlock> {
    seq![SpecBlock { text: "\n"@, style: spec_no_style() }]
}

impl Newline {
    pub fn produce(&self, environment: &Environment) -> (r: Vec<Block>)
        ensures
            r.deep_view() == spec_blocks(*self, *environment),
    {
        let mut r: Vec<Block> = Vec::new();
        r.push(Block::new("\n"));
        assert(r.deep_view() =~= spec_blocks(*self, *environment));
        r
    }
}

} // verus!
