use crate::block::{Block, SpecBlock};
use crate::env::Environment;
use crate::style::spec_no_style;
use vstd::prelude::*;

verus! {

/// Produces a single unstyled space block.
#[derive(Clone, Debug)]
pub struct Space;

pub open spec fn spec_blocks(p: Space, env: Environment) -> Seq<SpecBlock> {
    seq![SpecBlock { text: " "@, style: spec_no_style() }]
}

impl Space {
    pub fn produce(&self, environment: &Environment) -> (r: Vec<Block>)
        ensures
            r.deep_view() == spec_blocks(*self, *environment),
    {
        let mut r: Vec<Block> = Vec::new();
        r.push(Block::new(" "));
        assert(r.deep_view() =~= spec_blocks(*self, *environment));
        r
    }
}

} // verus!
