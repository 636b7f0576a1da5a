use crate::block::{Block, SpecBlock};
use crate::env::Environment;
use crate::style::{spec_no_style, Style};
use vstd::prelude::*;

verus! {

/// Produces one block of fixed text.
#[derive(Clone, Debug)]
pub struct Text {
    pub style: Style,
    pub contents: String,
}

pub open spec fn spec_blocks(p: Text, env: Environment) -> Seq<SpecBlock> {
    seq![SpecBlock { text: p.contents@, style: p.style@ }]
}

impl Text {
    pub fn new(contents: &str) -> (r: Text)
        ensures
            r.contents@ == contents@,
            r.style@ == spec_no_style(),
    {
        Text { style: Style::new(), contents: String::from_str(contents) }
    }

    pub fn with_style(self, style: Style) -> (r: Text)
        ensures
            r.contents@ == self.contents@,
            r.style@ == style@,
    {
        Text { style, ..self }
    }

    pub fn produce(&self, environment: &Environment) -> (r: Vec<Block>)
        ensures
            r.deep_view() == spec_blocks(*self, *environment),
    {
        let mut r: Vec<Block> = Vec::new();
        r.push(Block { text: self.contents.clone(), style: self.style.duplicate() });
        assert(r.deep_view() =~= spec_blocks(*self, *environment));
        r
    }
}

} // verus!
