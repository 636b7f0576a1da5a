use crate::block::{Block, SpecBlock};
use crate::env::Environment;
use crate::style::{spec_no_style, Style};
use vstd::prelude::*;

verus! {

/// Produces one fixed symbol whose style depends on whether the previous
/// command succeeded. An empty symbol yields nothing.
#[derive(Clone, Debug)]
pub struct ExitStatusSymbol {
    pub style: Style,
    pub error_style: Style,
    pub contents: String,
}

pub open spec fn spec_blocks(p: ExitStatusSymbol, env: Environment) -> Seq<SpecBlock> {
    if p.contents@.len() == 0 {
        Seq::<SpecBlock>::empty()
    } else {
        seq![
            SpecBlock {
                text: p.contents@,
                style: if env.prev_exit_code == 0 {
                    p.style@
                } else {
                    p.error_style@
                },
            },
        ]
    }
}

impl ExitStatusSymbol {
    pub fn new(contents: &str) -> (r: ExitStatusSymbol)
        ensures
            r.contents@ == contents@,
            r.style@ == spec_no_style(),
            r.error_style@ == spec_no_style(),
    {
        ExitStatusSymbol {
            style: Style::new(),
            error_style: Style::new(),
            contents: String::from_str(contents),
        }
    }

    pub fn with_style(self, style: Style) -> (r: ExitStatusSymbol)
        ensures
            r.contents@ == self.contents@,
            r.style@ == style@,
            r.error_style@ == self.error_style@,
    {
        ExitStatusSymbol { style, ..self }
    }

    pub fn with_error_style(self, style: Style) -> (r: ExitStatusSymbol)
        ensures
            r.contents@ == self.contents@,
            r.style@ == self.style@,
            r.error_style@ == style@,
    {
        ExitStatusSymbol { error_style: style, ..self }
    }

    pub fn produce(&self, environment: &Environment) -> (r: Vec<Block>)
        ensures
            r.deep_view() == spec_blocks(*self, *environment),
    {
        let mut r: Vec<Block> = Vec::new();
        if self.contents.as_str().unicode_len() > 0 {
            let style = if environment.prev_exit_code == 0 {
                self.style.duplicate()
            } else {
                self.error_style.duplicate()
            };
            r.push(Block { text: self.contents.clone(), style });
        }
        assert(r.deep_view() =~= spec_blocks(*self, *environment));
        r
    }
}

} // verus!
