use crate::block::{Block, SpecBlock};
use crate::digits::{i32_text, spec_int_text};
use crate::env::Environment;
use crate::style::{spec_no_style, Style};
use vstd::prelude::*;

verus! {

/// Produces the previous command's exit code when it was non-zero: a prefix
/// block and the decimal code, both in the configured style. A zero exit
/// code yields nothing.
#[derive(Clone, Debug)]
pub struct ExitCode {
    pub style: Style,
    pub prefix: String,
}

pub open spec fn spec_blocks(p: ExitCode, env: Environment) -> Seq<SpecBlock> {
    if env.prev_exit_code == 0 {
        Seq::<SpecBlock>::empty()
    } else {
        seq![
            SpecBlock { text: p.prefix@, style: p.style@ },
            SpecBlock { text: spec_int_text(env.prev_exit_code as int), style: p.style@ },
        ]
    }
}

impl ExitCode {
    pub fn new() -> (r: ExitCode)
        ensures
            r.prefix@ == "\u{f071}"@,
            r.style@ == spec_no_style(),
    {
        ExitCode { style: Style::new(), prefix: String::from_str("\u{f071}") }
    }

    pub fn with_style(self, style: Style) -> (r: ExitCode)
        ensures
            r.prefix@ == self.prefix@,
            r.style@ == style@,
    {
        ExitCode { style, ..self }
    }

    pub fn with_prefix(self, prefix: &str) -> (r: ExitCode)
        ensures
            r.prefix@ == prefix@,
            r.style@ == self.style@,
    {
        ExitCode { prefix: String::from_str(prefix), ..self }
    }

    pub fn produce(&self, environment: &Environment) -> (r: Vec<Block>)
        ensures
            r.deep_view() == spec_blocks(*self, *environment),
    {
        let mut r: Vec<Block> = Vec::new();
        if environment.prev_exit_code != 0 {
            r.push(Block { text: self.prefix.clone(), style: self.style.duplicate() });
            r.push(
                Block { text: i32_text(environment.prev_exit_code), style: self.style.duplicate() },
            );
        }
        assert(r.deep_view() =~= spec_blocks(*self, *environment));
        r
    }
}

impl Default for ExitCode {
    fn default() -> (r: ExitCode)
        ensures
            r.prefix@ == "\u{f071}"@,
            r.style@ == spec_no_style(),
    {
        ExitCode::new()
    }
}

} // verus!
