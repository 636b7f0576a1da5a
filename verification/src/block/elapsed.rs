use crate::block::{Block, SpecBlock};
use crate::env::Environment;
use crate::span::Span;
use crate::style::{spec_no_style, Style};
use vstd::prelude::*;

verus! {

/// The name of the humantime rendering of a duration given in milliseconds
/// (for example `5s`, or `2h 37m`). The text depends on the duration alone.
pub uninterp spec fn duration_text(millis: u64) -> Seq<char>;

/// Relies on `humantime::format_duration`: renders a duration as
/// human-readable text.
#[verifier::external_body]
fn humantime_text(millis: u64) -> (r: String)
    ensures
        r@ == duration_text(millis),
{
    humantime::format_duration(std::time::Duration::from_millis(millis)).to_string()
}

/// Produces the previous command's duration when it reached the configured
/// threshold: a prefix block and the rendered duration, both in the
/// configured style. An unknown or below-threshold duration yields nothing.
#[derive(Clone, Debug)]
pub struct Elapsed {
    pub style: Style,
    pub prefix: String,
    pub threshold: Span,
}

pub open spec fn spec_blocks(p: Elapsed, env: Environment) -> Seq<SpecBlock> {
    match env.prev_cmd_duration {
        Some(d) => if d.millis >= p.threshold.millis {
            seq![
                SpecBlock { text: p.prefix@, style: p.style@ },
                SpecBlock { text: duration_text(d.millis), style: p.style@ },
            ]
        } else {
            Seq::<SpecBlock>::empty()
        },
        None => Seq::<SpecBlock>::empty(),
    }
}

impl Elapsed {
    pub fn new() -> (r: Elapsed)
        ensures
            r.prefix@ == "\u{fa1a}"@,
            r.style@ == spec_no_style(),
            r.threshold.millis == 2000,
    {
        Elapsed {
            style: Style::new(),
            prefix: String::from_str("\u{fa1a}"),
            threshold: Span::from_millis(2000),
        }
    }

    pub fn with_style(self, style: Style) -> (r: Elapsed)
        ensures
            r.prefix@ == self.prefix@,
            r.style@ == style@,
            r.threshold == self.threshold,
    {
        Elapsed { style, ..self }
    }

    pub fn with_prefix(self, prefix: &str) -> (r: Elapsed)
        ensures
            r.prefix@ == prefix@,
            r.style@ == self.style@,
            r.threshold == self.threshold,
    {
        Elapsed { prefix: String::from_str(prefix), ..self }
    }

    pub fn with_threshold(self, threshold: Span) -> (r: Elapsed)
        ensures
            r.prefix@ == self.prefix@,
            r.style@ == self.style@,
            r.threshold == threshold,
    {
        Elapsed { threshold, ..self }
    }

    pub fn produce(&self, environment: &Environment) -> (r: Vec<Block>)
        ensures
            r.deep_view() == spec_blocks(*self, *environment),
    {
        let mut r: Vec<Block> = Vec::new();
        match environment.prev_cmd_duration {
            Some(d) => {
                if d.millis >= self.threshold.millis {
                    r.push(Block { text: self.prefix.clone(), style: self.style.duplicate() });
                    r.push(Block { text: humantime_text(d.millis), style: self.style.duplicate() });
                }
            },
            None => {},
        }
        assert(r.deep_view() =~= spec_blocks(*self, *environment));
        r
    }
}

impl Default for Elapsed {
    fn default() -> (r: Elapsed)
        ensures
            r.prefix@ == "\u{fa1a}"@,
            r.style@ == spec_no_style(),
            r.threshold.millis == 2000,
    {
        Elapsed::new()
    }
}

} // verus!
