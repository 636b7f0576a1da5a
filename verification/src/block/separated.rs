use crate::block::{spec_separated_from, Block, BlockProducer, SpecBlock};
use crate::env::Environment;
use crate::style::{spec_no_style, Style};
use vstd::prelude::*;

verus! {

/// Separator interleaving: yields every child's result in order, with one
/// separator block between consecutive non-empty results — never before the
/// first, after the last, or next to an empty result.
#[derive(Debug)]
pub struct Separated {
    pub separator_style: Style,
    pub separator: String,
    pub producers: Vec<BlockProducer>,
}

/// The separator block a `Separated` inserts.
pub open spec fn spec_separator_block(s: Separated) -> SpecBlock {
    SpecBlock { text: s.separator@, style: s.separator_style@ }
}

impl Separated {
    pub fn new(producers: Vec<BlockProducer>) -> (r: Separated)
        ensures
            r.producers == producers,
            r.separator@ == " | "@,
            r.separator_style@ == spec_no_style(),
    {
        Separated {
            separator_style: Style::new(),
            separator: String::from_str(" | "),
            producers,
        }
    }

    pub fn with_style(self, style: Style) -> (r: Separated)
        ensures
            r.producers == self.producers,
            r.separator@ == self.separator@,
            r.separator_style@ == style@,
    {
        Separated { separator_style: style, ..self }
    }

    pub fn with_separator(self, separator: &str) -> (r: Separated)
        ensures
            r.producers == self.producers,
            r.separator@ == separator@,
            r.separator_style@ == self.separator_style@,
    {
        Separated { separator: String::from_str(separator), ..self }
    }

    pub fn produce(&self, environment: &Environment) -> (r: Vec<Block>)
        ensures
            r.deep_view() == spec_separated_from(
                self.producers@,
                spec_separator_block(*self),
                *environment,
                false,
            ),
        decreases *self,
    {
        proof {
            assert(self.producers@.skip(0) =~= self.producers@);
        }
        separated_from(self, 0, false, environment)
    }
}

impl Default for Separated {
    fn default() -> (r: Separated)
        ensures
            r.producers@.len() == 0,
            r.separator@ == " | "@,
            r.separator_style@ == spec_no_style(),
    {
        Separated::new(Vec::new())
    }
}

/// Evaluates the children from index `i` on, `prev` recording whether a
/// non-empty result came before.
fn separated_from(s: &Separated, i: usize, prev: bool, environment: &Environment) -> (r: Vec<
    Block,
>)
    requires
        i <= s.producers@.len(),
    ensures
        r.deep_view() == spec_separated_from(
            s.producers@.skip(i as int),
            spec_separator_block(*s),
            *environment,
            prev,
        ),
    decreases s.producers@, s.producers@.len() - i,
{
    if i == s.producers.len() {
        let r: Vec<Block> = Vec::new();
        proof {
            assert(s.producers@.skip(i as int) =~= Seq::<BlockProducer>::empty());
            assert(r.deep_view() =~= Seq::<SpecBlock>::empty());
        }
        r
    } else {
        proof {
            assert(decreases_to!(s.producers@ => s.producers@[i as int]));
            assert(s.producers@.skip(i as int)[0] == s.producers@[i as int]);
            assert(s.producers@.skip(i as int).drop_first() =~= s.producers@.skip(i as int + 1));
        }
        let mut blocks = s.producers[i].produce(environment);
        let nonempty = blocks.len() > 0;
        let mut out: Vec<Block> = Vec::new();
        if prev && nonempty {
            out.push(Block::new(s.separator.as_str()).with_style(s.separator_style.duplicate()));
        }
        let ghost lead = out.deep_view();
        let ghost here = blocks.deep_view();
        out.append(&mut blocks);
        let mut rest = separated_from(s, i + 1, prev || nonempty, environment);
        let ghost rest_view = rest.deep_view();
        out.append(&mut rest);
        proof {
            assert(out.deep_view() =~= lead + here + rest_view);
            if prev && nonempty {
                assert(lead =~= seq![spec_separator_block(*s)]);
            } else {
                assert(lead =~= Seq::<SpecBlock>::empty());
            }
        }
        out
    }
}

} // verus!
