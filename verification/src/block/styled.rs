use crate::block::{spec_produce, spec_styled_blocks, Block, BlockProducer, SpecBlock};
use crate::env::Environment;
use crate::style::{spec_no_style, spec_style_or, Style};
use vstd::prelude::*;

verus! {

/// Style-default overlay: evaluates its child and overlays a default style
/// onto every produced block — per block and per channel, a block's own
/// color wins if present, else the default's is used.
#[derive(Debug)]
pub struct Styled {
    pub style: Style,
    pub producer: Box<BlockProducer>,
}

impl Styled {
    pub fn new(producer: BlockProducer) -> (r: Styled)
        ensures
            *r.producer == producer,
            r.style@ == spec_no_style(),
    {
        Styled { style: Style::new(), producer: Box::new(producer) }
    }

    pub fn with_style(self, style: Style) -> (r: Styled)
        ensures
            r.producer == self.producer,
            r.style@ == style@,
    {
        Styled { style, ..self }
    }

    pub fn produce(&self, environment: &Environment) -> (r: Vec<Block>)
        ensures
            r.deep_view() == spec_styled_blocks(
                spec_produce(*self.producer, *environment),
                self.style@,
            ),
        decreases *self,
    {
        let blocks = self.producer.produce(environment);
        let ghost inner = blocks.deep_view();
        let mut out: Vec<Block> = Vec::new();
        let n = blocks.len();
        let mut j: usize = 0;
        while j < n
            invariant
                j <= n,
                n == blocks@.len(),
                inner == blocks.deep_view(),
                out.deep_view() =~= spec_styled_blocks(inner, self.style@).subrange(0, j as int),
            decreases n - j,
        {
            let b = &blocks[j];
            let nb = Block { text: b.text.clone(), style: b.style.or(&self.style) };
            let ghost nbv = nb.deep_view();
            let ghost old_v = out@;
            let ghost old_dv = out.deep_view();
            out.push(nb);
            proof {
                assert(nbv == (SpecBlock {
                    text: inner[j as int].text,
                    style: spec_style_or(inner[j as int].style, self.style@),
                }));
                assert(spec_styled_blocks(inner, self.style@)[j as int] == nbv);
                assert forall|i: int| 0 <= i < old_v.len() implies #[trigger] out@[i]
                    == old_v[i] by {
                    assert(out@ == old_v.push(nb));
                }
                assert(out.deep_view() =~= old_dv.push(nbv));
                assert(out.deep_view() =~= spec_styled_blocks(inner, self.style@).subrange(
                    0,
                    j as int + 1,
                ));
            }
            j = j + 1;
        }
        proof {
            assert(spec_styled_blocks(inner, self.style@).subrange(0, n as int) =~= spec_styled_blocks(inner, self.style@));
        }
        out
    }
}

} // verus!
