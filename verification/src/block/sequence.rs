use crate::block::{spec_sequence_produce, Block, BlockProducer};
use crate::env::Environment;
use vstd::prelude::*;

verus! {

/// Ordered concatenation: yields every child's result in order; empty
/// results contribute nothing, not placeholders.
#[derive(Debug)]
pub struct Sequence(pub Vec<BlockProducer>);

impl Sequence {
    pub fn produce(&self, environment: &Environment) -> (r: Vec<Block>)
        ensures
            r.deep_view() == spec_sequence_produce(self.0@, *environment),
        decreases *self,
    {
        proof {
            assert(self.0@.skip(0) =~= self.0@);
        }
        sequence_from(&self.0, 0, environment)
    }
}

impl Default for Sequence {
    fn default() -> (r: Sequence)
        ensures
            r.0@.len() == 0,
    {
        Sequence(Vec::new())
    }
}

/// Concatenates the results of the children from index `i` on.
fn sequence_from(list: &Vec<BlockProducer>, i: usize, environment: &Environment) -> (r: Vec<Block>)
    requires
        i <= list@.len(),
    ensures
        r.deep_view() == spec_sequence_produce(list@.skip(i as int), *environment),
    decreases list@, list@.len() - i,
{
    if i == list.len() {
        let r: Vec<Block> = Vec::new();
        proof {
            assert(list@.skip(i as int) =~= Seq::<BlockProducer>::empty());
            assert(r.deep_view() =~= Seq::<crate::block::SpecBlock>::empty());
        }
        r
    } else {
        proof {
            assert(decreases_to!(list@ => list@[i as int]));
            assert(list@.skip(i as int)[0] == list@[i as int]);
            assert(list@.skip(i as int).drop_first() =~= list@.skip(i as int + 1));
        }
        let mut blocks = list[i].produce(environment);
        let mut rest = sequence_from(list, i + 1, environment);
        let ghost blocks_before = blocks.deep_view();
        let ghost rest_view = rest.deep_view();
        blocks.append(&mut rest);
        proof {
            assert(blocks.deep_view() =~= blocks_before + rest_view);
        }
        blocks
    }
}

} // verus!
