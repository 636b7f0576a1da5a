use crate::block::{spec_or_produce, Block, BlockProducer};
use crate::env::Environment;
use vstd::prelude::*;

verus! {

/// First-non-empty choice: yields the result of the first child whose result
/// is non-empty, and nothing if every child yields nothing. Children after
/// the first success are not evaluated.
#[derive(Debug)]
pub struct Or(pub Vec<BlockProducer>);

impl Or {
    pub fn produce(&self, environment: &Environment) -> (r: Vec<Block>)
        ensures
            r.deep_view() == spec_or_produce(self.0@, *environment),
        decreases *self,
    {
        proof {
            assert(self.0@.skip(0) =~= self.0@);
        }
        or_from(&self.0, 0, environment)
    }
}

impl Default for Or {
    fn default() -> (r: Or)
        ensures
            r.0@.len() == 0,
    {
        Or(Vec::new())
    }
}

/// Evaluates the children from index `i` on, stopping at the first non-empty
/// result.
fn or_from(list: &Vec<BlockProducer>, i: usize, environment: &Environment) -> (r: Vec<Block>)
    requires
        i <= list@.len(),
    ensures
        r.deep_view() == spec_or_produce(list@.skip(i as int), *environment),
    decreases list@, list@.len() - i,
{
    if i == list.len() {
        let r: Vec<Block> = Vec::new();
        proof {
            assert(list@.skip(i as int) =~= Seq::<BlockProducer>::empty());
            assert(r.deep_view() =~= Seq::<crate::block::SpecBlock>::empty());
        }
        r
    } else {
        proof {
            assert(decreases_to!(list@ => list@[i as int]));
            assert(list@.skip(i as int)[0] == list@[i as int]);
            assert(list@.skip(i as int).drop_first() =~= list@.skip(i as int + 1));
        }
        let blocks = list[i].produce(environment);
        if blocks.len() > 0 {
            blocks
        } else {
            or_from(list, i + 1, environment)
        }
    }
}

} // verus!
