//! Filtering a shoe stock by size.

use vstd::prelude::*;

verus! {

#[derive(PartialEq, Debug)]
pub struct Shoe {
    pub size: u32,
    pub style: String,
}

/// The shoes among `shoes` of exactly the wanted size, in order.
pub open spec fn shoes_matching(shoes: Seq<Shoe>, shoe_size: u32) -> Seq<Shoe>
    decreases shoes.len(),
{
    if shoes.len() == 0 {
        Seq::empty()
    } else {
        let init = shoes_matching(shoes.drop_last(), shoe_size);
        if shoes.last().size == shoe_size {
            init.push(shoes.last())
        } else {
            init
        }
    }
}

/// Keep exactly the shoes of the wanted size, in their original order; the
/// stock is consumed.
#[verifier::loop_isolation(false)]
pub fn shoes_in_size(shoes: Vec<Shoe>, shoe_size: u32) -> (fitting: Vec<Shoe>)
    ensures
        fitting@ == shoes_matching(shoes@, shoe_size),
{
    let ghost all = shoes@;
    let mut rest = shoes;
    let mut fitting: Vec<Shoe> = Vec::new();
    while rest.len() > 0
        invariant
            rest@.len() <= all.len(),
            rest@ == all.subrange(all.len() - rest@.len(), all.len() as int),
            fitting@ == shoes_matching(all.take(all.len() - rest@.len()), shoe_size),
        decreases rest@.len(),
    {
        let ghost k = all.len() - rest@.len();
        let shoe = rest.remove(0);
        proof {
            assert(shoe == all[k as int]);
            assert(rest@ =~= all.subrange(k + 1, all.len() as int));
            assert(all.take(k + 1).drop_last() =~= all.take(k as int));
        }
        if shoe.size == shoe_size {
            fitting.push(shoe);
        }
    }
    proof {
        assert(all.take(all.len() as int) =~= all);
    }
    fitting
}

} // verus!
