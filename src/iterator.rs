use vstd::prelude::*;

verus! {

/// The largest value a [`Counter`] hands out.
pub const COUNTER_LIMIT: u32 = 5;

/// Counts from one up to [`COUNTER_LIMIT`], one value per call of `next`.
pub struct Counter {
    pub counter: u32,
}

impl Counter {
    /// A counter that has handed out nothing yet.
    pub fn new() -> (r: Counter)
        ensures
            r.counter == 0,
    {
        Counter { counter: 0 }
    }

    /// The next value, or `None` once the limit has been handed out.
    pub fn next(&mut self) -> (r: Option<u32>)
        ensures
            old(self).counter < COUNTER_LIMIT ==> final(self).counter == old(self).counter + 1
                && r == Some(final(self).counter),
            old(self).counter >= COUNTER_LIMIT ==> final(self).counter == old(self).counter
                && r == None::<u32>,
    {
        if self.counter < COUNTER_LIMIT {
            self.counter += 1;
            Some(self.counter)
        } else {
            None
        }
    }
}

/// A shoe of a given size and style.
pub struct Shoe {
    pub size: u32,
    pub style: String,
}

/// The shoes of `shoes` whose size is `shoe_size`, in their original order.
pub fn shoes_in_size(shoes: Vec<Shoe>, shoe_size: u32) -> (r: Vec<Shoe>)
    ensures
        r@ == shoes@.filter(|s: Shoe| s.size == shoe_size),
{
    let ghost all = shoes@;
    let mut r: Vec<Shoe> = Vec::new();
    let mut rest = shoes;
    while rest.len() > 0
        invariant
            rest@.len() <= all.len(),
            rest@ == all.subrange(all.len() - rest@.len(), all.len() as int),
            r@ == all.subrange(0, all.len() - rest@.len()).filter(|s: Shoe| s.size == shoe_size),
        decreases rest.len(),
    {
        let ghost before = rest@;
        let s = rest.remove(0);
        proof {
            let k = all.len() - rest@.len();
            assert(s == before[0]);
            assert(rest@ =~= all.subrange(k, all.len() as int));
            assert(all.subrange(0, k) =~= all.subrange(0, k - 1).push(all[k - 1]));
            all.subrange(0, k - 1).lemma_filter_push(all[k - 1], |s: Shoe| s.size == shoe_size);
        }
        if s.size == shoe_size {
            r.push(s);
        }
    }
    proof {
        assert(all.subrange(0, all.len() as int) == all);
    }
    r
}

} // verus!
