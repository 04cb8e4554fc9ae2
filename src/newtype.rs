use vstd::prelude::*;

verus! {

/// A list of strings under a type of its own, so that it can carry its own
/// textual form.
pub struct Wrapper(pub Vec<String>);

/// The items joined in order, with `", "` between neighbours.
pub open spec fn comma_joined(items: Seq<Seq<char>>) -> Seq<char>
    decreases items.len(),
{
    if items.len() == 0 {
        Seq::empty()
    } else if items.len() == 1 {
        items[0]
    } else {
        comma_joined(items.drop_last()) + seq![',', ' '] + items.last()
    }
}

/// The character sequences of a list of strings.
pub open spec fn texts(v: Seq<String>) -> Seq<Seq<char>> {
    v.map_values(|s: String| s@)
}

impl Wrapper {
    /// The strings in brackets, separated by `", "`: `[hello, world]`.
    pub fn fmt(&self) -> (r: String)
        ensures
            r@ == seq!['['] + comma_joined(texts(self.0@)) + seq![']'],
    {
        proof {
            reveal_strlit("[");
            reveal_strlit("]");
        }
        let ghost items = texts(self.0@);
        let mut r = String::from_str("[");
        let mut i: usize = 0;
        while i < self.0.len()
            invariant
                i <= self.0@.len(),
                items == texts(self.0@),
                r@ == seq!['['] + comma_joined(items.subrange(0, i as int)),
            decreases self.0.len() - i,
        {
            let ghost before = r@;
            if i > 0 {
                r.append(", ");
            }
            r.append(self.0[i].as_str());
            proof {
                let next = items.subrange(0, i + 1);
                assert(next.drop_last() =~= items.subrange(0, i as int));
                assert(next.last() == self.0@[i as int]@);
                if i == 0 {
                    assert(r@ =~= seq!['['] + comma_joined(next));
                } else {
                    reveal_strlit(", ");
                    assert(", "@ =~= seq![',', ' ']);
                    assert(comma_joined(next) == comma_joined(next.drop_last()) + seq![',', ' ']
                        + next.last());
                    assert(r@ =~= seq!['['] + comma_joined(next));
                }
            }
            i += 1;
        }
        r.append("]");
        proof {
            assert(items.subrange(0, i as int) =~= items);
        }
        r
    }
}

} // verus!
