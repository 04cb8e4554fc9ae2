use vstd::prelude::*;

verus! {

/// Builds `"hello, world"` and hands its ownership to the caller; the byte
/// views taken on the way only borrow or copy it.
pub fn give_ownership() -> (r: String)
    ensures
        r@ == "hello, world"@,
{
    let s = String::from_str("hello, world");
    let _s = s.as_str().as_bytes_vec();
    let _s1 = s.as_str().as_bytes();
    s
}

} // verus!
