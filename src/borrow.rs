use std::collections::HashMap;
use std::hash::Hash;
use vstd::prelude::*;
use vstd::std_specs::hash::obeys_key_model;

verus! {

broadcast use vstd::std_specs::hash::group_hash_axioms;

/// Takes a mutable borrow of a string and hands it back untouched.
pub fn borrow_object(_s: &mut String)
    ensures
        *final(_s) == *old(_s),
{
}

/// Returns a mutable reference to the value stored under `key`, first
/// storing `V::default()` there when the key is absent.
pub fn get_default<'m, K, V>(map: &'m mut HashMap<K, V>, key: K) -> (r: &'m mut V) where
    K: Clone + Eq + Hash,
    V: Default,

    ensures
        obeys_key_model::<K>() ==> {
            &&& old(map)@.contains_key(key) ==> *r == old(map)@[key]
            &&& !old(map)@.contains_key(key) ==> call_ensures(V::default, (), *r)
            &&& final(map)@ == old(map)@.insert(key, *final(r))
        },
{
    map.entry(key).or_insert(V::default())
}

/// Returns the string stored under `key`; when the key is absent, stores
/// `"third"` there and returns it.
pub fn get_default_third<'a>(map: &'a mut HashMap<usize, &str>, key: usize) -> (r: &'a str)
    ensures
        old(map)@.contains_key(key) ==> r == old(map)@[key] && final(map)@ == old(map)@,
        !old(map)@.contains_key(key) ==> r@ == "third"@ && final(map)@ == old(map)@.insert(
            key,
            "third",
        ),
{
    if let Some(v) = map.get(&key) {
        return *v;
    }
    map.insert(key, "third");
    "third"
}

} // verus!
