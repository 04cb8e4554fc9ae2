use vstd::prelude::*;

verus! {

/// Remembers the first value that `query` computes and answers every
/// later request with it.
pub struct Cacher<T> where T: Fn(u32) -> u32 {
    pub query: T,
    pub value: Option<u32>,
}

impl<T> Cacher<T> where T: Fn(u32) -> u32 {
    /// An empty cache in front of `query`.
    pub fn new(query: T) -> (r: Cacher<T>)
        ensures
            r.query == query,
            r.value == None::<u32>,
    {
        Cacher { query, value: None }
    }

    /// The cached value if there is one; otherwise `query(arg)`, which is
    /// then kept.
    pub fn value(&mut self, arg: u32) -> (r: u32)
        requires
            old(self).value is None ==> call_requires(old(self).query, (arg,)),
        ensures
            final(self).query == old(self).query,
            final(self).value == Some(r),
            match old(self).value {
                Some(v) => r == v,
                None => call_ensures(old(self).query, (arg,), r),
            },
    {
        match self.value {
            Some(v) => v,
            None => {
                let v = (self.query)(arg);
                self.value = Some(v);
                v
            },
        }
    }
}

/// The same cache as [`Cacher`], for any copyable value type.
#[verifier::reject_recursive_types(E)]
pub struct SuperCacher<T, E> where T: Fn(E) -> E, E: Copy {
    pub query: T,
    pub value: Option<E>,
}

impl<T, E> SuperCacher<T, E> where T: Fn(E) -> E, E: Copy {
    /// An empty cache in front of `query`.
    pub fn new(query: T) -> (r: SuperCacher<T, E>)
        ensures
            r.query == query,
            r.value == None::<E>,
    {
        SuperCacher { query, value: None }
    }

    /// The cached value if there is one; otherwise `query(arg)`, which is
    /// then kept.
    pub fn value(&mut self, arg: E) -> (r: E)
        requires
            old(self).value is None ==> call_requires(old(self).query, (arg,)),
        ensures
            final(self).query == old(self).query,
            final(self).value == Some(r),
            match old(self).value {
                Some(v) => r == v,
                None => call_ensures(old(self).query, (arg,), r),
            },
    {
        match self.value {
            Some(v) => v,
            None => {
                let c = (self.query)(arg);
                self.value = Some(c);
                c
            },
        }
    }
}

/// Calls `f` once with `"hello"`.
pub fn exec<'a, F>(mut f: F) where F: FnMut(&'a str)
    requires
        forall|s: &'a str| s@ == "hello"@ ==> call_requires(f, (s,)),
{
    f("hello")
}

/// Calls `f` once with an owned `"world"`.
pub fn exec_1<F: Fn(String) -> ()>(f: F)
    requires
        forall|s: String| s@ == "world"@ ==> call_requires(f, (s,)),
{
    f("world".to_string())
}

/// What `f` answers for `3` and for `4`, in that order.
pub fn func_one<F>(f: F) -> (r: (bool, bool)) where F: (FnOnce(usize) -> bool) + Copy
    requires
        call_requires(f, (3usize,)),
        call_requires(f, (4usize,)),
    ensures
        call_ensures(f, (3usize,), r.0),
        call_ensures(f, (4usize,), r.1),
{
    (f(3), f(4))
}

/// What the function made by [`factory`] returns for `y`: `y + 5` when
/// `x > 1`, otherwise `y - 5`.
pub open spec fn factory_result(x: int, y: int) -> int {
    if x > 1 {
        y + 5
    } else {
        y - 5
    }
}

/// For `x > 1` a function that adds five, otherwise one that subtracts
/// five. The function accepts exactly the arguments whose result fits in
/// an `i32`.
pub fn factory(x: i32) -> (r: impl Fn(i32) -> i32)
    ensures
        forall|y: i32|
            i32::MIN <= factory_result(x as int, y as int) <= i32::MAX ==> call_requires(r, (y,)),
        forall|y: i32, z: i32|
            call_ensures(r, (y,), z) ==> z as int == factory_result(x as int, y as int),
{
    let num: i32 = 5;
    let add = x > 1;
    move |y: i32| -> (z: i32)
        requires
            i32::MIN <= factory_result(x as int, y as int) <= i32::MAX,
        ensures
            z as int == factory_result(x as int, y as int),
        {
            if add {
                y + num
            } else {
                y - num
            }
        }
}

} // verus!
