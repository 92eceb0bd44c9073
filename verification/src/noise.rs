//! How the game core sees its source of coherent noise.
//!
//! The host hands in a sampler: a function from a time cursor to a noise
//! value, both fixed-point, the value nominally between `-UNIT` and `UNIT`.
//! Contracts speak of the sampler through [`sample`], the value that it
//! gives at a time.

use vstd::prelude::*;

verus! {

/// The sampler can be called at every time and gives one value there.
pub open spec fn is_function<F: Fn(i64) -> i64>(noise: &F) -> bool {
    &&& forall|t: i64| call_requires(*noise, (t,))
    &&& forall|t: i64, a: i64, b: i64|
        call_ensures(*noise, (t,), a) && call_ensures(*noise, (t,), b) ==> a == b
}

/// What the sampler gives at time `t`.
pub open spec fn sample<F: Fn(i64) -> i64>(noise: &F, t: i64) -> i64 {
    choose|r: i64| call_ensures(*noise, (t,), r)
}

/// The sampler as a mathematical function.
pub open spec fn oracle<F: Fn(i64) -> i64>(noise: &F) -> spec_fn(i64) -> i64 {
    |t: i64| sample(noise, t)
}

/// Calls the sampler at `t`.
pub fn sample_at<F: Fn(i64) -> i64>(noise: &F, t: i64) -> (r: i64)
    requires
        is_function(noise),
    ensures
        r == sample(noise, t),
        r == oracle(noise)(t),
        call_ensures(*noise, (t,), r),
{
    noise(t)
}

} // verus!
