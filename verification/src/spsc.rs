use vstd::prelude::*;

verus! {

/// The bounded single-producer single-consumer queue of `heapless`.
#[verifier::external_type_specification]
#[verifier::external_body]
#[verifier::reject_recursive_types(T)]
pub struct ExSpscQueue<T, const N: usize>(heapless::spsc::Queue<T, N>);

} // verus!
