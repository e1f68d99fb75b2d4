//! The fixed-capacity list of interop object handles that one batched
//! lock or unlock call covers.

use vstd::prelude::*;

verus! {

/// The largest number of objects that one lock or unlock call may cover.
pub const BATCH_CAPACITY: usize = 16;

/// `heapless::Vec`, a vector that holds at most `N` items in place. The
/// verifier sees nothing inside it.
#[verifier::external_type_specification]
#[verifier::external_body]
#[verifier::reject_recursive_types(T)]
pub struct ExHeaplessVec<T, const N: usize>(heapless::Vec<T, N>);

/// The handles held by a batch, in the order in which they were pushed.
pub uninterp spec fn batch_contents(batch: heapless::Vec<usize, 16>) -> Seq<usize>;

/// `heapless::Vec::new`: the new vector holds nothing.
#[verifier::external_body]
pub(crate) fn batch_new() -> (batch: heapless::Vec<usize, 16>)
    ensures
        batch_contents(batch) == Seq::<usize>::empty(),
{
    heapless::Vec::new()
}

/// `heapless::Vec::push`: while fewer than sixteen handles are held the
/// handle is appended; a full vector is left as it was and hands the
/// handle back.
#[verifier::external_body]
pub(crate) fn batch_push(batch: &mut heapless::Vec<usize, 16>, handle: usize) -> (pushed: Result<
    (),
    usize,
>)
    ensures
        match pushed {
            Ok(()) => batch_contents(*old(batch)).len() < 16 && batch_contents(*final(batch))
                == batch_contents(*old(batch)).push(handle),
            Err(back) => batch_contents(*old(batch)).len() >= 16 && back == handle
                && batch_contents(*final(batch)) == batch_contents(*old(batch)),
        },
{
    batch.push(handle)
}

/// `heapless::Vec::as_slice`: the slice holds the vector's handles in order.
#[verifier::external_body]
pub(crate) fn batch_as_slice(batch: &heapless::Vec<usize, 16>) -> (handles: &[usize])
    ensures
        handles@ == batch_contents(*batch),
{
    batch.as_slice()
}

} // verus!
