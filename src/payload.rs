use vstd::prelude::*;

verus! {

/// Relies on rand's `thread_rng` and `RngCore::fill_bytes`: every byte of
/// the buffer is overwritten with random data and its length is kept.
#[verifier::external_body]
fn fill_random(buf: &mut Vec<u8>)
    ensures
        final(buf)@.len() == old(buf)@.len(),
{
    rand::RngCore::fill_bytes(&mut rand::thread_rng(), buf.as_mut_slice());
}

/// The content of a part of `length` bytes. Random bytes stand in for
/// real data; any other source of the same length serves as well.
pub fn part_body(length: usize) -> (body: Vec<u8>)
    ensures
        body@.len() == length,
{
    let mut body = vec![1u8; length];
    fill_random(&mut body);
    body
}

} // verus!
