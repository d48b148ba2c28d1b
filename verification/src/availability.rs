//! Keeping the data of a seconded candidate available.
use vstd::prelude::*;

use crate::messages::{AvailabilityStoreMessage, FromJob};
use crate::primitives::{ErasureChunk, H256};

verus! {

/// The message that has a chunk kept for the validator of the same index.
pub open spec fn chunk_message(
    parent: H256,
    index: int,
    chunk: Vec<u8>,
    proof: Vec<Vec<u8>>,
) -> FromJob {
    FromJob::AvailabilityStore(
        AvailabilityStoreMessage::StoreChunk(
            parent,
            index as u32,
            ErasureChunk { chunk, index: index as u32, proof },
        ),
    )
}

/// The messages that have each chunk kept, with its proof, for the validator of the same index.
pub open spec fn chunk_messages(
    parent: H256,
    chunks: Seq<Vec<u8>>,
    proofs: Seq<Vec<Vec<u8>>>,
) -> Seq<FromJob> {
    Seq::new(
        vstd::math::min(chunks.len() as int, proofs.len() as int) as nat,
        |i: int| chunk_message(parent, i, chunks[i], proofs[i]),
    )
}

/// Asks the availability store to keep a chunk for a validator.
pub fn store_chunk(parent: H256, index: usize, chunk: Vec<u8>, proof: Vec<Vec<u8>>) -> (message:
    FromJob)
    ensures
        message == chunk_message(parent, index as int, chunk, proof),
{
    let index = #[verifier::truncate]
    (index as u32);
    FromJob::AvailabilityStore(
        AvailabilityStoreMessage::StoreChunk(parent, index, ErasureChunk { chunk, index, proof }),
    )
}

/// Hands each chunk, with its proof, to the validator of the same index.
pub fn make_pov_available(parent: H256, chunks: Vec<Vec<u8>>, proofs: Vec<Vec<Vec<u8>>>) -> (
    messages: Vec<FromJob>)
    ensures
        messages@ == chunk_messages(parent, chunks@, proofs@),
{
    let ghost all_chunks = chunks@;
    let ghost all_proofs = proofs@;
    let mut chunks = chunks;
    let mut proofs = proofs;
    chunks.truncate(proofs.len());
    let mut messages: Vec<FromJob> = Vec::new();
    for chunk in it: chunks
        invariant
            it.seq() == chunks@,
            chunks@.len() <= proofs@.len(),
            chunks@.len() == vstd::math::min(all_chunks.len() as int, all_proofs.len() as int),
            proofs@.len() == all_proofs.len(),
            messages@.len() == it.index(),
            forall|j: int| 0 <= j < chunks@.len() ==> chunks@[j] == all_chunks[j],
            forall|j: int| it.index() <= j < proofs@.len() ==> proofs@[j] == all_proofs[j],
            forall|j: int|
                0 <= j < messages@.len() ==> #[trigger] messages@[j] == chunk_message(
                    parent,
                    j,
                    all_chunks[j],
                    all_proofs[j],
                ),
    {
        let index = messages.len();
        let mut proof: Vec<Vec<u8>> = Vec::new();
        std::mem::swap(&mut proof, &mut proofs[index]);
        messages.push(store_chunk(parent, index, chunk, proof));
    }
    messages
}

} // verus!
