//! Assembling one message from the fixed-size chunks that the native read call hands out.
//!
//! The native call cannot say how long a message is, so the caller reads into a
//! buffer of `BUFFER_SIZE` bytes again and again and hands each result to a
//! `MessageReader`, until a read returns no bytes or fails.

use vstd::prelude::*;
use crate::error::{code_error, gg_error, GGError, GGE_SUCCESS};

verus! {

/// The size of the buffer that each native read fills.
pub const BUFFER_SIZE: usize = 100;

/// The bytes gathered so far for one message.
pub struct MessageReader {
    collected: Vec<u8>,
}

/// What a reader becomes after one read.
pub enum ReadStep {
    /// The read brought bytes: read again.
    More(MessageReader),
    /// The read brought no bytes: the message is complete.
    Done(Vec<u8>),
    /// The read failed: what was gathered is dropped.
    Failed(GGError),
}

impl View for MessageReader {
    type V = Seq<u8>;

    closed spec fn view(&self) -> Seq<u8> {
        self.collected@
    }
}

/// What one read makes of the bytes gathered so far, as values.
pub enum ReadModel {
    More(Seq<u8>),
    Done(Seq<u8>),
    Failed(GGError),
}

/// One read with the given status and bytes, after `collected` was gathered:
/// a failing status fails the message, no bytes complete it, bytes are appended.
pub open spec fn read_step(collected: Seq<u8>, status: u32, chunk: Seq<u8>) -> ReadModel {
    match code_error(status) {
        Some(e) => ReadModel::Failed(e),
        None => if chunk.len() == 0 {
            ReadModel::Done(collected)
        } else {
            ReadModel::More(collected + chunk)
        },
    }
}

impl ReadStep {
    pub open spec fn model(&self) -> ReadModel {
        match self {
            ReadStep::More(reader) => ReadModel::More(reader@),
            ReadStep::Done(message) => ReadModel::Done(message@),
            ReadStep::Failed(e) => ReadModel::Failed(*e),
        }
    }
}

/// The outcome of a run of reads, each a status and the bytes it brought, once
/// `collected` has been gathered: `None` while no read has ended the message.
pub open spec fn assemble_from(collected: Seq<u8>, reads: Seq<(u32, Seq<u8>)>) -> Option<
    Result<Seq<u8>, GGError>,
>
    decreases reads.len(),
{
    if reads.len() == 0 {
        None
    } else {
        match read_step(collected, reads[0].0, reads[0].1) {
            ReadModel::Failed(e) => Some(Err(e)),
            ReadModel::Done(message) => Some(Ok(message)),
            ReadModel::More(next) => assemble_from(next, reads.drop_first()),
        }
    }
}

/// The outcome of a run of reads from the start of a message.
pub open spec fn assemble(reads: Seq<(u32, Seq<u8>)>) -> Option<Result<Seq<u8>, GGError>> {
    assemble_from(Seq::empty(), reads)
}

/// The reads that hand out each of `chunks` in turn, all successful.
pub open spec fn successful_reads(chunks: Seq<Seq<u8>>) -> Seq<(u32, Seq<u8>)> {
    chunks.map_values(|c: Seq<u8>| (GGE_SUCCESS, c))
}

impl MessageReader {
    /// A reader that has gathered nothing yet.
    pub fn new() -> (r: Self)
        ensures
            r@ == Seq::<u8>::empty(),
    {
        MessageReader { collected: Vec::new() }
    }

    /// Takes the result of one read: its status and the bytes it put in the buffer.
    pub fn feed(self, status: gg_error, chunk: &[u8]) -> (r: ReadStep)
        ensures
            r.model() == read_step(self@, status, chunk@),
    {
        match GGError::from_code(status) {
            Err(e) => ReadStep::Failed(e),
            Ok(()) => {
                if chunk.len() == 0 {
                    ReadStep::Done(self.collected)
                } else {
                    let ghost before = self@;
                    let mut collected = self.collected;
                    collected.extend_from_slice(chunk);
                    assert(collected@ =~= before + chunk@);
                    ReadStep::More(MessageReader { collected })
                }
            },
        }
    }
}

/// Non-empty chunks read one after the other, then a read of no bytes, give
/// exactly the chunks joined in order.
pub proof fn lemma_chunks_joined(chunks: Seq<Seq<u8>>)
    requires
        forall|i: int| 0 <= i < chunks.len() ==> #[trigger] chunks[i].len() > 0,
    ensures
        assemble(successful_reads(chunks).push((GGE_SUCCESS, Seq::empty())))
            == Some(Ok::<Seq<u8>, GGError>(chunks.flatten())),
{
    lemma_chunks_joined_from(Seq::empty(), chunks);
    assert(Seq::<u8>::empty() + chunks.flatten() =~= chunks.flatten());
}

proof fn lemma_chunks_joined_from(collected: Seq<u8>, chunks: Seq<Seq<u8>>)
    requires
        forall|i: int| 0 <= i < chunks.len() ==> #[trigger] chunks[i].len() > 0,
    ensures
        assemble_from(collected, successful_reads(chunks).push((GGE_SUCCESS, Seq::empty())))
            == Some(Ok::<Seq<u8>, GGError>(collected + chunks.flatten())),
    decreases chunks.len(),
{
    let reads = successful_reads(chunks).push((GGE_SUCCESS, Seq::<u8>::empty()));
    if chunks.len() == 0 {
        assert(collected + chunks.flatten() =~= collected);
    } else {
        let rest = chunks.drop_first();
        assert(chunks[0].len() > 0);
        assert(reads.drop_first() =~= successful_reads(rest).push((GGE_SUCCESS, Seq::<u8>::empty())));
        assert forall|i: int| 0 <= i < rest.len() implies #[trigger] rest[i].len() > 0 by {
            assert(rest[i] == chunks[i + 1]);
        }
        lemma_chunks_joined_from(collected + chunks[0], rest);
        assert(chunks.flatten() == chunks[0] + rest.flatten());
        assert(collected + chunks[0] + rest.flatten() =~= collected + chunks.flatten());
    }
}

/// A read that fails, after any number of reads that brought bytes, fails the
/// whole message with the error of its status, and nothing gathered is returned.
pub proof fn lemma_failure_discards(reads: Seq<(u32, Seq<u8>)>, i: int)
    requires
        0 <= i < reads.len(),
        forall|j: int| 0 <= j < i ==> code_error(#[trigger] reads[j].0) is None,
        forall|j: int| 0 <= j < i ==> #[trigger] reads[j].1.len() > 0,
        code_error(reads[i].0) is Some,
    ensures
        assemble(reads) == Some(Err::<Seq<u8>, GGError>(code_error(reads[i].0)->Some_0)),
{
    lemma_failure_discards_from(Seq::empty(), reads, i);
}

proof fn lemma_failure_discards_from(collected: Seq<u8>, reads: Seq<(u32, Seq<u8>)>, i: int)
    requires
        0 <= i < reads.len(),
        forall|j: int| 0 <= j < i ==> code_error(#[trigger] reads[j].0) is None,
        forall|j: int| 0 <= j < i ==> #[trigger] reads[j].1.len() > 0,
        code_error(reads[i].0) is Some,
    ensures
        assemble_from(collected, reads) == Some(
            Err::<Seq<u8>, GGError>(code_error(reads[i].0)->Some_0),
        ),
    decreases i,
{
    if i > 0 {
        let rest = reads.drop_first();
        assert(code_error(reads[0].0) is None);
        assert(reads[0].1.len() > 0);
        assert forall|j: int| 0 <= j < i - 1 implies code_error(#[trigger] rest[j].0) is None by {
            assert(rest[j] == reads[j + 1]);
        }
        assert forall|j: int| 0 <= j < i - 1 implies #[trigger] rest[j].1.len() > 0 by {
            assert(rest[j] == reads[j + 1]);
        }
        assert(rest[i - 1] == reads[i]);
        lemma_failure_discards_from(collected + reads[0].1, rest, i - 1);
    }
}

} // verus!
