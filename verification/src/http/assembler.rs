//! Header assembly: from the chunks that a stream delivers to the bytes of
//! one complete header block.
//!
//! The assembler does no reading itself. Its owner reads up to
//! `CHUNK_SIZE` bytes at a time and hands each outcome to `feed`, until the
//! assembler is no longer `Reading`.

use crate::text::{find, lemma_find, lemma_find_first, lemma_occurs_in_prefix, occurs_at};
use vstd::prelude::*;

verus! {

/// How many bytes to ask of the stream in one read.
pub const CHUNK_SIZE: usize = 512;

/// Why no header block was assembled.
#[derive(Clone, Copy, Debug, PartialEq, Eq, Structural)]
pub enum AssemblerError {
    /// The peer closed the stream before the end of the header block.
    ConnectionClosed,
    /// The transport failed.
    ReadError,
}

/// What a read from the stream came to.
#[derive(Clone, Copy, Debug, PartialEq, Eq, Structural)]
pub enum ReadOutcome {
    /// So many bytes were read into the start of the buffer; none means
    /// that the peer has closed the stream.
    Read(usize),
    /// The read failed.
    Failed,
}

/// Where an assembler stands.
#[derive(Clone, Copy, Debug, PartialEq, Eq, Structural)]
pub enum AssemblerStatus {
    /// The end of the header block has not been seen: more is to be read.
    Reading,
    /// The header block is complete.
    Complete,
    /// There will be no header block.
    Failed(AssemblerError),
}

/// The bytes that end a header block: CR LF CR LF.
pub open spec fn terminator() -> Seq<u8> {
    seq![13u8, 10u8, 13u8, 10u8]
}

/// The smallest prefix of `stream` that holds a complete header block: all
/// up to the end of the first terminator.
pub open spec fn header_block(stream: Seq<u8>) -> Option<Seq<u8>> {
    match find(stream, terminator()) {
        Some(i) => Some(stream.take(i + 4)),
        None => None,
    }
}

/// An assembler as a mathematical value: the bytes it has taken in, and
/// where it stands.
pub struct AssemblerView {
    pub received: Seq<u8>,
    pub status: AssemblerStatus,
}

/// A reading assembler after it has taken in `bytes`. No bytes are the end
/// of the stream. Otherwise the bytes follow what was received before, and
/// the header block is complete once the whole holds a terminator, also one
/// that lies across the boundary of two reads.
pub open spec fn take_in(before: AssemblerView, bytes: Seq<u8>) -> AssemblerView {
    if bytes.len() == 0 {
        AssemblerView {
            received: before.received,
            status: AssemblerStatus::Failed(AssemblerError::ConnectionClosed),
        }
    } else {
        let received = before.received + bytes;
        AssemblerView {
            received,
            status: if header_block(received) is Some {
                AssemblerStatus::Complete
            } else {
                AssemblerStatus::Reading
            },
        }
    }
}

/// The assembler after one read. Only a reading assembler takes anything
/// in, and of the buffer only the bytes that were read. A read that claims
/// more bytes than the buffer holds counts as failed.
pub open spec fn after_read(before: AssemblerView, buf: Seq<u8>, outcome: ReadOutcome) -> AssemblerView {
    if before.status != AssemblerStatus::Reading {
        before
    } else {
        match outcome {
            ReadOutcome::Read(n) if n <= buf.len() => take_in(before, buf.take(n as int)),
            _ => AssemblerView {
                received: before.received,
                status: AssemblerStatus::Failed(AssemblerError::ReadError),
            },
        }
    }
}

/// An assembler that has taken in nothing.
pub open spec fn fresh() -> AssemblerView {
    AssemblerView { received: Seq::empty(), status: AssemblerStatus::Reading }
}

/// The assembler after reads that brought these chunks, one after the
/// other, starting from nothing.
pub open spec fn after_chunks(chunks: Seq<Seq<u8>>) -> AssemblerView
    decreases chunks.len(),
{
    if chunks.len() == 0 {
        fresh()
    } else {
        let before = after_chunks(chunks.drop_last());
        if before.status is Reading {
            take_in(before, chunks.last())
        } else {
            before
        }
    }
}

/// The chunks laid end to end.
pub open spec fn concat(chunks: Seq<Seq<u8>>) -> Seq<u8>
    decreases chunks.len(),
{
    if chunks.len() == 0 {
        Seq::empty()
    } else {
        concat(chunks.drop_last()) + chunks.last()
    }
}

/// The header block of a stream is the header block of every longer
/// stream.
pub proof fn lemma_header_block_extends(stream: Seq<u8>, more: Seq<u8>)
    requires
        header_block(stream) is Some,
    ensures
        header_block(stream + more) == header_block(stream),
{
    lemma_find(stream, terminator());
    let i = find(stream, terminator()).unwrap();
    assert(terminator().len() == 4);
    assert forall|j: int| 0 <= j < i implies !occurs_at(stream + more, terminator(), j) by {
        lemma_occurs_in_prefix(stream, more, terminator(), j);
    }
    lemma_occurs_in_prefix(stream, more, terminator(), i);
    lemma_find_first(stream + more, terminator(), i);
    assert((stream + more).take(i + 4) == stream.take(i + 4));
}

/// How a stream is cut into chunks makes no difference to what is
/// assembled: after any reads that brought something each, the assembler
/// is complete exactly if the stream so far holds a header block, and that
/// block is what it has assembled; until then it holds the whole stream.
pub proof fn lemma_chunking_is_irrelevant(chunks: Seq<Seq<u8>>)
    requires
        forall|i: int| 0 <= i < chunks.len() ==> (#[trigger] chunks[i]).len() > 0,
    ensures
        header_block(after_chunks(chunks).received) == header_block(concat(chunks)),
        after_chunks(chunks).status == if header_block(concat(chunks)) is Some {
            AssemblerStatus::Complete
        } else {
            AssemblerStatus::Reading
        },
        after_chunks(chunks).status is Reading ==> after_chunks(chunks).received == concat(chunks),
    decreases chunks.len(),
{
    if chunks.len() == 0 {
        lemma_find(Seq::<u8>::empty(), terminator());
        if find(Seq::<u8>::empty(), terminator()) is Some {
            assert(terminator().len() == 4);
        }
    } else {
        let before = after_chunks(chunks.drop_last());
        assert forall|i: int| 0 <= i < chunks.drop_last().len() implies (
        #[trigger] chunks.drop_last()[i]).len() > 0 by {
            assert(chunks.drop_last()[i] == chunks[i]);
        }
        lemma_chunking_is_irrelevant(chunks.drop_last());
        if before.status is Complete {
            lemma_header_block_extends(concat(chunks.drop_last()), chunks.last());
        }
    }
}

/// Where a stream is cut in two makes no difference to what is assembled.
pub proof fn lemma_split_point_is_irrelevant(stream: Seq<u8>, i: int, j: int)
    requires
        0 < i < stream.len(),
        0 < j < stream.len(),
    ensures
        after_chunks(seq![stream.take(i), stream.skip(i)]).status == after_chunks(
            seq![stream.take(j), stream.skip(j)],
        ).status,
        header_block(after_chunks(seq![stream.take(i), stream.skip(i)]).received) == header_block(
            after_chunks(seq![stream.take(j), stream.skip(j)]).received,
        ),
        header_block(after_chunks(seq![stream.take(i), stream.skip(i)]).received) == header_block(
            stream,
        ),
{
    lemma_two_chunks(stream, i);
    lemma_two_chunks(stream, j);
    lemma_chunking_is_irrelevant(seq![stream.take(i), stream.skip(i)]);
    lemma_chunking_is_irrelevant(seq![stream.take(j), stream.skip(j)]);
}

/// The two parts of a stream, laid end to end, are the stream.
proof fn lemma_two_chunks(stream: Seq<u8>, i: int)
    requires
        0 <= i <= stream.len(),
    ensures
        concat(seq![stream.take(i), stream.skip(i)]) == stream,
{
    let chunks = seq![stream.take(i), stream.skip(i)];
    let first = chunks.drop_last();
    assert(first == seq![stream.take(i)]);
    assert(first.drop_last() == Seq::<Seq<u8>>::empty());
    assert(first.last() == stream.take(i));
    assert(concat(first.drop_last()) == Seq::<u8>::empty());
    assert(concat(first) == Seq::<u8>::empty() + stream.take(i));
    assert(chunks.last() == stream.skip(i));
    assert(concat(chunks) == stream.take(i) + stream.skip(i));
}

/// The assembler of one header block.
#[derive(Debug)]
pub struct HeaderAssembler {
    buffer: Vec<u8>,
    /// No terminator starts before this index.
    scanned: usize,
    status: AssemblerStatus,
}

impl View for HeaderAssembler {
    type V = AssemblerView;

    closed spec fn view(&self) -> AssemblerView {
        AssemblerView { received: self.buffer@, status: self.status }
    }
}

/// Whether the terminator stands at index `i` of `bytes`.
fn terminator_at(bytes: &Vec<u8>, i: usize) -> (found: bool)
    requires
        i + 4 <= bytes.len(),
    ensures
        found == occurs_at(bytes@, terminator(), i as int),
{
    let found = bytes[i] == 13 && bytes[i + 1] == 10 && bytes[i + 2] == 13 && bytes[i + 3] == 10;
    proof {
        let window = bytes@.subrange(i as int, i + 4);
        if found {
            assert(window =~= terminator());
        } else {
            assert(window[0] == bytes@[i as int]);
            assert(window[1] == bytes@[i + 1]);
            assert(window[2] == bytes@[i + 2]);
            assert(window[3] == bytes@[i + 3]);
        }
    }
    found
}

impl HeaderAssembler {
    #[verifier::type_invariant]
    spec fn consistent(self) -> bool {
        &&& self.scanned == 0 || self.scanned + 3 <= self.buffer@.len()
        &&& forall|j: int| 0 <= j < self.scanned ==> !occurs_at(self.buffer@, terminator(), j)
        &&& self.status is Complete ==> occurs_at(
            self.buffer@,
            terminator(),
            self.scanned as int,
        )
        &&& self.status is Reading ==> find(self.buffer@, terminator()) is None
    }

    /// An assembler that has taken in nothing yet.
    pub fn new() -> (r: HeaderAssembler)
        ensures
            r@ == fresh(),
    {
        let buffer: Vec<u8> = Vec::new();
        proof {
            lemma_find(buffer@, terminator());
            assert forall|j: int| !occurs_at(buffer@, terminator(), j) by {}
        }
        HeaderAssembler { buffer, scanned: 0, status: AssemblerStatus::Reading }
    }

    /// Where the assembler stands.
    pub fn status(&self) -> (r: AssemblerStatus)
        ensures
            r == self@.status,
    {
        self.status
    }

    /// Takes in the outcome of one read into `buf`.
    pub fn feed(&mut self, buf: &[u8], outcome: ReadOutcome) -> (status: AssemblerStatus)
        ensures
            final(self)@ == after_read(old(self)@, buf@, outcome),
            status == final(self)@.status,
            old(self)@.status is Reading && outcome == ReadOutcome::Read(0) ==> status
                == AssemblerStatus::Failed(AssemblerError::ConnectionClosed),
    {
        proof {
            use_type_invariant(&*self);
        }
        if self.status != AssemblerStatus::Reading {
            return self.status;
        }
        let count = match outcome {
            ReadOutcome::Failed => {
                self.status = AssemblerStatus::Failed(AssemblerError::ReadError);
                return self.status;
            },
            ReadOutcome::Read(count) => count,
        };
        if count > buf.len() {
            self.status = AssemblerStatus::Failed(AssemblerError::ReadError);
            return self.status;
        }
        if count == 0 {
            self.status = AssemblerStatus::Failed(AssemblerError::ConnectionClosed);
            return self.status;
        }
        // The parts are taken out, changed, and put back as a whole.
        let mut work = HeaderAssembler::new();
        core::mem::swap(self, &mut work);
        let HeaderAssembler { buffer, scanned, status: _ } = work;
        let mut buffer = buffer;
        let mut scanned = scanned;
        let ghost before = buffer@;
        let mut k: usize = 0;
        while k < count
            invariant
                k <= count <= buf.len(),
                buffer@ == before + buf@.take(k as int),
            decreases count - k,
        {
            buffer.push(buf[k]);
            assert(buf@.take(k + 1) == buf@.take(k as int).push(buf@[k as int]));
            k += 1;
        }
        let n = buffer.len();
        let mut status = AssemblerStatus::Reading;
        proof {
            lemma_find(before, terminator());
            assert forall|j: int| 0 <= j < scanned implies !occurs_at(buffer@, terminator(), j) by {
                lemma_occurs_in_prefix(before, buf@.take(count as int), terminator(), j);
            }
        }
        while n - scanned >= 4
            invariant_except_break
                status is Reading,
            invariant
                scanned <= n == buffer.len(),
                scanned == 0 || scanned + 3 <= n,
                forall|j: int| 0 <= j < scanned ==> !occurs_at(buffer@, terminator(), j),
            ensures
                scanned == 0 || scanned + 3 <= n,
                forall|j: int| 0 <= j < scanned ==> !occurs_at(buffer@, terminator(), j),
                status is Complete ==> occurs_at(buffer@, terminator(), scanned as int),
                status is Reading ==> n - scanned < 4,
                status is Reading || status is Complete,
            decreases n - scanned,
        {
            if terminator_at(&buffer, scanned) {
                status = AssemblerStatus::Complete;
                break;
            }
            scanned += 1;
        }
        proof {
            if status is Complete {
                lemma_find_first(buffer@, terminator(), scanned as int);
            } else {
                assert forall|j: int| !occurs_at(buffer@, terminator(), j) by {}
                assert(find(buffer@, terminator()) is None);
            }
        }
        *self = HeaderAssembler { buffer, scanned, status };
        status
    }

    /// The header block, once it is complete: the bytes up to the end of
    /// the first terminator, without what the last read brought after it.
    pub fn header(&self) -> (r: Option<Vec<u8>>)
        ensures
            match r {
                Some(block) => self@.status is Complete && header_block(self@.received) == Some(
                    block@,
                ),
                None => !(self@.status is Complete),
            },
    {
        proof {
            use_type_invariant(self);
        }
        if self.status != AssemblerStatus::Complete {
            return None;
        }
        let n = self.buffer.len();
        proof {
            assert(terminator().len() == 4);
            lemma_find_first(self.buffer@, terminator(), self.scanned as int);
        }
        assert(self.scanned + 4 <= n);
        let end = self.scanned + 4;
        let mut block: Vec<u8> = Vec::new();
        let mut k: usize = 0;
        while k < end
            invariant
                k <= end <= self.buffer.len(),
                block@ == self.buffer@.take(k as int),
            decreases end - k,
        {
            block.push(self.buffer[k]);
            assert(self.buffer@.take(k + 1) == self.buffer@.take(k as int).push(
                self.buffer@[k as int],
            ));
            k += 1;
        }
        Some(block)
    }
}

} // verus!
