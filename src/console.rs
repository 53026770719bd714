//! Console text output: text is re-encoded to UTF-16 in bounded chunks, and
//! the chunks are written one firmware call each until one fails.

use vstd::prelude::*;
use crate::protocol::Protocol;
use crate::status::{Guid, Status};

verus! {

/// A chunk is handed to the firmware once it holds at least this many code
/// units; one character more makes the largest chunk.
pub const CHUNK_UNITS: usize = 128;

/// The UTF-16 code units of one character.
pub open spec fn utf16_of_char(c: char) -> Seq<u16> {
    let v = c as int;
    if v < 0x10000 {
        seq![v as u16]
    } else {
        let w = v - 0x10000;
        seq![(0xD800 + w / 0x400) as u16, (0xDC00 + w % 0x400) as u16]
    }
}

/// The UTF-16 encoding of a string.
pub open spec fn utf16_of(s: Seq<char>) -> Seq<u16>
    decreases s.len(),
{
    if s.len() == 0 {
        seq![]
    } else {
        utf16_of(s.drop_last()) + utf16_of_char(s.last())
    }
}

/// The chunks completed after the characters of `s`, and the units still
/// waiting in the buffer.
pub open spec fn chunking(s: Seq<char>) -> (Seq<Seq<u16>>, Seq<u16>)
    decreases s.len(),
{
    if s.len() == 0 {
        (seq![], seq![])
    } else {
        let (done, pending) = chunking(s.drop_last());
        let next = pending + utf16_of_char(s.last());
        if next.len() >= CHUNK_UNITS {
            (done.push(next), seq![])
        } else {
            (done, next)
        }
    }
}

/// The firmware writes that printing `s` makes, in order.
pub open spec fn print_chunks(s: Seq<char>) -> Seq<Seq<u16>> {
    let (done, pending) = chunking(s);
    if pending.len() > 0 {
        done.push(pending)
    } else {
        done
    }
}

/// All units of a sequence of chunks, in order.
pub open spec fn flatten(chunks: Seq<Seq<u16>>) -> Seq<u16>
    decreases chunks.len(),
{
    if chunks.len() == 0 {
        seq![]
    } else {
        flatten(chunks.drop_last()) + chunks.last()
    }
}

proof fn lemma_flatten_push(chunks: Seq<Seq<u16>>, c: Seq<u16>)
    ensures
        flatten(chunks.push(c)) == flatten(chunks) + c,
{
    assert(chunks.push(c).drop_last() =~= chunks);
}

proof fn lemma_chunking(s: Seq<char>)
    ensures
        flatten(chunking(s).0) + chunking(s).1 == utf16_of(s),
        chunking(s).1.len() < CHUNK_UNITS,
        forall|i: int|
            0 <= i < chunking(s).0.len() ==> CHUNK_UNITS <= #[trigger] chunking(s).0[i].len()
                <= CHUNK_UNITS + 1,
    decreases s.len(),
{
    if s.len() > 0 {
        lemma_chunking(s.drop_last());
        let (done, pending) = chunking(s.drop_last());
        let next = pending + utf16_of_char(s.last());
        if next.len() >= CHUNK_UNITS {
            lemma_flatten_push(done, next);
            assert(flatten(done.push(next)) + seq![] =~= flatten(done) + pending + utf16_of_char(
                s.last(),
            ));
        } else {
            assert(flatten(done) + next =~= flatten(done) + pending + utf16_of_char(s.last()));
        }
    }
}

/// Printing loses nothing and splits nothing it should not: the chunks,
/// joined, are the UTF-16 encoding of the text, and each holds between one
/// unit and one more than `CHUNK_UNITS`.
pub proof fn lemma_print_chunks_encode_text(s: Seq<char>)
    ensures
        flatten(print_chunks(s)) == utf16_of(s),
        forall|i: int|
            0 <= i < print_chunks(s).len() ==> 0 < #[trigger] print_chunks(s)[i].len()
                <= CHUNK_UNITS + 1,
{
    lemma_chunking(s);
    let (done, pending) = chunking(s);
    if pending.len() > 0 {
        lemma_flatten_push(done, pending);
        assert forall|i: int| 0 <= i < done.push(pending).len() implies 0 < #[trigger] done.push(pending)[i].len() <= CHUNK_UNITS + 1 by {
            if i < done.len() {
                assert(done.push(pending)[i] == done[i]);
            }
        }
    } else {
        assert(flatten(done) + pending =~= flatten(done));
    }
}

/// Appends the UTF-16 code units of `c` to `out`.
pub fn encode_utf16(c: char, out: &mut Vec<u16>)
    ensures
        final(out)@ == old(out)@ + utf16_of_char(c),
{
    let v = c as u32;
    if v < 0x10000 {
        out.push(v as u16);
    } else {
        let w = v - 0x10000;
        out.push((0xD800 + w / 0x400) as u16);
        out.push((0xDC00 + w % 0x400) as u16);
    }
}

/// The chunks in which `string` goes to the firmware.
pub fn chunks_of(string: &str) -> (r: Vec<Vec<u16>>)
    ensures
        r.deep_view() == print_chunks(string@),
{
    let n = string.unicode_len();
    let mut done: Vec<Vec<u16>> = Vec::new();
    let mut pending: Vec<u16> = Vec::new();
    let mut i: usize = 0;
    while i < n
        invariant
            n == string@.len(),
            i <= n,
            (done.deep_view(), pending@) == chunking(string@.subrange(0, i as int)),
        decreases n - i,
    {
        let c = string.get_char(i);
        proof {
            let s = string@.subrange(0, i as int + 1);
            assert(s.drop_last() == string@.subrange(0, i as int));
            assert(s.last() == c);
        }
        encode_utf16(c, &mut pending);
        if pending.len() >= CHUNK_UNITS {
            let ghost d = done.deep_view();
            let ghost p = pending@;
            done.push(pending);
            assert(done.deep_view() =~~= d.push(p));
            pending = Vec::new();
        }
        i = i + 1;
    }
    assert(string@.subrange(0, n as int) == string@);
    if pending.len() > 0 {
        let ghost d = done.deep_view();
        let ghost p = pending@;
        done.push(pending);
        assert(done.deep_view() =~~= d.push(p));
    }
    done
}

/// The console output capability.
#[derive(Clone, Copy, Debug, PartialEq, Eq, Structural)]
pub struct SimpleTextOutput {
    interface: u64,
}

/// The console input capability.
#[derive(Clone, Copy, Debug, PartialEq, Eq, Structural)]
pub struct SimpleTextInput {
    interface: u64,
}

impl Protocol for SimpleTextOutput {
    open spec fn spec_guid() -> Guid {
        Guid(0x387477C2, 0x69C7, 0x11D2, 0x8E, 0x39, 0x00, 0xA0, 0xC9, 0x69, 0x72, 0x3B)
    }

    closed spec fn spec_interface(&self) -> u64 {
        self.interface
    }

    fn guid() -> (r: Guid) {
        Guid(0x387477C2, 0x69C7, 0x11D2, 0x8E, 0x39, 0x00, 0xA0, 0xC9, 0x69, 0x72, 0x3B)
    }

    fn from_interface(address: u64) -> (r: Self) {
        SimpleTextOutput { interface: address }
    }
}

impl Protocol for SimpleTextInput {
    open spec fn spec_guid() -> Guid {
        Guid(0x387477C1, 0x69C7, 0x11D2, 0x8E, 0x39, 0x00, 0xA0, 0xC9, 0x69, 0x72, 0x3B)
    }

    closed spec fn spec_interface(&self) -> u64 {
        self.interface
    }

    fn guid() -> (r: Guid) {
        Guid(0x387477C1, 0x69C7, 0x11D2, 0x8E, 0x39, 0x00, 0xA0, 0xC9, 0x69, 0x72, 0x3B)
    }

    fn from_interface(address: u64) -> (r: Self) {
        SimpleTextInput { interface: address }
    }
}

impl SimpleTextInput {
    pub fn interface(&self) -> (r: u64)
        ensures
            r == self.spec_interface(),
    {
        self.interface
    }
}

/// A run of console writes: each chunk is written in turn, and the run ends
/// at the first write the firmware fails, with that status.
#[derive(Debug)]
pub struct PrintJob {
    chunks: Vec<Vec<u16>>,
    next: usize,
    failed: Option<Status>,
}

/// What a print does next.
#[derive(Clone, Copy, Debug, PartialEq, Eq, Structural)]
pub enum PrintAction {
    /// Write the chunk with this index.
    Write(usize),
    /// The print is over, with this outcome.
    Done(Status),
}

impl PrintJob {
    pub closed spec fn spec_chunks(&self) -> Seq<Seq<u16>> {
        self.chunks.deep_view()
    }

    /// How many chunks have been handed out for writing.
    pub closed spec fn spec_next(&self) -> nat {
        self.next as nat
    }

    pub closed spec fn spec_failed(&self) -> Option<Status> {
        self.failed
    }

    pub open spec fn wf(&self) -> bool {
        self.spec_next() <= self.spec_chunks().len()
    }

    /// A job that writes `chunks` in order.
    pub fn new(chunks: Vec<Vec<u16>>) -> (r: PrintJob)
        ensures
            r.wf(),
            r.spec_chunks() == chunks.deep_view(),
            r.spec_next() == 0,
            r.spec_failed().is_none(),
    {
        PrintJob { chunks, next: 0, failed: None }
    }

    pub fn len(&self) -> (r: usize)
        ensures
            r == self.spec_chunks().len(),
    {
        self.chunks.len()
    }

    /// The units of chunk `i`.
    pub fn chunk(&self, i: usize) -> (r: &[u16])
        requires
            i < self.spec_chunks().len(),
        ensures
            r@ == self.spec_chunks()[i as int],
    {
        self.chunks[i].as_slice()
    }

    /// The first action of the job.
    pub fn start(&mut self) -> (r: PrintAction)
        requires
            old(self).wf(),
            old(self).spec_next() == 0,
            old(self).spec_failed().is_none(),
        ensures
            final(self).wf(),
            final(self).spec_chunks() == old(self).spec_chunks(),
            final(self).spec_failed().is_none(),
            old(self).spec_chunks().len() > 0 ==> r == PrintAction::Write(0) && final(self).spec_next() == 1,
            old(self).spec_chunks().len() == 0 ==> r == PrintAction::Done(Status::Success),
    {
        self.advance()
    }

    /// Takes the status of the write just made and says what comes next:
    /// the next chunk while every write has succeeded, else the end.
    pub fn step(&mut self, status: Status) -> (r: PrintAction)
        requires
            old(self).wf(),
            old(self).spec_failed().is_none(),
        ensures
            final(self).wf(),
            final(self).spec_chunks() == old(self).spec_chunks(),
            status != Status::Success ==> r == PrintAction::Done(status) && final(self).spec_failed()
                == Some(status) && final(self).spec_next() == old(self).spec_next(),
            status == Status::Success && old(self).spec_next() < old(self).spec_chunks().len() ==> r
                == PrintAction::Write(old(self).spec_next() as usize) && final(self).spec_next()
                == old(self).spec_next() + 1 && final(self).spec_failed().is_none(),
            status == Status::Success && old(self).spec_next() == old(self).spec_chunks().len() ==> r
                == PrintAction::Done(Status::Success) && final(self).spec_failed().is_none(),
    {
        if !status.is_success() {
            self.failed = Some(status);
            return PrintAction::Done(status);
        }
        self.advance()
    }

    fn advance(&mut self) -> (r: PrintAction)
        requires
            old(self).wf(),
        ensures
            final(self).wf(),
            final(self).spec_chunks() == old(self).spec_chunks(),
            final(self).spec_failed() == old(self).spec_failed(),
            old(self).spec_next() < old(self).spec_chunks().len() ==> r == PrintAction::Write(
                old(self).spec_next() as usize,
            ) && final(self).spec_next() == old(self).spec_next() + 1,
            old(self).spec_next() == old(self).spec_chunks().len() ==> r == PrintAction::Done(
                Status::Success,
            ) && final(self).spec_next() == old(self).spec_next(),
    {
        if self.next < self.chunks.len() {
            let i = self.next;
            self.next = self.next + 1;
            PrintAction::Write(i)
        } else {
            PrintAction::Done(Status::Success)
        }
    }
}

impl SimpleTextOutput {
    pub fn interface(&self) -> (r: u64)
        ensures
            r == self.spec_interface(),
    {
        self.interface
    }

    /// The writes that print `string` on this console.
    pub fn print(&self, string: &str) -> (r: PrintJob)
        ensures
            r.wf(),
            r.spec_chunks() == print_chunks(string@),
            r.spec_next() == 0,
            r.spec_failed().is_none(),
    {
        PrintJob::new(chunks_of(string))
    }
}

/// The writes that print `text` on `output` and then end the line: the
/// chunks of `text`, followed by one write of the two-unit line terminator.
pub fn println(output: &SimpleTextOutput, text: &str) -> (r: PrintJob)
    ensures
        r.wf(),
        r.spec_chunks() == print_chunks(text@).push(seq![0x0Du16, 0x0Au16]),
        r.spec_next() == 0,
        r.spec_failed().is_none(),
{
    let mut chunks = chunks_of(text);
    let mut end: Vec<u16> = Vec::new();
    end.push(0x0D);
    end.push(0x0A);
    let ghost d = chunks.deep_view();
    proof {
        assert(end@ =~= seq![0x0Du16, 0x0Au16]);
    }
    chunks.push(end);
    assert(chunks.deep_view() =~~= d.push(seq![0x0Du16, 0x0Au16]));
    PrintJob::new(chunks)
}

} // verus!
