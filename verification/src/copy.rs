//! One direction of a proxied connection: a fixed buffer that is refilled from
//! a reader and drained into a writer. The buffer never touches a socket. The
//! driver asks which operation is due, attempts it without blocking, and
//! reports what happened; the buffer updates itself and says how to go on.

use vstd::prelude::*;
use crate::consts::DEFAULT_BUF_SIZE;

verus! {

/// The end of a one-way copy that a failure belongs to.
#[derive(Debug, Clone, Copy, PartialEq, Eq, Structural)]
pub enum Source {
    Reader,
    Writer,
}

/// Why a copy or a pump failed. `Io` carries the driver's own error value
/// through unchanged.
#[derive(Debug, Clone, PartialEq, Eq)]
pub enum Failure<E> {
    /// Nothing woke the pump for the whole inactivity period.
    TimedOut,
    /// The writer accepted zero bytes without reporting an error.
    WriteZero,
    /// The reader or writer reported this error.
    Io(E),
}

/// What one non-blocking attempt at an operation reported.
#[derive(Debug, Clone, PartialEq, Eq)]
pub enum Polled<T, E> {
    Ready(T),
    Failed(E),
    Pending,
}

/// The operation that is due next on a copy buffer.
#[derive(Debug, Clone, Copy, PartialEq, Eq, Structural)]
pub enum CopyStep {
    /// The buffer is empty and the reader has not ended: read into it.
    Read,
    /// The buffer holds bytes: write its window.
    Write,
    /// The reader has ended and everything is written: flush the writer.
    Finish,
}

/// What a copy direction has to say once it can go no further in this
/// wakeup.
#[derive(Debug, Clone, PartialEq, Eq)]
pub enum CopyPoll<E> {
    /// Nothing more can be done until the reader or writer is ready again.
    Pending,
    /// The reader ended and the writer was flushed; the total bytes copied.
    Done(u64),
    /// The copy failed at the given end.
    Failed(Source, Failure<E>),
}

/// How the driver goes on after reporting a read or a write attempt.
#[derive(Debug, Clone, PartialEq, Eq)]
pub enum CopyOutcome<E> {
    /// Ask for the next step and attempt it.
    Continue,
    /// The reader stalled while written bytes await a flush: attempt a flush
    /// and report it with `on_stall_flush` before yielding.
    FlushStalled,
    /// This wakeup is over for the direction, with the given report.
    Settled(CopyPoll<E>),
}

/// The mathematical content of a [`CopyBuffer`].
pub ghost struct CopyView {
    pub read_done: bool,
    pub need_flush: bool,
    pub pos: int,
    pub cap: int,
    pub amt: int,
    pub buf: Seq<u8>,
    /// Every byte the reader has handed over so far, in order.
    pub received: Seq<u8>,
    /// Every byte the writer has accepted so far, in order.
    pub delivered: Seq<u8>,
}

impl CopyView {
    /// The bytes read but not yet written.
    pub open spec fn window(self) -> Seq<u8> {
        self.buf.subrange(self.pos, self.cap)
    }

    /// The frame `0 <= pos <= cap <= len`, the byte count, and the link
    /// between what came in, what went out and what is still buffered.
    pub open spec fn wf(self) -> bool {
        &&& 0 <= self.pos <= self.cap <= self.buf.len()
        &&& self.buf.len() == DEFAULT_BUF_SIZE
        &&& self.amt == self.delivered.len()
        &&& self.amt <= u64::MAX
        &&& self.received == self.delivered + self.window()
    }

    pub open spec fn step(self) -> CopyStep {
        if self.pos < self.cap {
            CopyStep::Write
        } else if self.read_done {
            CopyStep::Finish
        } else {
            CopyStep::Read
        }
    }

    /// The state after the reader handed over `data`: nothing marks its end,
    /// anything else replaces the front of the buffer and is the new window.
    pub open spec fn after_arrival(self, data: Seq<u8>) -> CopyView {
        if data.len() == 0 {
            CopyView { read_done: true, ..self }
        } else {
            CopyView {
                pos: 0,
                cap: data.len() as int,
                buf: data + self.buf.subrange(data.len() as int, self.buf.len() as int),
                received: self.received + data,
                ..self
            }
        }
    }

    /// The state after the writer accepted the first `n` bytes of the window.
    pub open spec fn after_accept(self, n: int) -> CopyView {
        if n == 0 {
            self
        } else {
            CopyView {
                pos: self.pos + n,
                amt: self.amt + n,
                need_flush: true,
                delivered: self.delivered + self.buf.subrange(self.pos, self.pos + n),
                ..self
            }
        }
    }

    /// The state after a successful flush.
    pub open spec fn after_flush(self) -> CopyView {
        CopyView { need_flush: false, ..self }
    }

    /// The state after a read attempt reported `ev`.
    pub open spec fn after_read<E>(self, ev: Polled<&[u8], E>) -> CopyView {
        match ev {
            Polled::Ready(data) => self.after_arrival(data@),
            _ => self,
        }
    }

    pub open spec fn read_outcome<E>(self, ev: Polled<&[u8], E>) -> CopyOutcome<E> {
        match ev {
            Polled::Ready(_) => CopyOutcome::Continue,
            Polled::Failed(e) => CopyOutcome::Settled(
                CopyPoll::Failed(Source::Reader, Failure::Io(e)),
            ),
            Polled::Pending => if self.need_flush {
                CopyOutcome::FlushStalled
            } else {
                CopyOutcome::Settled(CopyPoll::Pending)
            },
        }
    }

    /// The state after the flush that follows a stalled read reported `ev`.
    pub open spec fn after_stall_flush<E>(self, ev: Polled<(), E>) -> CopyView {
        match ev {
            Polled::Ready(_) => self.after_flush(),
            _ => self,
        }
    }

    pub open spec fn flush_outcome<E>(self, ev: Polled<(), E>) -> CopyPoll<E> {
        match ev {
            Polled::Failed(e) => CopyPoll::Failed(Source::Writer, Failure::Io(e)),
            _ => CopyPoll::Pending,
        }
    }

    /// The state after a write attempt on the window reported `ev`.
    pub open spec fn after_write<E>(self, ev: Polled<usize, E>) -> CopyView {
        match ev {
            Polled::Ready(n) => self.after_accept(n as int),
            _ => self,
        }
    }

    pub open spec fn write_outcome<E>(self, ev: Polled<usize, E>) -> CopyOutcome<E> {
        match ev {
            Polled::Ready(n) => if n == 0 {
                CopyOutcome::Settled(CopyPoll::Failed(Source::Writer, Failure::WriteZero))
            } else {
                CopyOutcome::Continue
            },
            Polled::Failed(e) => CopyOutcome::Settled(
                CopyPoll::Failed(Source::Writer, Failure::Io(e)),
            ),
            Polled::Pending => CopyOutcome::Settled(CopyPoll::Pending),
        }
    }

    /// A write report the buffer can take: no more bytes than the window
    /// offered, and a total that still fits the counter.
    pub open spec fn accepts_write<E>(self, ev: Polled<usize, E>) -> bool {
        match ev {
            Polled::Ready(n) => n <= self.cap - self.pos && self.amt + n <= u64::MAX,
            _ => true,
        }
    }

    pub open spec fn finish_outcome<E>(self, ev: Polled<(), E>) -> CopyPoll<E> {
        match ev {
            Polled::Ready(_) => CopyPoll::Done(self.amt as u64),
            Polled::Failed(e) => CopyPoll::Failed(Source::Writer, Failure::Io(e)),
            Polled::Pending => CopyPoll::Pending,
        }
    }
}

/// State of one copy direction.
pub struct CopyBuffer {
    read_done: bool,
    need_flush: bool,
    pos: usize,
    cap: usize,
    amt: u64,
    buf: Vec<u8>,
    received: Ghost<Seq<u8>>,
    delivered: Ghost<Seq<u8>>,
}

impl View for CopyBuffer {
    type V = CopyView;

    closed spec fn view(&self) -> CopyView {
        CopyView {
            read_done: self.read_done,
            need_flush: self.need_flush,
            pos: self.pos as int,
            cap: self.cap as int,
            amt: self.amt as int,
            buf: self.buf@,
            received: self.received@,
            delivered: self.delivered@,
        }
    }
}

/// Overwrites the front of `buf` with `data` and leaves the rest as it was.
fn fill(buf: &mut Vec<u8>, data: &[u8])
    requires
        data@.len() <= old(buf)@.len(),
    ensures
        final(buf)@ == data@ + old(buf)@.subrange(data@.len() as int, old(buf)@.len() as int),
{
    let ghost before = buf@;
    let n: usize = data.len();
    let mut i: usize = 0;
    while i < n
        invariant
            n == data@.len(),
            i <= n <= before.len(),
            buf@.len() == before.len(),
            forall|j: int| 0 <= j < i ==> buf@[j] == data@[j],
            forall|j: int| i <= j < before.len() ==> buf@[j] == before[j],
        decreases n - i,
    {
        buf.set(i, data[i]);
        i += 1;
    }
    assert(buf@ =~= data@ + before.subrange(data@.len() as int, before.len() as int));
}

impl CopyBuffer {
    /// An empty buffer of the default size: nothing read, nothing written.
    pub fn new() -> (r: Self)
        ensures
            r@.wf(),
            r@.step() == CopyStep::Read,
            !r@.read_done && !r@.need_flush,
            r@.pos == 0 && r@.cap == 0 && r@.amt == 0,
            r@.received == Seq::<u8>::empty(),
            r@.delivered == Seq::<u8>::empty(),
            forall|i: int| 0 <= i < DEFAULT_BUF_SIZE ==> r@.buf[i] == 0u8,
    {
        let buf: Vec<u8> = vec![0u8; DEFAULT_BUF_SIZE];
        let r = CopyBuffer {
            read_done: false,
            need_flush: false,
            pos: 0,
            cap: 0,
            amt: 0,
            buf,
            received: Ghost(Seq::empty()),
            delivered: Ghost(Seq::empty()),
        };
        assert(r@.received =~= r@.delivered + r@.window());
        r
    }

    /// The operation that is due next.
    pub fn step(&self) -> (r: CopyStep)
        ensures
            r == self@.step(),
    {
        if self.pos < self.cap {
            CopyStep::Write
        } else if self.read_done {
            CopyStep::Finish
        } else {
            CopyStep::Read
        }
    }

    /// The bytes a write step offers to the writer.
    pub fn window(&self) -> (w: &[u8])
        requires
            self@.wf(),
        ensures
            w@ == self@.window(),
    {
        vstd::slice::slice_subrange(self.buf.as_slice(), self.pos, self.cap)
    }

    /// Total bytes the writer has accepted so far.
    pub fn transferred(&self) -> (n: u64)
        ensures
            n == self@.amt,
    {
        self.amt
    }

    /// Whether the reader has reported its end.
    pub fn read_done(&self) -> (b: bool)
        ensures
            b == self@.read_done,
    {
        self.read_done
    }

    /// Whether bytes were written since the last successful flush.
    pub fn need_flush(&self) -> (b: bool)
        ensures
            b == self@.need_flush,
    {
        self.need_flush
    }

    /// How many bytes one read may hand over.
    pub fn capacity(&self) -> (n: usize)
        ensures
            n == self@.buf.len(),
    {
        self.buf.len()
    }

    /// Whether `on_write` can take a report of `n` bytes written.
    pub fn can_accept(&self, n: usize) -> (b: bool)
        requires
            self@.wf(),
        ensures
            b == self@.accepts_write(Polled::<usize, ()>::Ready(n)),
    {
        n <= self.cap - self.pos && n as u64 <= u64::MAX - self.amt
    }

    /// Takes the report of a read attempt. Bytes that arrived replace the
    /// buffer's front and become the new window; an empty arrival marks the
    /// reader's end. A stalled reader asks for a flush when written bytes
    /// are still unflushed, and otherwise yields.
    pub fn on_read<E>(&mut self, ev: Polled<&[u8], E>) -> (r: CopyOutcome<E>)
        requires
            old(self)@.wf(),
            old(self)@.step() == CopyStep::Read,
            ev matches Polled::Ready(data) ==> data@.len() <= old(self)@.buf.len(),
        ensures
            final(self)@.wf(),
            final(self)@ == old(self)@.after_read(ev),
            r == old(self)@.read_outcome(ev),
            ev is Pending && old(self)@.need_flush ==> r == CopyOutcome::<E>::FlushStalled,
    {
        match ev {
            Polled::Ready(data) => {
                let n: usize = data.len();
                if n == 0 {
                    self.read_done = true;
                } else {
                    fill(&mut self.buf, data);
                    self.pos = 0;
                    self.cap = n;
                    proof {
                        self.received@ = self.received@ + data@;
                    }
                    assert(self@.window() =~= data@);
                    assert(old(self)@.window() =~= Seq::<u8>::empty());
                    assert(self@.received =~= self@.delivered + self@.window());
                }
                CopyOutcome::Continue
            },
            Polled::Failed(e) => CopyOutcome::Settled(
                CopyPoll::Failed(Source::Reader, Failure::Io(e)),
            ),
            Polled::Pending => {
                if self.need_flush {
                    CopyOutcome::FlushStalled
                } else {
                    CopyOutcome::Settled(CopyPoll::Pending)
                }
            },
        }
    }

    /// Takes the report of the flush attempted after a stalled read. A flush
    /// that went through clears the pending-flush mark; the copy then yields
    /// unless the flush failed.
    pub fn on_stall_flush<E>(&mut self, ev: Polled<(), E>) -> (r: CopyPoll<E>)
        requires
            old(self)@.wf(),
        ensures
            final(self)@.wf(),
            final(self)@ == old(self)@.after_stall_flush(ev),
            r == old(self)@.flush_outcome(ev),
    {
        match ev {
            Polled::Ready(_) => {
                self.need_flush = false;
                CopyPoll::Pending
            },
            Polled::Failed(e) => CopyPoll::Failed(Source::Writer, Failure::Io(e)),
            Polled::Pending => CopyPoll::Pending,
        }
    }

    /// Takes the report of a write attempt on the window. Accepted bytes
    /// leave the window and are counted; a writer that accepts nothing
    /// without an error ends the copy. The report may not claim more bytes
    /// than the window held.
    pub fn on_write<E>(&mut self, ev: Polled<usize, E>) -> (r: CopyOutcome<E>)
        requires
            old(self)@.wf(),
            old(self)@.accepts_write(ev),
        ensures
            final(self)@.wf(),
            final(self)@ == old(self)@.after_write(ev),
            r == old(self)@.write_outcome(ev),
            ev matches Polled::Ready(n) && n == 0 ==> r == CopyOutcome::<E>::Settled(
                CopyPoll::Failed(Source::Writer, Failure::WriteZero),
            ),
            final(self)@.amt >= old(self)@.amt,
    {
        match ev {
            Polled::Ready(n) => {
                if n == 0 {
                    CopyOutcome::Settled(CopyPoll::Failed(Source::Writer, Failure::WriteZero))
                } else {
                    proof {
                        self.delivered@ = self.delivered@ + self.buf@.subrange(
                            self.pos as int,
                            self.pos + n,
                        );
                    }
                    self.pos = self.pos + n;
                    self.amt = self.amt + n as u64;
                    self.need_flush = true;
                    assert(self@.received =~= self@.delivered + self@.window());
                    CopyOutcome::Continue
                }
            },
            Polled::Failed(e) => CopyOutcome::Settled(
                CopyPoll::Failed(Source::Writer, Failure::Io(e)),
            ),
            Polled::Pending => CopyOutcome::Settled(CopyPoll::Pending),
        }
    }

    /// Takes the report of the closing flush. Once it went through the copy
    /// is complete and gives the total byte count.
    pub fn on_finish<E>(&self, ev: Polled<(), E>) -> (r: CopyPoll<E>)
        requires
            self@.wf(),
            self@.step() == CopyStep::Finish,
        ensures
            r == self@.finish_outcome(ev),
    {
        match ev {
            Polled::Ready(_) => CopyPoll::Done(self.amt),
            Polled::Failed(e) => CopyPoll::Failed(Source::Writer, Failure::Io(e)),
            Polled::Pending => CopyPoll::Pending,
        }
    }
}

/// A report that changes a copy buffer: bytes that arrived from the reader
/// (none at all marks its end), a count of bytes the writer accepted, or a
/// flush that went through.
pub ghost enum Progress {
    Arrived(Seq<u8>),
    Accepted(int),
    Flushed,
}

impl CopyView {
    /// Whether `p` can be reported in this state: an arrival only when a read
    /// is due and within the buffer's size, an acceptance only when a write
    /// is due and within the window.
    pub open spec fn admits(self, p: Progress) -> bool {
        match p {
            Progress::Arrived(data) => self.step() == CopyStep::Read && data.len()
                <= self.buf.len(),
            Progress::Accepted(n) => self.step() == CopyStep::Write && 0 <= n <= self.cap
                - self.pos && self.amt + n <= u64::MAX,
            Progress::Flushed => true,
        }
    }

    pub open spec fn apply(self, p: Progress) -> CopyView {
        match p {
            Progress::Arrived(data) => self.after_arrival(data),
            Progress::Accepted(n) => self.after_accept(n),
            Progress::Flushed => self.after_flush(),
        }
    }

    /// The state after the reports of `trace`, first to last.
    pub open spec fn run(self, trace: Seq<Progress>) -> CopyView
        decreases trace.len(),
    {
        if trace.len() == 0 {
            self
        } else {
            self.run(trace.drop_last()).apply(trace.last())
        }
    }

    /// Whether each report of `trace` can be made in the state it meets.
    pub open spec fn admits_all(self, trace: Seq<Progress>) -> bool
        decreases trace.len(),
    {
        trace.len() == 0 || (self.admits_all(trace.drop_last()) && self.run(
            trace.drop_last(),
        ).admits(trace.last()))
    }
}

/// All bytes that arrive in `trace`, in order.
pub open spec fn arrivals(trace: Seq<Progress>) -> Seq<u8>
    decreases trace.len(),
{
    if trace.len() == 0 {
        Seq::empty()
    } else {
        match trace.last() {
            Progress::Arrived(data) => arrivals(trace.drop_last()) + data,
            _ => arrivals(trace.drop_last()),
        }
    }
}

/// The frame of a buffer: in every well-formed state the cursors are ordered
/// within the buffer, the counter is the number of bytes delivered, what was
/// delivered is the front of what was received, and once a read or the
/// closing flush is due nothing received is left undelivered.
pub proof fn lemma_frame(v: CopyView)
    requires
        v.wf(),
    ensures
        0 <= v.pos <= v.cap <= v.buf.len(),
        v.amt == v.delivered.len(),
        v.delivered.is_prefix_of(v.received),
        v.step() != CopyStep::Write ==> v.delivered == v.received,
{
    assert(v.delivered =~= v.received.subrange(0, v.delivered.len() as int));
    if v.step() != CopyStep::Write {
        assert(v.window() =~= Seq::<u8>::empty());
        assert(v.received =~= v.delivered);
    }
}

/// One report keeps the frame, never lowers the counter, adds an arrival to
/// the end of what was received and an acceptance to the end of what was
/// delivered, and changes neither otherwise.
pub proof fn lemma_apply_keeps_frame(v: CopyView, p: Progress)
    requires
        v.wf(),
        v.admits(p),
    ensures
        v.apply(p).wf(),
        v.apply(p).amt >= v.amt,
        v.delivered.is_prefix_of(v.apply(p).delivered),
        p matches Progress::Arrived(data) ==> v.apply(p).received == v.received + data,
        !(p is Arrived) ==> v.apply(p).received == v.received,
        p is Accepted ==> v.apply(p).need_flush || v.apply(p) == v,
{
    let w = v.apply(p);
    match p {
        Progress::Arrived(data) => {
            assert(v.window() =~= Seq::<u8>::empty());
            if data.len() > 0 {
                assert(w.window() =~= data);
            }
            assert(w.received =~= w.delivered + w.window());
            assert(v.received + data =~= w.received);
        },
        Progress::Accepted(n) => {
            assert(w.received =~= w.delivered + w.window());
        },
        Progress::Flushed => {},
    }
    assert(v.delivered =~= w.delivered.subrange(0, v.delivered.len() as int));
}

/// Byte integrity over a whole run, whatever the sizes of the reads and
/// writes: the bytes received are exactly the arrivals in order, the bytes
/// delivered are always their front, the counter never goes down, and when
/// the closing flush is due every byte that arrived has been delivered.
pub proof fn lemma_run_delivers_arrivals(v: CopyView, trace: Seq<Progress>)
    requires
        v.wf(),
        v.admits_all(trace),
    ensures
        v.run(trace).wf(),
        v.run(trace).received == v.received + arrivals(trace),
        v.run(trace).delivered.is_prefix_of(v.run(trace).received),
        v.delivered.is_prefix_of(v.run(trace).delivered),
        v.run(trace).amt >= v.amt,
        v.run(trace).amt == v.run(trace).delivered.len(),
        v.run(trace).step() == CopyStep::Finish ==> v.run(trace).delivered == v.received
            + arrivals(trace),
    decreases trace.len(),
{
    if trace.len() == 0 {
        assert(v.received + arrivals(trace) =~= v.received);
        assert(v.delivered =~= v.delivered.subrange(0, v.delivered.len() as int));
        lemma_frame(v);
    } else {
        let before = v.run(trace.drop_last());
        lemma_run_delivers_arrivals(v, trace.drop_last());
        lemma_apply_keeps_frame(before, trace.last());
        let after = v.run(trace);
        lemma_frame(after);
        match trace.last() {
            Progress::Arrived(data) => {
                assert(v.received + arrivals(trace) =~= (v.received + arrivals(
                    trace.drop_last(),
                )) + data);
            },
            _ => {},
        }
        assert(v.delivered =~= after.delivered.subrange(0, v.delivered.len() as int)) by {
            assert(v.delivered =~= before.delivered.subrange(0, v.delivered.len() as int));
            assert(before.delivered =~= after.delivered.subrange(
                0,
                before.delivered.len() as int,
            ));
        }
    }
}

} // verus!
