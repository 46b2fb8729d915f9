//! The decisions of the relay loops: which tasks an endpoint list starts,
//! how a copy buffer moves bytes from a reader to a writer, how a pipe
//! carries them between two sockets, and how a direction shuts down.
use vstd::prelude::*;
use crate::conf::endpoint::EndpointInfo;
use crate::endpoint::IpAddress;

verus! {

/// The size of a copy buffer, as the standard library's default buffer.
pub const DEFAULT_BUF_SIZE: usize = 8192;

/// The capacity of a pipe since Linux 2.6.11: 16 pages.
pub const DEFAULT_PIPE_CAP: usize = 65536;

/// A relay task of an endpoint.
#[derive(Debug, Clone, Copy, PartialEq, Eq, Structural)]
pub enum Task {
    Tcp(usize),
    Udp(usize),
}

/// The tasks for the endpoints with the given switches, in order: for each
/// endpoint a TCP task unless TCP is off, then a UDP task if UDP is on.
pub open spec fn spec_tasks(flags: Seq<(bool, bool)>) -> Seq<Task>
    decreases flags.len(),
{
    if flags.len() == 0 {
        Seq::empty()
    } else {
        let i = flags.len() - 1;
        let (no_tcp, use_udp) = flags.last();
        spec_tasks(flags.drop_last())
            + (if !no_tcp { seq![Task::Tcp(i as usize)] } else { Seq::empty() })
            + (if use_udp { seq![Task::Udp(i as usize)] } else { Seq::empty() })
    }
}

/// The switches of each endpoint: TCP off, UDP on.
pub open spec fn switches(infos: Seq<EndpointInfo>) -> Seq<(bool, bool)> {
    infos.map_values(|e: EndpointInfo| (e.no_tcp, e.use_udp))
}

/// The relay tasks to start for the endpoints, each naming its endpoint by
/// position.
pub fn plan_tasks(infos: &Vec<EndpointInfo>) -> (r: Vec<Task>)
    ensures
        r@ == spec_tasks(switches(infos@)),
{
    let ghost f = switches(infos@);
    let mut r: Vec<Task> = Vec::new();
    let mut i: usize = 0;
    while i < infos.len()
        invariant
            i <= infos@.len(),
            f == switches(infos@),
            r@ == spec_tasks(f.take(i as int)),
        decreases infos@.len() - i,
    {
        proof {
            assert(f.take(i + 1).drop_last() =~= f.take(i as int));
            assert(f.take(i + 1).last() == (infos@[i as int].no_tcp, infos@[i as int].use_udp));
        }
        let ghost before = r@;
        if !infos[i].no_tcp {
            r.push(Task::Tcp(i));
        }
        if infos[i].use_udp {
            r.push(Task::Udp(i));
        }
        proof {
            let no_tcp = infos@[i as int].no_tcp;
            let use_udp = infos@[i as int].use_udp;
            assert(r@ =~= before + (if !no_tcp { seq![Task::Tcp(i)] } else { Seq::empty() }) + (if use_udp {
                seq![Task::Udp(i)]
            } else {
                Seq::empty()
            }));
        }
        i = i + 1;
    }
    assert(f.take(infos@.len() as int) =~= f);
    r
}

/// The number of tasks the endpoints start.
pub fn compute_workers(infos: &Vec<EndpointInfo>) -> (r: usize)
    ensures
        r == spec_tasks(switches(infos@)).len(),
{
    plan_tasks(infos).len()
}

/// Picks the first IPv4 address, or else the first IPv6 address.
pub fn pick_address(ips: &Vec<IpAddress>) -> (r: Option<IpAddress>)
    ensures
        match r {
            Some(a) => exists|i: int| 0 <= i < ips@.len() && ips@[i] == a && (a is V4 ==> forall|j: int|
                0 <= j < i ==> !(ips@[j] is V4)) && (a is V6 ==> forall|j: int| 0 <= j < ips@.len() ==> !(
            ips@[j] is V4) && (forall|j: int| 0 <= j < i ==> !(ips@[j] is V6))),
            None => ips@.len() == 0,
        },
{
    let mut i: usize = 0;
    while i < ips.len()
        invariant
            i <= ips@.len(),
            forall|j: int| 0 <= j < i ==> !(ips@[j] is V4),
        decreases ips@.len() - i,
    {
        if let IpAddress::V4(_) = ips[i] {
            return Some(ips[i]);
        }
        i = i + 1;
    }
    let mut k: usize = 0;
    while k < ips.len()
        invariant
            k <= ips@.len(),
            forall|j: int| 0 <= j < ips@.len() ==> !(ips@[j] is V4),
            forall|j: int| 0 <= j < k ==> !(ips@[j] is V6),
        decreases ips@.len() - k,
    {
        if let IpAddress::V6(_) = ips[k] {
            return Some(ips[k]);
        }
        k = k + 1;
    }
    if ips.len() > 0 {
        assert(ips@[0] is V4 || ips@[0] is V6);
    }
    None
}

/// What a copy from a reader to a writer polls next.
#[derive(Debug, Clone, Copy, PartialEq, Eq, Structural)]
pub enum CopyAction {
    /// Read into the empty buffer.
    Read,
    /// Write out what the buffer holds.
    Write,
    /// Flush the writer; the copy is complete once that succeeds.
    Finish,
}

/// Why a copy stops with an error of its own.
#[derive(Debug, Clone, Copy, PartialEq, Eq, Structural)]
pub enum CopyError {
    /// The writer accepted no byte of a non-empty write.
    WriteZero,
}

/// A copy from a reader to a writer through a buffer: the buffer holds the
/// bytes from `pos` to `cap`, which are the bytes read that are not written
/// yet; `amt` bytes have been written in all.
pub struct CopyBuffer {
    read_done: bool,
    need_flush: bool,
    pos: usize,
    cap: usize,
    amt: u64,
    buf: Vec<u8>,
    read_bytes: Ghost<Seq<u8>>,
    written_bytes: Ghost<Seq<u8>>,
}

impl CopyBuffer {
    /// The buffer's bounds hold, and the bytes read are the bytes written
    /// followed by the bytes the buffer holds.
    pub closed spec fn wf(&self) -> bool {
        &&& self.pos <= self.cap <= self.buf@.len()
        &&& self.amt == self.written_bytes@.len()
        &&& self.read_bytes@ == self.written_bytes@ + self.buf@.subrange(self.pos as int, self.cap as int)
    }

    /// Whether the reader has reached its end.
    pub closed spec fn spec_read_done(&self) -> bool {
        self.read_done
    }

    /// Whether written bytes may still sit in the writer unflushed.
    pub closed spec fn spec_need_flush(&self) -> bool {
        self.need_flush
    }

    /// Every byte read so far, in order.
    pub closed spec fn read_data(&self) -> Seq<u8> {
        self.read_bytes@
    }

    /// Every byte the writer has accepted so far, in order.
    pub closed spec fn written_data(&self) -> Seq<u8> {
        self.written_bytes@
    }

    /// The bytes the buffer holds, next to be written, in order.
    pub closed spec fn held_data(&self) -> Seq<u8> {
        self.buf@.subrange(self.pos as int, self.cap as int)
    }

    /// The number of bytes the buffer holds.
    pub closed spec fn pending(&self) -> nat {
        (self.cap - self.pos) as nat
    }

    /// The number of bytes written in all.
    pub closed spec fn written(&self) -> nat {
        self.amt as nat
    }

    /// The number of bytes read in all.
    pub closed spec fn read_total(&self) -> nat {
        self.read_bytes@.len()
    }

    /// The buffer's capacity.
    pub closed spec fn capacity(&self) -> nat {
        self.buf@.len()
    }

    /// A copy through a buffer of `size` bytes that has moved nothing yet.
    pub fn new(size: usize) -> (r: CopyBuffer)
        ensures
            r.wf(),
            r.capacity() == size,
            r.pending() == 0,
            r.written() == 0,
            r.read_total() == 0,
            r.read_data() == Seq::<u8>::empty(),
            r.written_data() == Seq::<u8>::empty(),
            !r.spec_read_done(),
            !r.spec_need_flush(),
    {
        let mut buf: Vec<u8> = Vec::new();
        let mut k: usize = 0;
        while k < size
            invariant
                k <= size,
                buf@.len() == k,
            decreases size - k,
        {
            buf.push(0u8);
            k = k + 1;
        }
        let r = CopyBuffer {
            read_done: false,
            need_flush: false,
            pos: 0,
            cap: 0,
            amt: 0,
            buf,
            read_bytes: Ghost(Seq::empty()),
            written_bytes: Ghost(Seq::empty()),
        };
        assert(r.written_bytes@ + r.buf@.subrange(0, 0) =~= Seq::<u8>::empty());
        r
    }

    /// The buffer's capacity, the most one read may bring in.
    pub fn size(&self) -> (r: usize)
        ensures
            r == self.capacity(),
    {
        self.buf.len()
    }

    /// The number of bytes written in all.
    pub fn amount(&self) -> (r: u64)
        ensures
            r == self.written(),
    {
        self.amt
    }

    /// What to poll next: a read while the buffer is empty and the reader
    /// has not ended, a write while the buffer holds bytes, and the final
    /// flush once the reader has ended and everything is written.
    pub fn next_action(&self) -> (r: CopyAction)
        requires
            self.wf(),
        ensures
            r == (if self.pending() == 0 && !self.spec_read_done() {
                CopyAction::Read
            } else if self.pending() > 0 {
                CopyAction::Write
            } else {
                CopyAction::Finish
            }),
            r == CopyAction::Finish ==> self.written_data() == self.read_data() && self.written()
                == self.read_total(),
    {
        if self.pos == self.cap && !self.read_done {
            CopyAction::Read
        } else if self.pos < self.cap {
            CopyAction::Write
        } else {
            assert(self.buf@.subrange(self.pos as int, self.cap as int) =~= Seq::<u8>::empty());
            assert(self.written_bytes@ + Seq::<u8>::empty() =~= self.written_bytes@);
            CopyAction::Finish
        }
    }

    /// Takes a completed read of `n` bytes into `data`, a spare buffer of
    /// the same capacity: its first `n` bytes become the bytes held, and the
    /// buffer they replace is handed back as the next spare. A read of none
    /// means the reader has ended, and `data` is handed back unchanged.
    pub fn after_read(&mut self, data: Vec<u8>, n: usize) -> (spare: Vec<u8>)
        requires
            old(self).wf(),
            old(self).pending() == 0,
            !old(self).spec_read_done(),
            data@.len() == old(self).capacity(),
            n <= data@.len(),
        ensures
            final(self).wf(),
            final(self).capacity() == old(self).capacity(),
            spare@.len() == old(self).capacity(),
            final(self).written_data() == old(self).written_data(),
            final(self).written() == old(self).written(),
            final(self).read_data() == old(self).read_data() + data@.take(n as int),
            final(self).read_total() == old(self).read_total() + n,
            final(self).held_data() == data@.take(n as int),
            final(self).pending() == n,
            final(self).spec_read_done() == (n == 0),
            final(self).spec_need_flush() == old(self).spec_need_flush(),
    {
        proof {
            assert(self.buf@.subrange(self.pos as int, self.cap as int) =~= Seq::<u8>::empty());
            assert(self.written_bytes@ + Seq::<u8>::empty() =~= self.written_bytes@);
        }
        if n == 0 {
            self.read_done = true;
            proof {
                assert(data@.take(0) =~= Seq::<u8>::empty());
                assert(self.read_bytes@ + Seq::<u8>::empty() =~= self.read_bytes@);
            }
            data
        } else {
            let ghost taken = data@.take(n as int);
            let mut d = data;
            std::mem::swap(&mut self.buf, &mut d);
            self.pos = 0;
            self.cap = n;
            self.read_bytes = Ghost(self.read_bytes@ + taken);
            proof {
                assert(self.buf@.subrange(0, n as int) =~= taken);
            }
            d
        }
    }

    /// The bytes the buffer holds, next to be written: the bytes read after
    /// the first `written()` of them.
    pub fn held(&self) -> (r: &[u8])
        requires
            self.wf(),
        ensures
            r@ == self.held_data(),
            r@ == self.read_data().subrange(self.written() as int, self.read_total() as int),
            r@.len() == self.pending(),
    {
        proof {
            assert(self.read_bytes@.subrange(self.amt as int, self.read_bytes@.len() as int)
                =~= self.buf@.subrange(self.pos as int, self.cap as int));
        }
        vstd::slice::slice_subrange(self.buf.as_slice(), self.pos, self.cap)
    }

    /// Records that a read could not complete yet; returns whether the
    /// writer should be flushed before waiting, so that a reader that waits
    /// on the writer cannot deadlock.
    pub fn flush_before_waiting(&self) -> (r: bool)
        ensures
            r == self.spec_need_flush(),
    {
        self.need_flush
    }

    /// Records a completed flush while waiting for the reader.
    pub fn after_flush(&mut self)
        requires
            old(self).wf(),
        ensures
            final(self).wf(),
            !final(self).spec_need_flush(),
            final(self).pending() == old(self).pending(),
            final(self).written() == old(self).written(),
            final(self).read_total() == old(self).read_total(),
            final(self).read_data() == old(self).read_data(),
            final(self).written_data() == old(self).written_data(),
            final(self).held_data() == old(self).held_data(),
            final(self).capacity() == old(self).capacity(),
            final(self).spec_read_done() == old(self).spec_read_done(),
    {
        self.need_flush = false;
    }

    /// Records that the writer accepted the first `i` of the held bytes: they
    /// join the bytes written and leave the buffer. A write of none fails the
    /// copy.
    pub fn after_write(&mut self, i: usize) -> (r: Result<(), CopyError>)
        requires
            old(self).wf(),
            old(self).pending() > 0,
            i <= old(self).pending(),
            old(self).written() + i <= u64::MAX,
        ensures
            final(self).wf(),
            final(self).capacity() == old(self).capacity(),
            final(self).read_total() == old(self).read_total(),
            final(self).read_data() == old(self).read_data(),
            final(self).spec_read_done() == old(self).spec_read_done(),
            i == 0 ==> r == Err::<(), CopyError>(CopyError::WriteZero) && final(self).written() == old(self).written()
                && final(self).pending() == old(self).pending() && final(self).written_data()
                == old(self).written_data() && final(self).held_data() == old(self).held_data(),
            i > 0 ==> r is Ok && final(self).written() == old(self).written() + i && final(self).pending()
                == old(self).pending() - i && final(self).spec_need_flush() && final(self).written_data()
                == old(self).written_data() + old(self).held_data().take(i as int) && final(self).held_data()
                == old(self).held_data().skip(i as int),
    {
        if i == 0 {
            Err(CopyError::WriteZero)
        } else {
            let ghost old_held = self.buf@.subrange(self.pos as int, self.cap as int);
            let ghost new_written = self.written_bytes@ + old_held.take(i as int);
            proof {
                assert(self.read_bytes@ =~= new_written + self.buf@.subrange(self.pos + i, self.cap as int));
                assert(self.buf@.subrange(self.pos + i, self.cap as int) =~= old_held.skip(i as int));
            }
            self.pos = self.pos + i;
            self.amt = self.amt + i as u64;
            self.written_bytes = Ghost(new_written);
            self.need_flush = true;
            Ok(())
        }
    }
}

/// No byte is lost, reordered or made up by a copy: the bytes written are
/// the first bytes read, in order, and the rest of the bytes read are those
/// the buffer holds, which never exceed its capacity.
pub proof fn law_copy_conserves(b: CopyBuffer)
    requires
        b.wf(),
    ensures
        b.read_data() == b.written_data() + b.held_data(),
        b.read_data().take(b.written_data().len() as int) == b.written_data(),
        b.read_total() == b.written() + b.pending(),
        b.pending() <= b.capacity(),
{
    assert(b.read_data().take(b.written_data().len() as int) =~= b.written_data());
}

/// The stage of one direction of a bidirectional copy.
#[derive(Debug, Clone, Copy, PartialEq, Eq, Structural)]
pub enum TransferStage {
    Running,
    ShuttingDown,
    Done,
}

/// The stage after the current one's work has completed: a finished copy
/// shuts the writer down, a finished shutdown ends the direction.
pub fn advance_stage(stage: TransferStage) -> (r: TransferStage)
    ensures
        r == (match stage {
            TransferStage::Running => TransferStage::ShuttingDown,
            TransferStage::ShuttingDown => TransferStage::Done,
            TransferStage::Done => TransferStage::Done,
        }),
{
    match stage {
        TransferStage::Running => TransferStage::ShuttingDown,
        TransferStage::ShuttingDown => TransferStage::Done,
        TransferStage::Done => TransferStage::Done,
    }
}

/// A bidirectional copy is complete once both directions are done.
pub fn both_done(a_to_b: TransferStage, b_to_a: TransferStage) -> (r: bool)
    ensures
        r == (a_to_b == TransferStage::Done && b_to_a == TransferStage::Done),
{
    a_to_b == TransferStage::Done && b_to_a == TransferStage::Done
}

/// What follows one `splice` from the socket into the pipe.
#[derive(Debug, Clone, Copy, PartialEq, Eq, Structural)]
pub enum ReadStep {
    /// Bytes arrived: read on while the pipe has room.
    More,
    /// The socket had nothing more for now, or has ended: write out.
    Stop,
    /// The splice failed: give up.
    Abort,
}

/// What follows one `splice` from the pipe into the socket.
#[derive(Debug, Clone, Copy, PartialEq, Eq, Structural)]
pub enum WriteStep {
    /// Bytes left: write on while the pipe holds some.
    More,
    /// The socket would block: wait until it is writable and try again.
    Retry,
    /// The splice failed or moved nothing: give up.
    Abort,
}

/// Why a zero-copy relay direction failed.
#[derive(Debug, Clone, Copy, PartialEq, Eq, Structural)]
pub enum SpliceError {
    /// The direction stopped before its reader ended.
    ConnectionReset,
}

/// The bookkeeping of a zero-copy relay direction: `n` bytes sit in a pipe
/// of `cap` bytes; `done` once the reading socket has ended.
pub struct SpliceCopy {
    n: usize,
    done: bool,
    cap: usize,
    moved_in: Ghost<nat>,
    moved_out: Ghost<nat>,
}

impl SpliceCopy {
    /// The pipe's bounds hold, and it holds what came in and did not go out.
    pub closed spec fn wf(&self) -> bool {
        &&& self.n <= self.cap
        &&& self.moved_in@ == self.moved_out@ + self.n
    }

    /// The number of bytes in the pipe.
    pub closed spec fn in_pipe(&self) -> nat {
        self.n as nat
    }

    /// The pipe's capacity.
    pub closed spec fn capacity(&self) -> nat {
        self.cap as nat
    }

    /// Whether the reading socket has ended.
    pub closed spec fn ended(&self) -> bool {
        self.done
    }

    /// The bytes moved into the pipe in all.
    pub closed spec fn moved_in(&self) -> nat {
        self.moved_in@
    }

    /// The bytes moved out of the pipe in all.
    pub closed spec fn moved_out(&self) -> nat {
        self.moved_out@
    }

    /// An empty pipe of `cap` bytes.
    pub fn new(cap: usize) -> (r: SpliceCopy)
        ensures
            r.wf(),
            r.capacity() == cap,
            r.in_pipe() == 0,
            !r.ended(),
            r.moved_in() == 0,
            r.moved_out() == 0,
    {
        SpliceCopy { n: 0, done: false, cap, moved_in: Ghost(0), moved_out: Ghost(0) }
    }

    /// The most bytes the next read may move: the pipe's free room.
    pub fn room(&self) -> (r: usize)
        requires
            self.wf(),
        ensures
            r == self.capacity() - self.in_pipe(),
    {
        self.cap - self.n
    }

    /// The number of bytes to write out.
    pub fn pending(&self) -> (r: usize)
        ensures
            r == self.in_pipe(),
    {
        self.n
    }

    /// Whether the reading socket has ended.
    pub fn is_done(&self) -> (r: bool)
        ensures
            r == self.ended(),
    {
        self.done
    }

    /// Records what a splice from the socket into the pipe returned: a count
    /// of bytes moved, zero at the end of the stream, or a negative value on
    /// failure, which is a mere wait when the socket would block.
    pub fn after_read(&mut self, x: isize, would_block: bool) -> (r: ReadStep)
        requires
            old(self).wf(),
            x <= old(self).capacity() - old(self).in_pipe(),
        ensures
            final(self).wf(),
            final(self).capacity() == old(self).capacity(),
            final(self).moved_out() == old(self).moved_out(),
            x > 0 ==> r == ReadStep::More && final(self).in_pipe() == old(self).in_pipe() + x
                && final(self).moved_in() == old(self).moved_in() + x && final(self).ended() == old(self).ended(),
            x == 0 ==> r == ReadStep::Stop && final(self).ended() && final(self).in_pipe() == old(self).in_pipe()
                && final(self).moved_in() == old(self).moved_in(),
            x < 0 ==> r == (if would_block { ReadStep::Stop } else { ReadStep::Abort })
                && final(self).in_pipe() == old(self).in_pipe() && final(self).ended() == old(self).ended()
                && final(self).moved_in() == old(self).moved_in(),
    {
        if x > 0 {
            self.n = self.n + x as usize;
            self.moved_in = Ghost((self.moved_in@ + x) as nat);
            ReadStep::More
        } else if x == 0 {
            self.done = true;
            ReadStep::Stop
        } else if would_block {
            ReadStep::Stop
        } else {
            ReadStep::Abort
        }
    }

    /// Records what a splice from the pipe into the socket returned.
    pub fn after_write(&mut self, x: isize, would_block: bool) -> (r: WriteStep)
        requires
            old(self).wf(),
            x <= old(self).in_pipe(),
        ensures
            final(self).wf(),
            final(self).capacity() == old(self).capacity(),
            final(self).moved_in() == old(self).moved_in(),
            final(self).ended() == old(self).ended(),
            x > 0 ==> r == WriteStep::More && final(self).in_pipe() == old(self).in_pipe() - x
                && final(self).moved_out() == old(self).moved_out() + x,
            x <= 0 ==> r == (if x < 0 && would_block { WriteStep::Retry } else { WriteStep::Abort })
                && final(self).in_pipe() == old(self).in_pipe() && final(self).moved_out() == old(self).moved_out(),
    {
        if x > 0 {
            self.n = self.n - x as usize;
            self.moved_out = Ghost((self.moved_out@ + x) as nat);
            WriteStep::More
        } else if x < 0 && would_block {
            WriteStep::Retry
        } else {
            WriteStep::Abort
        }
    }

    /// How the direction ends once it stops: cleanly if the reading socket
    /// ended, as a reset connection otherwise.
    pub fn outcome(&self) -> (r: Result<(), SpliceError>)
        ensures
            r == (if self.ended() { Ok(()) } else { Err(SpliceError::ConnectionReset) }),
    {
        if self.done {
            Ok(())
        } else {
            Err(SpliceError::ConnectionReset)
        }
    }
}

/// No byte is lost or made up by a pipe: what came in either went out or
/// still sits in the pipe, which never holds more than its capacity.
pub proof fn law_splice_conserves(p: SpliceCopy)
    requires
        p.wf(),
    ensures
        p.moved_in() == p.moved_out() + p.in_pipe(),
        p.in_pipe() <= p.capacity(),
{
}

} // verus!
