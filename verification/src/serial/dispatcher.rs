//! Shares one serial port between tasks.
//!
//! The dispatcher decides; it does not wait. Where a task has to wait, the
//! dispatcher keeps the waker that the task handed in and hands it back
//! out when the time has come to wake the task.

use vstd::prelude::*;
use std::collections::VecDeque;
use super::frame_ctl::parse;
use super::frame_ctl::parse_frame_ctl;
use super::frame_ctl::render;
use super::frame_ctl::render_frame_ctl;
use super::port::port_wf;
use super::port::Serial;
use super::port::SerialView;
use super::FileType;
use super::IoError;
use super::OpenMode;

verus! {

/// Number of queued bytes below which a waiting writer is woken.
pub const DEFAULT_QUOTA_SIZE: usize = 4096;

/// The most that a synchronous write sends.
pub const SYNC_WRITE_LIMIT: usize = 128;

/// Block size of the frame control file, and its length.
pub const FRAME_CTL_BLOCK: u64 = 4096;

/// The numbers by which a device is known: the major number of its
/// driver and the minor number that the driver gave it.
#[derive(Clone, Copy, Debug, PartialEq, Eq, Structural)]
pub struct DevID {
    pub major: usize,
    pub minor: usize,
}

/// What all handles of one port share.
pub struct SerialDispatcherInner<W> {
    serial: Option<Serial>,
    id: DevID,
    quota: usize,
    pend: VecDeque<W>,
    draining: bool,
    stream: Option<W>,
    stream_lock: bool,
}

impl<W> SerialDispatcherInner<W> {
    /// The port, unless it is gone.
    pub closed spec fn port(&self) -> Option<SerialView> {
        match self.serial {
            Some(p) => Some(p@),
            None => None,
        }
    }

    /// The numbers of the device.
    pub closed spec fn dev_id(&self) -> DevID {
        self.id
    }

    /// The number of queued bytes below which a waiting writer is woken.
    pub closed spec fn quota(&self) -> usize {
        self.quota
    }

    /// The wakers of the writers that wait, in the order in which they
    /// came.
    pub closed spec fn pending(&self) -> Seq<W> {
        self.pend@
    }

    /// Whether a drain is marked as under way: a round of the drive loop
    /// found room for a writer, and no write has gone through since.
    pub closed spec fn draining(&self) -> bool {
        self.draining
    }

    /// The waker of the reader that waits.
    pub closed spec fn stream(&self) -> Option<W> {
        self.stream
    }

    /// Whether the port is open for reading.
    pub closed spec fn read_locked(&self) -> bool {
        self.stream_lock
    }

    /// What holds of the shared state: the port, if it is there, is well
    /// formed.
    pub open spec fn wf(&self) -> bool {
        self.port() matches Some(p) ==> port_wf(p)
    }

    /// The shared state for the port `serial`, with the default quota, no one
    /// waiting and the port not open.
    pub fn new(serial: Serial, id: DevID) -> (r: Self)
        ensures
            r.port() == Some(serial@),
            r.dev_id() == id,
            r.quota() == DEFAULT_QUOTA_SIZE,
            r.pending() == Seq::<W>::empty(),
            !r.draining(),
            r.stream().is_none(),
            !r.read_locked(),
    {
        SerialDispatcherInner {
            serial: Some(serial),
            id,
            quota: DEFAULT_QUOTA_SIZE,
            pend: VecDeque::new(),
            draining: false,
            stream: None,
            stream_lock: false,
        }
    }

    /// The port is gone: takes it out of the shared state.
    pub fn detach(&mut self) -> (r: Option<Serial>)
        ensures
            old(self).wf() ==> final(self).wf(),
            final(self).port().is_none(),
            r.is_some() == old(self).port().is_some(),
            r matches Some(p) ==> Some(p@) == old(self).port(),
            final(self).quota() == old(self).quota(),
            final(self).dev_id() == old(self).dev_id(),
            final(self).pending() == old(self).pending(),
            final(self).draining() == old(self).draining(),
            final(self).stream() == old(self).stream(),
            final(self).read_locked() == old(self).read_locked(),
    {
        self.serial.take()
    }

    /// The port, for the interrupt handlers to report to.
    pub fn port_mut(&mut self) -> (r: Option<&mut Serial>)
        ensures
            r.is_some() == old(self).port().is_some(),
            r matches Some(p) ==> Some(p@) == old(self).port() && final(self).port() == Some(
                final(p)@,
            ),
            r.is_none() ==> final(self).port().is_none(),
            final(self).quota() == old(self).quota(),
            final(self).dev_id() == old(self).dev_id(),
            final(self).pending() == old(self).pending(),
            final(self).draining() == old(self).draining(),
            final(self).stream() == old(self).stream(),
            final(self).read_locked() == old(self).read_locked(),
    {
        self.serial.as_mut()
    }

    /// Sets the quota.
    pub fn set_quota(&mut self, quota: usize)
        ensures
            old(self).wf() ==> final(self).wf(),
            final(self).quota() == quota,
            final(self).dev_id() == old(self).dev_id(),
            final(self).port() == old(self).port(),
            final(self).pending() == old(self).pending(),
            final(self).draining() == old(self).draining(),
            final(self).stream() == old(self).stream(),
            final(self).read_locked() == old(self).read_locked(),
    {
        self.quota = quota;
    }

    /// A writer waits for room: its waker is put behind those that wait
    /// already.
    pub fn enqueue_writer(&mut self, waker: W)
        ensures
            old(self).wf() ==> final(self).wf(),
            final(self).pending() == old(self).pending().push(waker),
            final(self).port() == old(self).port(),
            final(self).quota() == old(self).quota(),
            final(self).dev_id() == old(self).dev_id(),
            final(self).draining() == old(self).draining(),
            final(self).stream() == old(self).stream(),
            final(self).read_locked() == old(self).read_locked(),
    {
        self.pend.push_back(waker);
    }

    /// Ends the drain without a write: a writer that was woken and does
    /// not write after all reports back, so that the next one can be
    /// woken.
    pub fn end_drain(&mut self)
        ensures
            old(self).wf() ==> final(self).wf(),
            !final(self).draining(),
            final(self).port() == old(self).port(),
            final(self).quota() == old(self).quota(),
            final(self).dev_id() == old(self).dev_id(),
            final(self).pending() == old(self).pending(),
            final(self).stream() == old(self).stream(),
            final(self).read_locked() == old(self).read_locked(),
    {
        self.draining = false;
    }
}

/// What a round of the drive loop asks for.
pub enum RunStep<W> {
    /// The port is gone; the loop ends.
    StoppedExternally,
    /// The loop goes on, after these have been woken.
    Wake {
        /// The reader that waited.
        stream: Option<W>,
        /// The writer that had waited longest.
        writer: Option<W>,
    },
}

/// The wakers that `n` rounds wake from the queue `pending`, each round
/// waking one: the first `n` of the queue, in the order of the queue.
pub open spec fn woken_in<W>(pending: Seq<W>, n: nat) -> Seq<W>
    decreases n,
{
    if n == 0 || pending.len() == 0 {
        Seq::empty()
    } else {
        seq![pending[0]] + woken_in(pending.skip(1), (n - 1) as nat)
    }
}

/// Writers are woken in the order in which they came to wait: rounds that
/// each wake the first of the queue wake, taken together, a prefix of the
/// queue, whatever was put behind it in the meantime.
pub proof fn lemma_wake_order<W>(pending: Seq<W>, later: Seq<W>, n: nat)
    requires
        n <= pending.len(),
    ensures
        woken_in(pending + later, n) == pending.take(n as int),
    decreases n,
{
    if n == 0 {
        assert(pending.take(0) =~= Seq::<W>::empty());
    } else {
        let all = pending + later;
        assert(all.skip(1) =~= pending.skip(1) + later);
        lemma_wake_order(pending.skip(1), later, (n - 1) as nat);
        assert(seq![all[0]] + pending.skip(1).take(n - 1) =~= pending.take(n as int));
    }
}

/// How a read starts.
pub enum ReadStart {
    /// Enough bytes had come in already: these are the bytes read.
    Done(Vec<u8>),
    /// The read is under way and waits for bytes to come in.
    Pending,
    /// The read could not start.
    Failed(IoError, usize),
}

/// What a read that is under way has come to.
pub enum ReadPoll {
    /// The read is over, with these bytes or this error.
    Ready(Result<Vec<u8>, (IoError, usize)>),
    /// The read waits on.
    Pending,
}

/// Whether a write may go ahead.
#[derive(Clone, Copy, Debug, PartialEq, Eq, Structural)]
pub enum WriteReady {
    /// It may.
    Ready,
    /// More bytes take up room in the buffer than the quota allows. The
    /// writer waits until it is woken.
    Wait,
    /// A write would fail with this error.
    Failed(IoError),
}

/// What a write has put in motion.
#[derive(Clone, Copy, Debug, PartialEq, Eq, Structural)]
pub struct WriteStart {
    /// A byte to hand to the hardware at once, to set the port sending.
    pub primed: Option<u8>,
    /// The number of bytes written, which the write returns once it is
    /// over.
    pub len: usize,
    /// The number of bytes ever queued on the port, those of this write
    /// included. The write is over when room has been given back for as
    /// many.
    pub ticket: u64,
}

/// What a write that was started has come to.
#[derive(Clone, Copy, Debug, PartialEq, Eq, Structural)]
pub enum WritePoll {
    /// The bytes have gone out and the drive loop has given their room
    /// back: the write is over.
    Done,
    /// The write waits on.
    Pending,
    /// The write failed.
    Failed(IoError),
}

/// Whether a read with `filled` of `want` bytes is over: it is when it
/// has all its bytes, or when it has one byte at least and the line is
/// idle.
pub open spec fn read_complete(filled: nat, want: nat, idle: bool) -> bool {
    filled == want || (idle && filled > 0)
}

/// A read that asked for `want` bytes and is over has all of them, or it
/// has fewer, at least one, and the line was idle.
pub proof fn lemma_read_completion(filled: nat, want: nat, idle: bool)
    requires
        filled <= want,
        read_complete(filled, want, idle),
    ensures
        filled == want || (1 <= filled < want && idle),
{
}

/// A handle on a serial port: the file that stands for the port.
///
/// A handle is open for reading, for writing, for both or not at all.
/// One handle at a time can be open for reading.
#[derive(Clone, Copy, Debug, PartialEq, Eq, Structural)]
pub struct SerialDispatcher {
    fifo_lock: OpenMode,
}

impl SerialDispatcher {
    /// How the handle is open.
    pub closed spec fn mode(&self) -> OpenMode {
        self.fifo_lock
    }

    /// A handle that is not open.
    pub fn new() -> (r: Self)
        ensures
            r.mode() == OpenMode::Locked,
    {
        SerialDispatcher { fifo_lock: OpenMode::Locked }
    }

    /// How the handle is open.
    pub fn open_mode(&self) -> (r: OpenMode)
        ensures
            r == self.mode(),
    {
        self.fifo_lock
    }

    /// A serial port is a character device.
    pub fn file_type(&self) -> (r: FileType)
        ensures
            r == FileType::CharDev,
    {
        FileType::CharDev
    }

    /// A serial port is read and written byte by byte.
    pub fn block_size(&self) -> (r: u64)
        ensures
            r == 1,
    {
        1
    }

    /// The device that the file stands for.
    pub fn device<W>(&self, inner: &SerialDispatcherInner<W>) -> (r: DevID)
        ensures
            r == inner.dev_id(),
    {
        inner.id
    }

    /// The file of a port has the id 0.
    pub fn id(&self) -> (r: u64)
        ensures
            r == 0,
    {
        0
    }

    /// The file of a port has no length to speak of.
    pub fn len(&self) -> (r: Result<u64, IoError>)
        ensures
            r == Ok::<u64, IoError>(0),
    {
        Ok(0)
    }

    /// A file of its own on the same port, open as this one is.
    pub fn clone_file(&self) -> (r: File)
        ensures
            r == File::Port(*self),
    {
        File::Port(*self)
    }

    /// The file that goes with the port under the number `id`: number 0
    /// is the frame control file, and no other number has a file. Number
    /// 1 is set aside and must not be asked for.
    pub fn b_file(&self, id: u64) -> (r: Option<File>)
        requires
            id != 1,
        ensures
            r == if id == 0 {
                Some(File::FrameCtl(FrameCtlBFile {  }))
            } else {
                None
            },
    {
        if id == 0 {
            Some(File::FrameCtl(FrameCtlBFile {  }))
        } else {
            None
        }
    }

    /// A port has no master.
    pub fn is_master(&self) -> (r: Option<usize>)
        ensures
            r.is_none(),
    {
        None
    }

    /// What [`SerialDispatcher::open`] returns: the port must be there,
    /// and to read, no handle may be open for reading.
    pub open spec fn open_result<W>(inner: &SerialDispatcherInner<W>, mode: OpenMode) -> Result<
        (),
        IoError,
    > {
        if inner.port().is_none() {
            Err(IoError::MediaError)
        } else if mode.reads() && inner.read_locked() {
            Err(IoError::Busy)
        } else {
            Ok(())
        }
    }

    /// Opens the handle. Opening for reading takes the read lock of the
    /// port.
    pub fn open<W>(&mut self, inner: &mut SerialDispatcherInner<W>, mode: OpenMode) -> (r: Result<
        (),
        IoError,
    >)
        ensures
            old(inner).wf() ==> final(inner).wf(),
            r == Self::open_result(old(inner), mode),
            r is Ok ==> final(self).mode() == mode && final(inner).read_locked() == (old(inner).read_locked() || mode.reads()),
            r is Err ==> final(self).mode() == old(self).mode() && final(inner).read_locked()
                == old(inner).read_locked(),
            final(inner).port() == old(inner).port(),
            final(inner).quota() == old(inner).quota(),
            final(inner).dev_id() == old(inner).dev_id(),
            final(inner).pending() == old(inner).pending(),
            final(inner).draining() == old(inner).draining(),
            final(inner).stream() == old(inner).stream(),
    {
        if inner.serial.is_none() {
            return Err(IoError::MediaError);
        }
        if mode.is_read() {
            if inner.stream_lock {
                return Err(IoError::Busy);
            }
            inner.stream_lock = true;
        }
        self.fifo_lock = mode;
        Ok(())
    }

    /// Closes the handle, unless it is not open. Closing a handle that
    /// was open for writing releases the read lock of the port.
    pub fn close<W>(&mut self, inner: &mut SerialDispatcherInner<W>) -> (r: Result<(), IoError>)
        ensures
            old(inner).wf() ==> final(inner).wf(),
            r == if old(self).mode() == OpenMode::Locked {
                Err::<(), IoError>(IoError::NotReady)
            } else {
                Ok::<(), IoError>(())
            },
            final(self).mode() == OpenMode::Locked,
            final(inner).read_locked() == (old(inner).read_locked() && !old(self).mode().writes()),
            final(inner).port() == old(inner).port(),
            final(inner).quota() == old(inner).quota(),
            final(inner).dev_id() == old(inner).dev_id(),
            final(inner).pending() == old(inner).pending(),
            final(inner).draining() == old(inner).draining(),
            final(inner).stream() == old(inner).stream(),
    {
        if self.fifo_lock == OpenMode::Locked {
            return Err(IoError::NotReady);
        }
        if self.fifo_lock.is_write() {
            inner.stream_lock = false;
        }
        self.fifo_lock = OpenMode::Locked;
        Ok(())
    }

    /// How many more handles can be opened in `mode`: for a mode that
    /// writes, one while the read lock is free and none while it is
    /// taken; for any other mode, as many as one likes.
    pub fn locks_remain<W>(&self, inner: &SerialDispatcherInner<W>, mode: OpenMode) -> (r: usize)
        ensures
            r == if mode.writes() {
                if inner.read_locked() {
                    0usize
                } else {
                    1usize
                }
            } else {
                usize::MAX
            },
    {
        if mode.is_write() {
            if inner.stream_lock {
                0
            } else {
                1
            }
        } else {
            usize::MAX
        }
    }

    /// Starts a read of `len` bytes. The handle must be open for reading,
    /// the port must be there, and no other read may be under way. The
    /// read takes the bytes that have come in already, oldest first, as
    /// far as it has use for them. If that fills it, it is done. If not,
    /// it is under way from now on, and bytes that come in go to it.
    pub fn read<W>(&mut self, inner: &mut SerialDispatcherInner<W>, len: usize) -> (r: ReadStart)
        ensures
            old(inner).wf() ==> final(inner).wf(),
            final(self).mode() == old(self).mode(),
            final(inner).quota() == old(inner).quota(),
            final(inner).dev_id() == old(inner).dev_id(),
            final(inner).pending() == old(inner).pending(),
            final(inner).draining() == old(inner).draining(),
            final(inner).stream() == old(inner).stream(),
            final(inner).read_locked() == old(inner).read_locked(),
            if !old(self).mode().reads() {
                r == ReadStart::Failed(IoError::NotReady, 0) && final(inner).port() == old(inner).port()
            } else {
                match old(inner).port() {
                    None => r == ReadStart::Failed(IoError::MediaError, 0) && final(inner).port().is_none(),
                    Some(p) => if p.target.is_some() {
                        r == ReadStart::Failed(IoError::Busy, 0) && final(inner).port() == Some(p)
                    } else {
                        let n = if len <= p.buffered.len() {
                            len as int
                        } else {
                            p.buffered.len() as int
                        };
                        if n == len {
                            &&& r matches ReadStart::Done(v) && v@ == p.buffered.take(n)
                            &&& final(inner).port() == Some(
                                SerialView { buffered: p.buffered.skip(n), ..p },
                            )
                        } else {
                            &&& r is Pending
                            &&& final(inner).port() == Some(
                                SerialView {
                                    buffered: p.buffered.skip(n),
                                    target: Some((p.buffered.take(n), len)),
                                    rx_interrupt: true,
                                    ..p
                                },
                            )
                        }
                    },
                }
            },
    {
        if !self.fifo_lock.is_read() {
            return ReadStart::Failed(IoError::NotReady, 0);
        }
        match &mut inner.serial {
            None => ReadStart::Failed(IoError::MediaError, 0),
            Some(serial) => {
                if serial.has_target() {
                    return ReadStart::Failed(IoError::Busy, 0);
                }
                let ghost p = serial@;
                let mut buff: Vec<u8> = Vec::new();
                proof {
                    assert(p.buffered.skip(0) =~= p.buffered);
                    assert(p.buffered.take(0) =~= buff@);
                }
                while buff.len() < len
                    invariant
                        buff@.len() <= len,
                        buff@.len() <= p.buffered.len(),
                        buff@ == p.buffered.take(buff@.len() as int),
                        serial@ == (SerialView { buffered: p.buffered.skip(buff@.len() as int), ..p }),
                    ensures
                        buff@.len() == len || buff@.len() == p.buffered.len(),
                    decreases len - buff@.len(),
                {
                    match serial.receive() {
                        Some(b) => {
                            let ghost before = buff@;
                            buff.push(b);
                            proof {
                                let k = before.len() as int;
                                assert(p.buffered.skip(k)[0] == p.buffered[k]);
                                assert(p.buffered.take(k + 1) =~= before.push(b));
                                assert(p.buffered.skip(k).skip(1) =~= p.buffered.skip(k + 1));
                            }
                        },
                        None => {
                            break ;
                        },
                    }
                }
                if buff.len() == len {
                    ReadStart::Done(buff)
                } else {
                    serial.install_target(buff, len);
                    ReadStart::Pending
                }
            },
        }
    }

    /// Looks at the read under way, for the task whose waker is `waker`.
    /// The read is over when it has all its bytes, or one byte at least
    /// with the line idle; it ends then, with the bytes that it has. Else
    /// the task waits on: `waker` takes the place of any waker that was
    /// kept for the reader before.
    pub fn poll_read<W>(&self, inner: &mut SerialDispatcherInner<W>, waker: W) -> (r: ReadPoll)
        requires
            self.mode().reads() ==> (old(inner).port() matches Some(p) ==> p.target.is_some()),
        ensures
            old(inner).wf() ==> final(inner).wf(),
            final(inner).quota() == old(inner).quota(),
            final(inner).dev_id() == old(inner).dev_id(),
            final(inner).pending() == old(inner).pending(),
            final(inner).draining() == old(inner).draining(),
            final(inner).read_locked() == old(inner).read_locked(),
            if !self.mode().reads() {
                &&& r == ReadPoll::Ready(Err((IoError::NotReady, 0)))
                &&& final(inner).port() == old(inner).port()
                &&& final(inner).stream() == old(inner).stream()
            } else {
                match old(inner).port() {
                    None => {
                        &&& r == ReadPoll::Ready(Err((IoError::MediaError, 0)))
                        &&& final(inner).port().is_none()
                        &&& final(inner).stream() == old(inner).stream()
                    },
                    Some(p) => {
                        let t = p.target.unwrap();
                        if read_complete(t.0.len(), t.1 as nat, p.idle) {
                            &&& r matches ReadPoll::Ready(Ok(v)) && v@ == t.0
                            &&& final(inner).port() == Some(SerialView { target: None, ..p })
                            &&& final(inner).stream() == old(inner).stream()
                        } else {
                            &&& r is Pending
                            &&& final(inner).port() == Some(p)
                            &&& final(inner).stream() == Some(waker)
                        }
                    },
                }
            },
    {
        if !self.fifo_lock.is_read() {
            return ReadPoll::Ready(Err((IoError::NotReady, 0)));
        }
        match &mut inner.serial {
            None => ReadPoll::Ready(Err((IoError::MediaError, 0))),
            Some(serial) => {
                let (filled, want) = match serial.target_progress() {
                    Some(p) => p,
                    None => (0, 0),
                };
                if filled == want || (serial.is_idle() && filled > 0) {
                    match serial.take_target() {
                        Some(data) => ReadPoll::Ready(Ok(data)),
                        None => ReadPoll::Ready(Ok(Vec::new())),
                    }
                } else {
                    inner.stream = Some(waker);
                    ReadPoll::Pending
                }
            },
        }
    }

    /// Whether a writer is woken by a round of the drive loop that finds
    /// the port in state `port`: bytes have gone out since the last round,
    /// fewer bytes than the quota are queued, and no drain is marked as
    /// under way.
    pub open spec fn wakes_writer<W>(inner: &SerialDispatcherInner<W>, port: SerialView) -> bool {
        port.completed() && port.queued.len() < inner.quota() && !inner.draining()
    }

    /// What a round of the drive loop returns and leaves behind. With the
    /// port gone, the loop is to stop and nothing changes. Otherwise the
    /// room of the bytes that have gone out is given back; the waker of
    /// the reader is handed out; a drain is marked as under way if room
    /// was given back and fewer bytes than the quota are queued; and if a
    /// writer is woken by this round, the waker that has waited longest
    /// is handed out and leaves the line.
    pub open spec fn round<W>(
        before: SerialDispatcherInner<W>,
        r: RunStep<W>,
        after: SerialDispatcherInner<W>,
    ) -> bool {
        match before.port() {
            None => r is StoppedExternally && after == before,
            Some(p) => {
                &&& r matches RunStep::Wake { stream, writer }
                &&& stream == before.stream()
                &&& after.stream().is_none()
                &&& after.port() == Some(SerialView { freed: p.popped, ..p })
                &&& after.quota() == before.quota()
                &&& after.dev_id() == before.dev_id()
                &&& after.read_locked() == before.read_locked()
                &&& after.draining() == (before.draining() || (p.completed() && p.queued.len()
                    < before.quota()))
                &&& if Self::wakes_writer(&before, p) && before.pending().len() > 0 {
                    &&& writer == Some(before.pending()[0])
                    &&& after.pending() == before.pending().skip(1)
                } else {
                    &&& writer.is_none()
                    &&& after.pending() == before.pending()
                }
            },
        }
    }

    /// One round of the drive loop, to be run each time the port is
    /// ready. With the port gone, the loop is to stop. Otherwise the room
    /// of the bytes that have gone out is given back, the reader that
    /// waits is to be woken, and so is the writer that has waited longest,
    /// if a writer is woken in this round at all.
    pub fn run<W>(&self, inner: &mut SerialDispatcherInner<W>) -> (r: RunStep<W>)
        requires
            old(inner).wf(),
        ensures
            final(inner).wf(),
            Self::round(*old(inner), r, *final(inner)),
    {
        match &mut inner.serial {
            Some(port) => {
                let stream = inner.stream.take();
                let mut writer: Option<W> = None;
                let freed: bool = port.free();
                if freed {
                    if port.queued_len() < inner.quota {
                        let was: bool = inner.draining;
                        inner.draining = true;
                        if !was {
                            writer = inner.pend.pop_front();
                            proof {
                                if writer.is_some() {
                                    assert(old(inner).pending().subrange(
                                        1,
                                        old(inner).pending().len() as int,
                                    ) =~= old(inner).pending().skip(1));
                                }
                            }
                        }
                    }
                }
                RunStep::Wake { stream, writer }
            },
            None => RunStep::StoppedExternally,
        }
    }

    /// What asking whether a write may go ahead returns and leaves
    /// behind, for a handle that is or is not open for writing. The
    /// answer is to wait exactly while more bytes take up room in the
    /// buffer than the quota allows; the waker is then put last in the
    /// line of those that wait. Nothing else changes.
    pub open spec fn asked<W>(
        writes: bool,
        before: SerialDispatcherInner<W>,
        waker: W,
        r: WriteReady,
        after: SerialDispatcherInner<W>,
    ) -> bool {
        &&& after.port() == before.port()
        &&& after.quota() == before.quota()
        &&& after.dev_id() == before.dev_id()
        &&& after.draining() == before.draining()
        &&& after.stream() == before.stream()
        &&& after.read_locked() == before.read_locked()
        &&& r == if !writes {
            WriteReady::Failed(IoError::NotReady)
        } else {
            match before.port() {
                None => WriteReady::Failed(IoError::MediaError),
                Some(p) => if p.occupancy() > before.quota() {
                    WriteReady::Wait
                } else {
                    WriteReady::Ready
                },
            }
        }
        &&& after.pending() == if r == WriteReady::Wait {
            before.pending().push(waker)
        } else {
            before.pending()
        }
    }

    /// Asks whether a write may go ahead, for the task whose waker is
    /// `waker`. While more bytes take up room in the buffer than the quota
    /// allows it may not: the waker is put behind those of the writers
    /// that wait already, and the task is to wait until it is woken.
    pub fn poll_ready<W>(&self, inner: &mut SerialDispatcherInner<W>, waker: W) -> (r: WriteReady)
        requires
            old(inner).wf(),
        ensures
            final(inner).wf(),
            Self::asked(self.mode().writes(), *old(inner), waker, r, *final(inner)),
    {
        if !self.fifo_lock.is_write() {
            return WriteReady::Failed(IoError::NotReady);
        }
        let occupied: u64 = match &inner.serial {
            None => {
                return WriteReady::Failed(IoError::MediaError);
            },
            Some(serial) => serial.occupancy(),
        };
        if occupied > inner.quota as u64 {
            inner.pend.push_back(waker);
            WriteReady::Wait
        } else {
            WriteReady::Ready
        }
    }

    /// Whether `len` bytes can be written: the count of bytes ever queued
    /// on the port stays within 64 bits.
    pub open spec fn writable<W>(inner: &SerialDispatcherInner<W>, len: int) -> bool {
        inner.port() matches Some(p) ==> p.pushed + len <= u64::MAX
    }

    /// Executable form of [`SerialDispatcher::writable`].
    pub fn can_write<W>(&self, inner: &SerialDispatcherInner<W>, len: usize) -> (r: bool)
        ensures
            r == Self::writable(inner, len as int),
    {
        match &inner.serial {
            Some(serial) => serial.can_push(len),
            None => true,
        }
    }

    /// What a write returns and leaves behind: what
    /// [`SerialDispatcher::write_result`] says of the port; a write that
    /// goes through ends the drain that a round of the drive loop may
    /// have marked as under way; and nothing else changes.
    pub open spec fn wrote<W>(
        writes: bool,
        before: SerialDispatcherInner<W>,
        buff: Seq<u8>,
        r: Result<WriteStart, (IoError, usize)>,
        after: SerialDispatcherInner<W>,
    ) -> bool {
        &&& Self::write_result(writes, before.port(), buff, r, after.port())
        &&& after.draining() == (before.draining() && r is Err)
        &&& after.quota() == before.quota()
        &&& after.dev_id() == before.dev_id()
        &&& after.pending() == before.pending()
        &&& after.stream() == before.stream()
        &&& after.read_locked() == before.read_locked()
    }

    /// Writes `buff`. The handle must be open for writing and the port
    /// must be there. The bytes are queued behind those that wait to go
    /// out. If the port is not sending, it is set sending: the byte that
    /// has waited longest is taken off the queue, to be handed to the
    /// hardware. The write is over when [`SerialDispatcher::poll_write`]
    /// says so for the ticket that is returned.
    ///
    /// A write that goes through ends the drain. A round of the drive
    /// loop marks a drain as under way whether or not a writer was in
    /// line to be woken, so the mark is lifted by the next write,
    /// whoever makes it: the round after it can wake the next in line.
    pub fn write<W>(&mut self, inner: &mut SerialDispatcherInner<W>, buff: &[u8]) -> (r: Result<
        WriteStart,
        (IoError, usize),
    >)
        requires
            old(inner).wf(),
            Self::writable(old(inner), buff@.len() as int),
        ensures
            final(inner).wf(),
            final(self).mode() == old(self).mode(),
            Self::wrote(old(self).mode().writes(), *old(inner), buff@, r, *final(inner)),
    {
        if !self.fifo_lock.is_write() {
            return Err((IoError::NotReady, 0));
        }
        match &mut inner.serial {
            None => Err((IoError::MediaError, 0)),
            Some(serial) => {
                let run: bool = serial.start_run();
                let ticket: u64 = serial.push(buff);
                let primed: Option<u8> = if !run {
                    serial.pop()
                } else {
                    None
                };
                inner.draining = false;
                Ok(WriteStart { primed, len: buff.len(), ticket })
            },
        }
    }

    /// What a write returns and what it leaves of the port, for a handle
    /// that is or is not open for writing.
    pub open spec fn write_result(
        writes: bool,
        port: Option<SerialView>,
        buff: Seq<u8>,
        r: Result<WriteStart, (IoError, usize)>,
        after: Option<SerialView>,
    ) -> bool {
        if !writes {
            r == Err::<WriteStart, (IoError, usize)>((IoError::NotReady, 0)) && after == port
        } else {
            match port {
                None => r == Err::<WriteStart, (IoError, usize)>((IoError::MediaError, 0))
                    && after.is_none(),
                Some(p) => {
                    let queue = p.queued + buff;
                    let ticket = (p.pushed + buff.len()) as u64;
                    let queued = SerialView { queued: queue, pushed: ticket, running: true, ..p };
                    if p.running || queue.len() == 0 {
                        &&& r == Ok::<WriteStart, (IoError, usize)>(
                            WriteStart { primed: None, len: buff.len() as usize, ticket },
                        )
                        &&& after == Some(SerialView { running: p.running, ..queued })
                    } else {
                        &&& r == Ok::<WriteStart, (IoError, usize)>(
                            WriteStart { primed: Some(queue[0]), len: buff.len() as usize, ticket },
                        )
                        &&& after == Some(
                            SerialView {
                                queued: queue.skip(1),
                                popped: (p.popped + 1) as u64,
                                ..queued
                            },
                        )
                    }
                },
            }
        }
    }

    /// Whether the write with the given ticket is over: with the port
    /// gone it has failed; else it is over once room has been given back
    /// for all bytes up to its last.
    pub fn poll_write<W>(&self, inner: &SerialDispatcherInner<W>, ticket: u64) -> (r: WritePoll)
        ensures
            r == match inner.port() {
                None => WritePoll::Failed(IoError::MediaError),
                Some(p) => if p.freed >= ticket {
                    WritePoll::Done
                } else {
                    WritePoll::Pending
                },
            },
    {
        match &inner.serial {
            None => WritePoll::Failed(IoError::MediaError),
            Some(serial) => {
                if serial.freed() >= ticket {
                    WritePoll::Done
                } else {
                    WritePoll::Pending
                }
            },
        }
    }

    /// Writes `data`, which is 128 bytes long at most, without regard to
    /// who has the port open and to the quota. The bytes are queued like
    /// those of any write, so they may come out between the bytes of
    /// writers that wait.
    pub fn write_sync<W>(&self, inner: &mut SerialDispatcherInner<W>, data: &[u8]) -> (r: Result<
        WriteStart,
        (IoError, usize),
    >)
        requires
            data@.len() <= SYNC_WRITE_LIMIT,
            old(inner).wf(),
            Self::writable(old(inner), data@.len() as int),
        ensures
            final(inner).wf(),
            Self::wrote(true, *old(inner), data@, r, *final(inner)),
    {
        match self.clone_file().as_fifo() {
            Ok(fifo) => {
                let mut handle = fifo;
                match handle.open(inner, OpenMode::Write) {
                    Ok(()) => handle.write(inner, data),
                    Err(e) => Err((e, 0)),
                }
            },
            Err(_) => Err((IoError::NotSupported, 0)),
        }
    }

    /// A write over quota, from the asking to the writing. A writer that
    /// asks while more bytes take up room than the quota allows is told
    /// to wait, and its waker is put last in line. A round of the drive
    /// loop that wakes no writer leaves the line as it is. A round wakes
    /// the writer only when its waker is first in line, bytes have gone
    /// out, fewer bytes than the quota are queued and no drain is under
    /// way; after such a round fewer bytes than the quota take up room,
    /// so the writer, asking again, is let through. Its write then queues
    /// all its bytes, in order, behind what was queued, returns their
    /// number, and ends the drain.
    pub proof fn lemma_write_over_quota<W>(
        asking: SerialDispatcherInner<W>,
        waiting: SerialDispatcherInner<W>,
        idle_round: (SerialDispatcherInner<W>, SerialDispatcherInner<W>),
        idle_reader: Option<W>,
        waking_round: (SerialDispatcherInner<W>, SerialDispatcherInner<W>),
        woken_reader: Option<W>,
        let_through: SerialDispatcherInner<W>,
        written: SerialDispatcherInner<W>,
        waker: W,
        waker_again: W,
        buff: Seq<u8>,
        told: WriteReady,
        told_again: WriteReady,
        start: Result<WriteStart, (IoError, usize)>,
    )
        requires
            asking.wf(),
            asking.port() matches Some(p) && p.occupancy() > asking.quota(),
            Self::asked(true, asking, waker, told, waiting),
            Self::round(idle_round.0, RunStep::Wake { stream: idle_reader, writer: None }, idle_round.1),
            waking_round.0.wf(),
            Self::round(
                waking_round.0,
                RunStep::Wake { stream: woken_reader, writer: Some(waker) },
                waking_round.1,
            ),
            Self::asked(true, waking_round.1, waker_again, told_again, let_through),
            buff.len() <= usize::MAX,
            Self::wrote(true, let_through, buff, start, written),
        ensures
            told == WriteReady::Wait,
            waiting.pending() == asking.pending().push(waker),
            waiting.port() == asking.port(),
            idle_round.1.pending() == idle_round.0.pending(),
            waking_round.0.pending().len() > 0 && waking_round.0.pending()[0] == waker,
            waking_round.1.pending() == waking_round.0.pending().skip(1),
            !waking_round.0.draining(),
            waking_round.0.port() matches Some(p) && p.completed() && p.queued.len()
                < waking_round.0.quota(),
            waking_round.1.port() matches Some(p) && p.occupancy() < waking_round.1.quota(),
            told_again == WriteReady::Ready,
            let_through.pending() == waking_round.1.pending(),
            start matches Ok(s) && s.len == buff.len(),
            (let_through.port() matches Some(p) && written.port() matches Some(q) && match start {
                Ok(s) => match s.primed {
                    Some(b) => seq![b] + q.queued == p.queued + buff,
                    None => q.queued == p.queued + buff,
                },
                Err(_) => false,
            }),
            !written.draining(),
            written.pending() == let_through.pending(),
    {
        let p = let_through.port().unwrap();
        let queue = p.queued + buff;
        if !(p.running || queue.len() == 0) {
            assert(seq![queue[0]] + queue.skip(1) =~= queue);
        }
    }
}

/// The frame control file of a port.
#[derive(Clone, Copy, Debug, PartialEq, Eq, Structural)]
pub struct FrameCtlBFile {}

/// The files of the serial driver. A file is of one kind, and can be
/// used only as what it is: asking for another kind fails and hands the
/// file back.
#[derive(Clone, Copy, Debug, PartialEq, Eq, Structural)]
pub enum File {
    /// The port itself, a fifo.
    Port(SerialDispatcher),
    /// The frame control file, a normal file.
    FrameCtl(FrameCtlBFile),
}

impl File {
    /// The kind of the file.
    pub fn file_type(&self) -> (r: FileType)
        ensures
            r == match self {
                File::Port(_) => FileType::CharDev,
                File::FrameCtl(_) => FileType::NormalFile,
            },
    {
        match self {
            File::Port(d) => d.file_type(),
            File::FrameCtl(f) => f.file_type(),
        }
    }

    /// The file as a fifo, which only the port is.
    pub fn as_fifo(self) -> (r: Result<SerialDispatcher, File>)
        ensures
            r == match self {
                File::Port(d) => Ok::<SerialDispatcher, File>(d),
                File::FrameCtl(_) => Err::<SerialDispatcher, File>(self),
            },
    {
        match self {
            File::Port(d) => Ok(d),
            File::FrameCtl(_) => Err(self),
        }
    }

    /// The file as a device file, which only the port is.
    pub fn as_device_file(self) -> (r: Result<SerialDispatcher, File>)
        ensures
            r == match self {
                File::Port(d) => Ok::<SerialDispatcher, File>(d),
                File::FrameCtl(_) => Err::<SerialDispatcher, File>(self),
            },
    {
        self.as_fifo()
    }

    /// The file as a normal file, which only the frame control file is.
    pub fn as_normal_file(self) -> (r: Result<FrameCtlBFile, File>)
        ensures
            r == match self {
                File::Port(_) => Err::<FrameCtlBFile, File>(self),
                File::FrameCtl(f) => Ok::<FrameCtlBFile, File>(f),
            },
    {
        match self {
            File::Port(_) => Err(self),
            File::FrameCtl(f) => Ok(f),
        }
    }

    /// None of these files is a directory.
    pub fn is_directory(&self) -> (r: bool)
        ensures
            !r,
    {
        false
    }
}

impl FrameCtlBFile {
    /// The frame control file is a normal file.
    pub fn file_type(&self) -> (r: FileType)
        ensures
            r == FileType::NormalFile,
    {
        FileType::NormalFile
    }

    /// A file of its own for the same settings.
    pub fn clone_file(&self) -> (r: File)
        ensures
            r == File::FrameCtl(*self),
    {
        File::FrameCtl(*self)
    }

    /// The frame control file has blocks of one page.
    pub fn block_size(&self) -> (r: u64)
        ensures
            r == FRAME_CTL_BLOCK,
    {
        FRAME_CTL_BLOCK
    }

    /// The device that the file belongs to.
    pub fn device<W>(&self, inner: &SerialDispatcherInner<W>) -> (r: DevID)
        ensures
            r == inner.dev_id(),
    {
        inner.id
    }

    /// The frame control file has the id 0.
    pub fn id(&self) -> (r: u64)
        ensures
            r == 0,
    {
        0
    }

    /// The frame control file counts as one page long.
    pub fn len(&self) -> (r: Result<u64, IoError>)
        ensures
            r == Ok::<u64, IoError>(FRAME_CTL_BLOCK),
    {
        Ok(FRAME_CTL_BLOCK)
    }

    /// The frame control file counts as one page of characters long.
    pub fn len_chars(&self) -> (r: Result<u64, IoError>)
        ensures
            r == Ok::<u64, IoError>(FRAME_CTL_BLOCK),
    {
        Ok(FRAME_CTL_BLOCK)
    }

    /// The frame control file cannot be locked.
    pub fn file_lock(self) -> (r: Result<(), (IoError, FrameCtlBFile)>)
        ensures
            r == Err::<(), (IoError, FrameCtlBFile)>((IoError::NotSupported, self)),
    {
        Err((IoError::NotSupported, self))
    }

    /// The frame control file cannot be unlocked.
    pub fn unlock_unsafe(&self) -> (r: Result<(), IoError>)
        ensures
            r == Err::<(), IoError>(IoError::NotSupported),
    {
        Err(IoError::NotSupported)
    }

    /// Reads the line settings of the port as text into a buffer of
    /// `room` bytes. Fails if the port is gone, and if the text is longer
    /// than the buffer.
    pub fn read<W>(&self, inner: &SerialDispatcherInner<W>, room: usize) -> (r: Result<
        Vec<u8>,
        (IoError, usize),
    >)
        requires
            inner.wf(),
        ensures
            match inner.port() {
                None => r == Err::<Vec<u8>, (IoError, usize)>((IoError::MediaError, 0)),
                Some(p) => if render(p.frame).len() > room {
                    r == Err::<Vec<u8>, (IoError, usize)>((IoError::EndOfFile, room))
                } else {
                    r matches Ok(v) && v@ == render(p.frame) && v@.len() <= 10
                },
            },
    {
        match &inner.serial {
            None => Err((IoError::MediaError, 0)),
            Some(serial) => {
                let frame = serial.frame();
                let text = render_frame_ctl(&frame);
                if text.len() > room {
                    Err((IoError::EndOfFile, room))
                } else {
                    Ok(text)
                }
            },
        }
    }

    /// Sets the line settings of the port from text. Text that is not
    /// well formed is refused as invalid data and changes nothing; so
    /// does a port that is gone, as a media error. Otherwise the port has
    /// the settings that the text asks for, and the length of the text is
    /// returned.
    pub fn write<W>(&mut self, inner: &mut SerialDispatcherInner<W>, buff: &[u8]) -> (r: Result<
        usize,
        (IoError, usize),
    >)
        ensures
            old(inner).wf() ==> final(inner).wf(),
            final(inner).quota() == old(inner).quota(),
            final(inner).dev_id() == old(inner).dev_id(),
            final(inner).pending() == old(inner).pending(),
            final(inner).draining() == old(inner).draining(),
            final(inner).stream() == old(inner).stream(),
            final(inner).read_locked() == old(inner).read_locked(),
            match parse(buff@) {
                None => r == Err::<usize, (IoError, usize)>((IoError::InvalidData, 0)) && final(inner).port() == old(inner).port(),
                Some(f) => match old(inner).port() {
                    None => r == Err::<usize, (IoError, usize)>((IoError::MediaError, 0)) && final(inner).port().is_none(),
                    Some(p) => r == Ok::<usize, (IoError, usize)>(buff@.len() as usize) && final(inner).port() == Some(SerialView { frame: f, ..p }),
                },
            },
    {
        let frame = match parse_frame_ctl(buff) {
            Some(f) => f,
            None => {
                return Err((IoError::InvalidData, 0));
            },
        };
        match &mut inner.serial {
            None => Err((IoError::MediaError, 0)),
            Some(serial) => {
                serial.set_char_mode(frame.data_bits, frame.parity, frame.stop_bits);
                let set: bool = serial.set_divisor(frame.divisor);
                Ok(buff.len())
            },
        }
    }
}

} // verus!
