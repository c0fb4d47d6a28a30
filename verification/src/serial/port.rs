//! What the dispatcher sees of a serial port: its line settings, the bytes
//! that came in, the buffer that a read waits on, and the bytes that are
//! on their way out.
//!
//! The interrupt handlers of the port report what the hardware did by
//! the methods of this type; the dispatcher reads and changes the rest.

use vstd::prelude::*;
use std::collections::VecDeque;
use super::frame_ctl::FrameCtl;
use super::DataBits;
use super::Parity;
use super::StopBits;

verus! {

/// The state of a port as contracts speak of it.
pub struct SerialView {
    /// The line settings.
    pub frame: FrameCtl,
    /// Bytes that came in and were not read yet, oldest first.
    pub buffered: Seq<u8>,
    /// The bytes that came in for the read that is under way, and the
    /// number of bytes that it asked for.
    pub target: Option<(Seq<u8>, usize)>,
    /// Whether the line has gone idle since the last byte came in.
    pub idle: bool,
    /// Whether the port interrupts when a byte comes in.
    pub rx_interrupt: bool,
    /// Bytes that wait to go out, oldest first.
    pub queued: Seq<u8>,
    /// Number of bytes that were ever queued.
    pub pushed: u64,
    /// Number of bytes that were ever taken off the queue to go out.
    pub popped: u64,
    /// Number of bytes whose room in the buffer was given back.
    pub freed: u64,
    /// Whether the port is sending.
    pub running: bool,
}

impl SerialView {
    /// Bytes that take up room in the buffer: those that wait to go out
    /// and those that have gone out since room was last given back.
    pub open spec fn occupancy(self) -> int {
        self.pushed - self.freed
    }

    /// Whether bytes have gone out whose room was not given back yet.
    pub open spec fn completed(self) -> bool {
        self.freed < self.popped
    }
}

/// The buffer of a read that is under way: the bytes that came in for it
/// and the number of bytes that it asked for.
pub struct RxTarget {
    data: Vec<u8>,
    want: usize,
}

/// A serial port.
pub struct Serial {
    frame: FrameCtl,
    rx_buffer: VecDeque<u8>,
    rx_tgt: Option<RxTarget>,
    rx_idle: bool,
    rx_int: bool,
    tx: VecDeque<u8>,
    pushed: u64,
    popped: u64,
    freed: u64,
    run: bool,
}

impl View for Serial {
    type V = SerialView;

    closed spec fn view(&self) -> SerialView {
        SerialView {
            frame: self.frame,
            buffered: self.rx_buffer@,
            target: match self.rx_tgt {
                Some(t) => Some((t.data@, t.want)),
                None => None,
            },
            idle: self.rx_idle,
            rx_interrupt: self.rx_int,
            queued: self.tx@,
            pushed: self.pushed,
            popped: self.popped,
            freed: self.freed,
            running: self.run,
        }
    }
}

/// What holds of every port: the divisor is not 0; a read never has more
/// bytes than it asked for; and of the bytes that were queued, those that
/// were not taken off the queue are on it, and room was given back for
/// none but those that were taken off.
pub open spec fn port_wf(v: SerialView) -> bool {
    &&& v.frame.divisor > 0
    &&& v.target matches Some(t) ==> t.0.len() <= t.1
    &&& v.freed <= v.popped <= v.pushed
    &&& v.queued.len() == v.pushed - v.popped
}

impl Serial {
    /// What holds of every port.
    pub open spec fn wf(&self) -> bool {
        port_wf(self@)
    }

    /// A port with the given line settings, with nothing received and
    /// nothing to send. `None` for a divisor of 0.
    pub fn new(frame: FrameCtl) -> (r: Option<Serial>)
        ensures
            r.is_some() == (frame.divisor > 0),
            r matches Some(p) ==> p@ == (SerialView {
                frame,
                buffered: Seq::empty(),
                target: None,
                idle: false,
                rx_interrupt: false,
                queued: Seq::empty(),
                pushed: 0,
                popped: 0,
                freed: 0,
                running: false,
            }),
            r matches Some(p) ==> p.wf(),
    {
        if frame.divisor == 0 {
            None
        } else {
            Some(
                Serial {
                    frame,
                    rx_buffer: VecDeque::new(),
                    rx_tgt: None,
                    rx_idle: false,
                    rx_int: false,
                    tx: VecDeque::new(),
                    pushed: 0,
                    popped: 0,
                    freed: 0,
                    run: false,
                },
            )
        }
    }

    /// The line settings.
    pub fn frame(&self) -> (r: FrameCtl)
        ensures
            r == self@.frame,
    {
        self.frame
    }

    /// Sets data bits, parity and stop bits.
    pub fn set_char_mode(&mut self, data_bits: DataBits, parity: Parity, stop_bits: StopBits)
        ensures
            old(self).wf() ==> final(self).wf(),
            final(self)@ == (SerialView {
                frame: FrameCtl {
                    divisor: old(self)@.frame.divisor,
                    data_bits,
                    parity,
                    stop_bits,
                },
                ..old(self)@
            }),
    {
        self.frame = FrameCtl { divisor: self.frame.divisor, data_bits, parity, stop_bits };
    }

    /// Sets the divisor, unless it is 0; returns whether it was set.
    pub fn set_divisor(&mut self, divisor: u16) -> (r: bool)
        ensures
            old(self).wf() ==> final(self).wf(),
            r == (divisor > 0),
            r ==> final(self)@ == (SerialView {
                frame: FrameCtl { divisor, ..old(self)@.frame },
                ..old(self)@
            }),
            !r ==> final(self)@ == old(self)@,
    {
        if divisor == 0 {
            false
        } else {
            self.frame = FrameCtl {
                divisor,
                data_bits: self.frame.data_bits,
                parity: self.frame.parity,
                stop_bits: self.frame.stop_bits,
            };
            true
        }
    }

    /// Whether a read is under way.
    pub fn has_target(&self) -> (r: bool)
        ensures
            r == self@.target.is_some(),
    {
        self.rx_tgt.is_some()
    }

    /// Whether the line is idle.
    pub fn is_idle(&self) -> (r: bool)
        ensures
            r == self@.idle,
    {
        self.rx_idle
    }

    /// Number of bytes that wait to go out.
    pub fn queued_len(&self) -> (r: usize)
        ensures
            r == self@.queued.len(),
    {
        self.tx.len()
    }

    /// Takes the oldest byte that came in and was not read yet.
    pub fn receive(&mut self) -> (r: Option<u8>)
        ensures
            old(self).wf() ==> final(self).wf(),
            r.is_some() == (old(self)@.buffered.len() > 0),
            r matches Some(b) ==> b == old(self)@.buffered[0] && final(self)@ == (SerialView {
                buffered: old(self)@.buffered.skip(1),
                ..old(self)@
            }),
            r.is_none() ==> final(self)@ == old(self)@,
    {
        let r = self.rx_buffer.pop_front();
        proof {
            if r.is_some() {
                assert(old(self)@.buffered.subrange(1, old(self)@.buffered.len() as int)
                    =~= old(self)@.buffered.skip(1));
            }
        }
        r
    }

    /// Makes `data`, of which `want` bytes are asked for, the buffer of
    /// the read under way, and lets the port interrupt for bytes that
    /// come in.
    pub fn install_target(&mut self, data: Vec<u8>, want: usize)
        ensures
            old(self).wf() && data@.len() <= want ==> final(self).wf(),
            final(self)@ == (SerialView {
                target: Some((data@, want)),
                rx_interrupt: true,
                ..old(self)@
            }),
    {
        self.rx_tgt = Some(RxTarget { data, want });
        self.rx_int = true;
    }

    /// Number of bytes that the read under way has, and the number it
    /// asked for.
    pub fn target_progress(&self) -> (r: Option<(usize, usize)>)
        ensures
            r.is_some() == self@.target.is_some(),
            r matches Some(p) ==> p.0 == self@.target.unwrap().0.len() && p.1
                == self@.target.unwrap().1,
    {
        match &self.rx_tgt {
            Some(t) => Some((t.data.len(), t.want)),
            None => None,
        }
    }

    /// Ends the read under way and hands out the bytes that it has.
    pub fn take_target(&mut self) -> (r: Option<Vec<u8>>)
        ensures
            old(self).wf() ==> final(self).wf(),
            r.is_some() == old(self)@.target.is_some(),
            r matches Some(d) ==> d@ == old(self)@.target.unwrap().0,
            final(self)@ == (SerialView { target: None, ..old(self)@ }),
    {
        match self.rx_tgt.take() {
            Some(t) => Some(t.data),
            None => None,
        }
    }

    /// A byte came in. It goes to the read under way if that lacks bytes,
    /// and is kept for the next read otherwise. The line is not idle.
    pub fn deliver(&mut self, byte: u8)
        ensures
            old(self).wf() ==> final(self).wf(),
            final(self)@ == match old(self)@.target {
                Some(t) if t.0.len() < t.1 => SerialView {
                    target: Some((t.0.push(byte), t.1)),
                    idle: false,
                    ..old(self)@
                },
                _ => SerialView {
                    buffered: old(self)@.buffered.push(byte),
                    idle: false,
                    ..old(self)@
                },
            },
    {
        self.rx_idle = false;
        match &mut self.rx_tgt {
            Some(t) => {
                if t.data.len() < t.want {
                    t.data.push(byte);
                } else {
                    self.rx_buffer.push_back(byte);
                }
            },
            None => {
                self.rx_buffer.push_back(byte);
            },
        }
    }

    /// The line went idle.
    pub fn line_idle(&mut self)
        ensures
            old(self).wf() ==> final(self).wf(),
            final(self)@ == (SerialView { idle: true, ..old(self)@ }),
    {
        self.rx_idle = true;
    }

    /// Marks the port as sending; returns whether it was sending before.
    pub fn start_run(&mut self) -> (r: bool)
        ensures
            old(self).wf() ==> final(self).wf(),
            r == old(self)@.running,
            final(self)@ == (SerialView { running: true, ..old(self)@ }),
    {
        let was: bool = self.run;
        self.run = true;
        was
    }

    /// Number of bytes that take up room in the buffer.
    pub fn occupancy(&self) -> (r: u64)
        requires
            self.wf(),
        ensures
            r == self@.occupancy(),
    {
        self.pushed - self.freed
    }

    /// Number of bytes whose room in the buffer was given back.
    pub fn freed(&self) -> (r: u64)
        ensures
            r == self@.freed,
    {
        self.freed
    }

    /// Whether `len` more bytes can be queued without the count of bytes
    /// leaving 64 bits.
    pub fn can_push(&self, len: usize) -> (r: bool)
        ensures
            r == (self@.pushed + len <= u64::MAX),
    {
        len as u64 <= u64::MAX - self.pushed
    }

    /// Queues `bytes` behind what waits to go out. Returns the number of
    /// bytes ever queued, these included.
    pub fn push(&mut self, bytes: &[u8]) -> (r: u64)
        requires
            old(self).wf(),
            old(self)@.pushed + bytes@.len() <= u64::MAX,
        ensures
            final(self)@ == (SerialView {
                queued: old(self)@.queued + bytes@,
                pushed: (old(self)@.pushed + bytes@.len()) as u64,
                ..old(self)@
            }),
            r == old(self)@.pushed + bytes@.len(),
            final(self).wf(),
    {
        let mut i: usize = 0;
        while i < bytes.len()
            invariant
                i <= bytes.len(),
                self.frame == old(self).frame,
                self.rx_buffer == old(self).rx_buffer,
                self.rx_tgt == old(self).rx_tgt,
                self.rx_idle == old(self).rx_idle,
                self.rx_int == old(self).rx_int,
                self.pushed == old(self).pushed,
                self.popped == old(self).popped,
                self.freed == old(self).freed,
                self.run == old(self).run,
                self.tx@ == old(self).tx@ + bytes@.take(i as int),
            decreases bytes.len() - i,
        {
            self.tx.push_back(bytes[i]);
            proof {
                assert(bytes@.take(i + 1) =~= bytes@.take(i as int).push(bytes@[i as int]));
                assert(old(self).tx@ + bytes@.take(i + 1) =~= (old(self).tx@ + bytes@.take(
                    i as int,
                )).push(bytes@[i as int]));
            }
            i += 1;
        }
        proof {
            assert(bytes@.take(bytes@.len() as int) =~= bytes@);
        }
        self.pushed = self.pushed + bytes.len() as u64;
        self.pushed
    }

    /// Takes the oldest byte that waits to go out, to hand it to the
    /// hardware. Its room in the buffer is not given back yet. The port
    /// stops sending when nothing waits.
    pub fn pop(&mut self) -> (r: Option<u8>)
        requires
            old(self).wf(),
        ensures
            r.is_some() == (old(self)@.queued.len() > 0),
            r matches Some(b) ==> b == old(self)@.queued[0] && final(self)@ == (SerialView {
                queued: old(self)@.queued.skip(1),
                popped: (old(self)@.popped + 1) as u64,
                ..old(self)@
            }),
            r.is_none() ==> final(self)@ == (SerialView { running: false, ..old(self)@ }),
            final(self).wf(),
    {
        let r = self.tx.pop_front();
        match r {
            Some(_) => {
                self.popped = self.popped + 1;
                proof {
                    assert(old(self)@.queued.subrange(1, old(self)@.queued.len() as int)
                        =~= old(self)@.queued.skip(1));
                }
            },
            None => {
                self.run = false;
            },
        }
        r
    }

    /// Gives back the room of the bytes that have gone out; returns
    /// whether there was any to give back.
    pub fn free(&mut self) -> (r: bool)
        ensures
            old(self).wf() ==> final(self).wf(),
            r == old(self)@.completed(),
            final(self)@ == (SerialView { freed: old(self)@.popped, ..old(self)@ }),
    {
        let had: bool = self.freed < self.popped;
        self.freed = self.popped;
        had
    }
}

} // verus!
