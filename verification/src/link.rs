//! The stateful half of the link to an ESP3 gateway, kept free of any
//! transport: a streaming [`Framer`] that owns the resynchronization
//! buffer across chunked reads, and a [`Correlator`] that routes frames
//! between the pending-inbound queue and the one outstanding
//! request/response exchange.
//!
//! The surrounding transport loop only moves bytes: it feeds every chunk
//! it reads into the framer, drains frames, and hands each frame to the
//! correlator while a command is outstanding.

use std::collections::VecDeque;

use vstd::prelude::*;

use crate::frame::{
    data_crc_ok, frame_len_at, lemma_scan_skip, scan_pos, sync_scan, ESP3Frame,
};
use crate::crc8::crc8_of;
use crate::FrameReadError;

verus! {

/// A streaming framer over a chunked byte source.  It owns the bytes
/// not yet consumed: noise is discarded as soon as it is recognized, a
/// partial frame is kept until the next chunk completes it, so the
/// buffer never grows beyond one frame plus one unfinished chunk.
pub struct Framer {
    buf: Vec<u8>,
}

impl View for Framer {
    type V = Seq<u8>;

    closed spec fn view(&self) -> Seq<u8> {
        self.buf@
    }
}

impl Framer {
    /// A framer with an empty buffer.
    pub fn new() -> (r: Self)
        ensures
            r@ == Seq::<u8>::empty(),
    {
        Framer { buf: Vec::new() }
    }

    /// Feed one chunk read from the transport into the buffer.
    pub fn push_bytes(&mut self, chunk: &[u8])
        ensures
            final(self)@ == old(self)@ + chunk@,
    {
        self.buf.extend_from_slice(chunk);
    }

    /// Try to take the next frame out of the buffer.
    ///
    /// Synchronization noise before the frame is dropped either way.
    /// `EOF` means no complete frame is buffered yet: push more bytes
    /// and try again.  A `DataCRC` error consumes the offending frame's
    /// bytes, so reading may simply continue behind it.
    pub fn next_frame(&mut self) -> (r: Result<ESP3Frame, FrameReadError>)
        ensures
            ({
                let s = old(self)@;
                let j = scan_pos(s, 0);
                if j + 6 > s.len() {
                    r matches Err(FrameReadError::EOF) && final(self)@ == s.skip(j)
                } else if j + frame_len_at(s, j) > s.len() {
                    r matches Err(FrameReadError::EOF) && final(self)@ == s.skip(j)
                } else if data_crc_ok(s, j) {
                    &&& r matches Ok(f)
                    &&& f.wf()
                    &&& f.spec_bytes() == s.subrange(j, j + frame_len_at(s, j))
                    &&& final(self)@ == s.skip(j + frame_len_at(s, j))
                } else {
                    &&& r matches Err(FrameReadError::DataCRC { frame, data_crc })
                    &&& frame@ == s.subrange(j, j + frame_len_at(s, j))
                    &&& data_crc == crc8_of(s.subrange(j + 6, j + frame_len_at(s, j) - 1))
                    &&& final(self)@ == s.skip(j + frame_len_at(s, j))
                }
            }),
    {
        let ghost s = self.buf@;
        let j = sync_scan(self.buf.as_slice());
        proof {
            lemma_scan_skip(s, j as int);
        }
        if j > 0 {
            let rest = vstd::slice::slice_to_vec(&self.buf.as_slice()[j..self.buf.len()]);
            self.buf = rest;
        }
        proof {
            assert(self.buf@ =~= s.skip(j as int));
        }
        let ghost t = self.buf@;
        match ESP3Frame::read_from(self.buf.as_slice()) {
            Result::Ok((f, consumed)) => {
                let rest = vstd::slice::slice_to_vec(
                    &self.buf.as_slice()[consumed..self.buf.len()],
                );
                self.buf = rest;
                proof {
                    assert(self.buf@ =~= s.skip(j + frame_len_at(s, j as int)));
                    assert(f.spec_bytes() =~= s.subrange(j as int, j + frame_len_at(s, j as int)));
                }
                Ok(f)
            },
            Result::Err(FrameReadError::EOF) => Err(FrameReadError::EOF),
            Result::Err(FrameReadError::DataCRC { frame, data_crc }) => {
                let consumed = frame.len();
                let rest = vstd::slice::slice_to_vec(
                    &self.buf.as_slice()[consumed..self.buf.len()],
                );
                self.buf = rest;
                proof {
                    assert(frame@ =~= s.subrange(j as int, j + frame_len_at(s, j as int)));
                    assert(self.buf@ =~= s.skip(j + frame_len_at(s, j as int)));
                    assert(t.subrange(6, frame_len_at(t, 0) - 1) =~= s.subrange(
                        j + 6,
                        j + frame_len_at(s, j as int) - 1,
                    ));
                }
                Err(FrameReadError::DataCRC { frame, data_crc })
            },
        }
    }
}

/// Request/response correlation over the half-duplex channel: while one
/// command is outstanding, every non-response frame is queued in arrival
/// order, and the first response frame answers the command.  Commands
/// are never pipelined: the protocol carries no request identifier, so
/// the next response is taken to answer the most recent command.
pub struct Correlator {
    queue: VecDeque<ESP3Frame>,
}

impl View for Correlator {
    type V = Seq<ESP3Frame>;

    closed spec fn view(&self) -> Seq<ESP3Frame> {
        self.queue@
    }
}

impl Correlator {
    /// A correlator with an empty pending queue.
    pub fn new() -> (r: Self)
        ensures
            r@ == Seq::<ESP3Frame>::empty(),
    {
        Correlator { queue: VecDeque::new() }
    }

    /// Hand one received frame to the correlator.  A response frame
    /// (packet type `0x02`) is returned to the caller as the answer to
    /// the outstanding command; every other frame joins the pending
    /// queue, arrival order preserved.
    pub fn offer(&mut self, frame: ESP3Frame) -> (r: Option<ESP3Frame>)
        ensures
            frame.spec_packet_type() == 0x02 ==> r == Some(frame) && final(self)@ == old(self)@,
            frame.spec_packet_type() != 0x02 ==> r is None && final(self)@ == old(self)@.push(
                frame,
            ),
    {
        if frame.packet_type() == 0x02 {
            Some(frame)
        } else {
            self.queue.push_back(frame);
            None
        }
    }

    /// Take the oldest pending frame, if any: first in, first out.
    pub fn pop_pending(&mut self) -> (r: Option<ESP3Frame>)
        ensures
            old(self)@.len() == 0 ==> r is None && final(self)@ == old(self)@,
            old(self)@.len() > 0 ==> r == Some(old(self)@[0]) && final(self)@ == old(
                self,
            )@.skip(1),
    {
        let r = self.queue.pop_front();
        proof {
            if old(self)@.len() > 0 {
                assert(final(self)@ =~= old(self)@.skip(1));
            }
        }
        r
    }

    /// How many frames wait in the pending queue.
    pub fn pending_len(&self) -> (n: usize)
        ensures
            n == self@.len(),
    {
        self.queue.len()
    }
}

} // verus!
