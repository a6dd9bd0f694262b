use vstd::prelude::*;

use crate::error::KvError;
use crate::network::frame::{decode_frame, encode_frame, frame_of, unframe};

verus! {

/// A duplex framed stream over a byte stream `S`: outbound frames queue in a
/// write buffer whose first `written` bytes have already gone out; inbound
/// frames pass through a read buffer that is empty between reads.
pub struct ProstStream<S> {
    stream: S,
    wbuf: Vec<u8>,
    written: usize,
    rbuf: Vec<u8>,
}

impl<S> ProstStream<S> {
    /// No queued byte is counted as written twice, and no inbound bytes linger.
    pub open spec fn wf(&self) -> bool {
        &&& self.written_view() <= self.queued().len()
        &&& self.read_idle()
    }

    /// The read buffer is empty, as it is between two inbound frames.
    pub closed spec fn read_idle(&self) -> bool {
        self.rbuf@.len() == 0
    }

    /// The bytes queued for writing, sent or not.
    pub closed spec fn queued(&self) -> Seq<u8> {
        self.wbuf@
    }

    /// How many queued bytes have gone out.
    pub closed spec fn written_view(&self) -> nat {
        self.written as nat
    }

    pub closed spec fn stream_view(&self) -> S {
        self.stream
    }

    pub fn new(stream: S) -> (r: Self)
        ensures
            r.wf(),
            r.queued().len() == 0,
            r.written_view() == 0,
            r.stream_view() == stream,
    {
        ProstStream { stream, wbuf: Vec::new(), written: 0, rbuf: Vec::new() }
    }

    /// The underlying byte stream, for reading and writing it.
    pub fn get_mut(&mut self) -> (r: &mut S)
        ensures
            *r == old(self).stream_view(),
            final(self).stream_view() == *final(r),
            final(self).queued() == old(self).queued(),
            final(self).written_view() == old(self).written_view(),
            old(self).wf() ==> final(self).wf(),
    {
        &mut self.stream
    }

    /// Queue the frame of `payload` behind what is already queued.
    pub fn start_send(&mut self, payload: &[u8]) -> (r: Result<(), KvError>)
        requires
            old(self).wf(),
        ensures
            final(self).wf(),
            final(self).stream_view() == old(self).stream_view(),
            final(self).written_view() == old(self).written_view(),
            r is Ok <==> frame_of(payload@) is Some,
            match frame_of(payload@) {
                Some(f) => final(self).queued() == old(self).queued() + f,
                None => final(self).queued() == old(self).queued(),
            },
    {
        encode_frame(payload, &mut self.wbuf)
    }

    /// The queued bytes that have not gone out yet: a write resumes exactly here.
    pub fn unwritten(&self) -> (r: &[u8])
        requires
            self.wf(),
        ensures
            r@ == self.queued().subrange(self.written_view() as int, self.queued().len() as int),
    {
        &self.wbuf.as_slice()[self.written..self.wbuf.len()]
    }

    /// Record that the first `n` unwritten bytes went out. Once every queued
    /// byte has, the buffer is cleared and the cursor reset; `r` tells which.
    pub fn record_written(&mut self, n: usize) -> (r: bool)
        requires
            old(self).wf(),
            n <= old(self).queued().len() - old(self).written_view(),
        ensures
            final(self).wf(),
            final(self).stream_view() == old(self).stream_view(),
            r == (old(self).written_view() + n == old(self).queued().len()),
            r ==> final(self).queued().len() == 0 && final(self).written_view() == 0,
            !r ==> final(self).queued() == old(self).queued() && final(self).written_view()
                == old(self).written_view() + n,
    {
        let len = self.wbuf.len();
        self.written = self.written + n;
        if self.written == len {
            self.wbuf.clear();
            self.written = 0;
            true
        } else {
            false
        }
    }

    /// Decode one whole frame read from the stream; the read buffer is empty again after.
    pub fn accept_frame(&mut self, frame: Vec<u8>) -> (r: Result<Vec<u8>, KvError>)
        requires
            old(self).wf(),
        ensures
            final(self).wf(),
            final(self).stream_view() == old(self).stream_view(),
            final(self).queued() == old(self).queued(),
            final(self).written_view() == old(self).written_view(),
            match unframe(frame@) {
                Some((p, _)) => r matches Ok(d) && d@ == p,
                None => r is Err,
            },
    {
        self.rbuf = frame;
        let r = decode_frame(&mut self.rbuf);
        self.rbuf.clear();
        r
    }
}

} // verus!
