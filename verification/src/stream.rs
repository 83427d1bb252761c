//! The transfer bridge: adapts a reactor-owned, pausable byte transfer into
//! a consumer-driven read API, and the outbound writer over the same handle.
//!
//! The reactor that performs the actual socket I/O lives outside this crate.
//! The types here record, in order, every request the consumer side issues —
//! control-channel state updates, pause/resume hints, written bytes — and a
//! driver around the crate takes the recorded requests and performs them.
//! Requests are best-effort: performing one against a connection that is
//! already gone is a no-op that the consumer never observes.

use vstd::prelude::*;

use crate::events::{Read, ReadEvent};

verus! {

/// A request issued to the transfer handle: quiet the reactor's delivery for
/// this stream, or wake it.
#[derive(Clone, Copy, Debug, PartialEq, Eq, Structural)]
pub enum TransferCmd {
    /// Stop delivering body bytes until resumed.
    Pause,
    /// Begin (or continue) delivering body bytes.
    Resume,
}

/// The transfer handle bound to one connection's body channel.
///
/// It accepts written body bytes and pause/resume hints; the reactor-side
/// driver drains `out` onto the socket and honors the oldest pending command
/// of `cmds` first. The handle itself never refuses a request: failures of
/// the eventual I/O are the driver's to observe, not the consumer's.
#[derive(Clone, Debug)]
pub struct Transfer {
    /// Pause/resume requests not yet performed, oldest first.
    pub cmds: Vec<TransferCmd>,
    /// Body bytes handed over for writing, in order.
    pub out: Vec<u8>,
}

impl Transfer {
    /// A handle with nothing requested yet.
    pub fn new() -> (t: Transfer)
        ensures
            t.cmds@ == Seq::<TransferCmd>::empty(),
            t.out@ == Seq::<u8>::empty(),
    {
        Transfer { cmds: Vec::new(), out: Vec::new() }
    }

    /// Hands `data` over for writing; every byte is accepted.
    pub fn write(&mut self, data: &[u8])
        ensures
            final(self).out@ == old(self).out@ + data@,
            final(self).cmds@ == old(self).cmds@,
    {
        self.out.extend_from_slice(data);
    }

    /// Requests that delivery for this stream stop.
    pub fn pause(&mut self)
        ensures
            final(self).cmds@ == old(self).cmds@.push(TransferCmd::Pause),
            final(self).out@ == old(self).out@,
    {
        self.cmds.push(TransferCmd::Pause);
    }

    /// Requests that delivery for this stream begin or continue.
    pub fn resume(&mut self)
        ensures
            final(self).cmds@ == old(self).cmds@.push(TransferCmd::Resume),
            final(self).out@ == old(self).out@,
    {
        self.cmds.push(TransferCmd::Resume);
    }
}

/// The desired disposition of a body stream, as told to the reactor side.
///
/// Only one `Reading` registration is meaningful at a time: a newer state
/// overwrites the reactor's understanding of the prior one.
pub enum StreamState<R> {
    /// Deliver nothing until further notice.
    Paused,
    /// Deliver available bytes to the carried callback.
    Reading(R),
}

/// The consumer side of the single-producer, single-consumer control channel
/// that carries [`StreamState`] updates to the reactor.
///
/// Updates queue here, oldest first, until the reactor-side driver takes
/// them. Sending never fails from the consumer's perspective: a send to a
/// torn-down reactor is simply never taken.
pub struct ControlChannel<R> {
    /// The updates sent and not yet taken, oldest first.
    pub sent: Vec<StreamState<R>>,
}

impl<R> ControlChannel<R> {
    /// A channel with nothing sent yet.
    pub fn new() -> (c: ControlChannel<R>)
        ensures
            c.sent@ == Seq::<StreamState<R>>::empty(),
    {
        ControlChannel { sent: Vec::new() }
    }

    /// Sends one state update.
    pub fn send(&mut self, state: StreamState<R>)
        ensures
            final(self).sent@ == old(self).sent@.push(state),
    {
        self.sent.push(state);
    }
}

/// A readable message-body stream.
///
/// Bytes are produced by the reactor; the consumer pulls them by registering
/// a callback with [`Stream::read`] and quiets delivery with
/// [`Stream::pause`]. Bytes the reactor delivered before any read was
/// requested wait in the prefetch buffer `buf`, which always holds the
/// final, already-complete chunk of available data.
pub struct Stream<R> {
    /// The control channel to the reactor side.
    pub tx: ControlChannel<R>,
    /// The transfer handle of this stream's connection.
    pub transfer: Transfer,
    /// The prefetch buffer: bytes delivered before any read was requested.
    pub buf: Vec<u8>,
}

impl<R: Read> Stream<R> {
    /// The prefetch invariant: while prefetched bytes wait in the buffer,
    /// the reactor has not been told to resume — no resume request is
    /// pending on the transfer handle. [`Stream::read`] and
    /// [`Stream::pause`] preserve it.
    pub open spec fn prefetch_quiet(self) -> bool {
        self.buf@.len() > 0 ==> forall|i: int|
            0 <= i < self.transfer.cmds@.len() ==> !(self.transfer.cmds@[i] is Resume)
    }

    /// A stream over the given channel and handle, with `buf` already
    /// delivered by the reactor.
    pub fn new(tx: ControlChannel<R>, transfer: Transfer, buf: Vec<u8>) -> (s: Stream<R>)
        ensures
            s.tx.sent@ == tx.sent@,
            s.transfer == transfer,
            s.buf@ == buf@,
    {
        Stream { tx, transfer, buf }
    }

    /// Asks for the next chunk of the body.
    ///
    /// If the prefetch buffer is non-empty, `on_read` receives the buffered
    /// bytes and then end-of-data, synchronously; the buffer is cleared, the
    /// reactor is not touched, and the spent callback is handed back. If the
    /// buffer is empty, `on_read` is registered as the current `Reading`
    /// state over the control channel and one resume request is issued, so
    /// the reactor delivers to it out-of-band; nothing is handed back.
    pub fn read(&mut self, on_read: R) -> (r: Option<R>)
        ensures
            old(self).buf@.len() > 0 ==> ({
                &&& r matches Some(cb) && cb.events() == on_read.events() + seq![
                    ReadEvent::Data(old(self).buf@),
                    ReadEvent::Eof,
                ]
                &&& final(self).buf@ == Seq::<u8>::empty()
                &&& final(self).tx.sent@ == old(self).tx.sent@
                &&& final(self).transfer.cmds@ == old(self).transfer.cmds@
                &&& final(self).transfer.out@ == old(self).transfer.out@
            }),
            old(self).buf@.len() == 0 ==> ({
                &&& r is None
                &&& final(self).buf@ == old(self).buf@
                &&& final(self).tx.sent@ == old(self).tx.sent@.push(
                    StreamState::Reading(on_read),
                )
                &&& final(self).transfer.cmds@ == old(self).transfer.cmds@.push(
                    TransferCmd::Resume,
                )
                &&& final(self).transfer.out@ == old(self).transfer.out@
            }),
            old(self).prefetch_quiet() ==> final(self).prefetch_quiet(),
    {
        if self.buf.len() > 0 {
            let mut cb = on_read;
            cb.on_data(self.buf.as_slice());
            self.buf.clear();
            cb.on_eof();
            proof {
                assert(cb.events() =~= on_read.events() + seq![
                    ReadEvent::Data(old(self).buf@),
                    ReadEvent::Eof,
                ]);
            }
            return Some(cb);
        }
        self.tx.send(StreamState::Reading(on_read));
        self.transfer.resume();
        None
    }

    /// Tells the reactor to stop delivering bytes for this stream: the
    /// backpressure primitive. Sends one `Paused` state update and issues
    /// one pause request, whatever the buffer holds.
    pub fn pause(&mut self)
        ensures
            final(self).tx.sent@ == old(self).tx.sent@.push(StreamState::Paused),
            final(self).transfer.cmds@ == old(self).transfer.cmds@.push(TransferCmd::Pause),
            final(self).transfer.out@ == old(self).transfer.out@,
            final(self).buf@ == old(self).buf@,
            old(self).prefetch_quiet() ==> final(self).prefetch_quiet(),
    {
        self.tx.send(StreamState::Paused);
        self.transfer.pause();
    }
}

/// A synchronous write interface over the transfer handle, for producing an
/// outgoing message body.
pub struct AsyncWriter {
    /// The transfer handle writes go to.
    pub transfer: Transfer,
}

impl AsyncWriter {
    /// A writer over the given transfer handle.
    pub fn new(transfer: Transfer) -> (w: AsyncWriter)
        ensures
            w.transfer == transfer,
    {
        AsyncWriter { transfer }
    }

    /// The underlying transfer handle, for callers that need reactor
    /// operations beyond plain writing.
    pub fn get_mut(&mut self) -> (t: &mut Transfer)
        ensures
            *t == old(self).transfer,
            final(self).transfer == *final(t),
    {
        &mut self.transfer
    }

    /// Writes `data` to the transfer handle and reports the number of bytes
    /// accepted: always the full length, since the handle buffers
    /// internally and exposes no write backpressure at this layer.
    pub fn write(&mut self, data: &[u8]) -> (n: usize)
        ensures
            n == data@.len(),
            final(self).transfer.out@ == old(self).transfer.out@ + data@,
            final(self).transfer.cmds@ == old(self).transfer.cmds@,
    {
        let len = data.len();
        self.transfer.write(data);
        len
    }

    /// Does nothing: the transfer handle flushes per chunk on its own, so
    /// there is no deferred-write state to force out.
    pub fn flush(&mut self)
        ensures
            *final(self) == *old(self),
    {
    }
}

} // verus!
