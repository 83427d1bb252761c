//! The consumer-side read callback: how body bytes reach the consumer.

use vstd::prelude::*;

verus! {

/// One observation a read callback can receive: a chunk of body bytes, or
/// the end of the body.
pub enum ReadEvent {
    /// A chunk of body bytes was delivered.
    Data(Seq<u8>),
    /// The body is complete; no more bytes follow.
    Eof,
}

/// A read callback registered by a consumer of a message body.
///
/// The framing layer invokes it with chunks of body bytes as they become
/// available, and with an end-of-data signal once the body is complete.
/// `events` is the abstract history of what the callback has received, in
/// order; each delivery appends to it and changes nothing else of the
/// history.
pub trait Read: Sized {
    /// The observations this callback has received so far, oldest first.
    spec fn events(&self) -> Seq<ReadEvent>;

    /// Delivers one chunk of body bytes.
    fn on_data(&mut self, data: &[u8])
        ensures
            final(self).events() == old(self).events().push(ReadEvent::Data(data@)),
    ;

    /// Signals that the body is complete.
    fn on_eof(&mut self)
        ensures
            final(self).events() == old(self).events().push(ReadEvent::Eof),
    ;
}

/// One recorded delivery, held concretely.
#[derive(Clone, Debug)]
pub enum BodyEvent {
    /// A chunk of body bytes.
    Data(Vec<u8>),
    /// The end-of-data signal.
    Eof,
}

impl BodyEvent {
    /// The observation a recorded delivery stands for.
    pub open spec fn as_read_event(self) -> ReadEvent {
        match self {
            BodyEvent::Data(v) => ReadEvent::Data(v@),
            BodyEvent::Eof => ReadEvent::Eof,
        }
    }
}

/// A read callback that records every delivery, in order.
#[derive(Clone, Debug)]
pub struct EventLog {
    /// The recorded deliveries, oldest first.
    pub log: Vec<BodyEvent>,
}

impl EventLog {
    /// A recorder that has received nothing yet.
    pub fn new() -> (l: EventLog)
        ensures
            l.events() == Seq::<ReadEvent>::empty(),
    {
        let l = EventLog { log: Vec::new() };
        proof {
            assert(l.events() =~= Seq::<ReadEvent>::empty());
        }
        l
    }
}

impl Read for EventLog {
    open spec fn events(&self) -> Seq<ReadEvent> {
        self.log@.map(|i: int, e: BodyEvent| e.as_read_event())
    }

    fn on_data(&mut self, data: &[u8]) {
        let mut chunk: Vec<u8> = Vec::new();
        chunk.extend_from_slice(data);
        proof {
            assert(chunk@ =~= data@);
        }
        self.log.push(BodyEvent::Data(chunk));
        proof {
            assert(self.events() =~= old(self).events().push(ReadEvent::Data(data@)));
        }
    }

    fn on_eof(&mut self) {
        self.log.push(BodyEvent::Eof);
        proof {
            assert(self.events() =~= old(self).events().push(ReadEvent::Eof));
        }
    }
}

} // verus!
