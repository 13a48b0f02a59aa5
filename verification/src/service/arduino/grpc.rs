//! The part of the arduino-cli messages that the helper reads or fills in, with one submodule per
//! RPC. Nothing past this module sees them.

use vstd::prelude::*;

use crate::error::Error;

pub mod board;
pub mod compile;
pub mod monitor;
pub mod platform;
pub mod upload;

verus! {

/// The daemon instance that every RPC names.
#[derive(Debug, Clone, Copy, PartialEq, Eq, Structural)]
pub struct Instance {
    pub id: i32,
}

/// What one read of a response stream yields: a message, as the event that it translates to if
/// it does; the end of the stream; or a failure of the transport.
pub enum Received<E> {
    Message(Option<Result<E, Error>>),
    Closed,
    Failed(Error),
}

/// What the reader of an event stream gets.
pub enum Pull<E> {
    /// Nothing yet: the message was an empty frame. Read on.
    Again,
    Yield(Result<E, Error>),
    End,
}

/// Turns the reads of a response stream into events: empty frames are skipped, and nothing comes
/// after the end of the stream or the first error.
pub struct Events {
    pub done: bool,
}

impl Events {
    /// What a read leads to.
    pub open spec fn pulled<E>(self, received: Received<E>) -> (Events, Pull<E>) {
        if self.done {
            (self, Pull::End)
        } else {
            match received {
                Received::Message(None) => (self, Pull::Again),
                Received::Message(Some(event)) => (Events { done: event is Err }, Pull::Yield(event)),
                Received::Closed => (Events { done: true }, Pull::End),
                Received::Failed(error) => (Events { done: true }, Pull::Yield(Err(error))),
            }
        }
    }

    /// A stream at its start.
    pub fn new() -> (events: Events)
        ensures
            !events.done,
    {
        Events { done: false }
    }

    /// Whether the stream has ended, so that nothing more is to be read.
    pub fn is_done(&self) -> (r: bool)
        ensures
            r == self.done,
    {
        self.done
    }

    /// Takes one read in.
    pub fn pull<E>(&mut self, received: Received<E>) -> (r: Pull<E>)
        ensures
            (*final(self), r) == old(self).pulled(received),
    {
        if self.done {
            return Pull::End;
        }
        match received {
            Received::Message(None) => Pull::Again,
            Received::Message(Some(event)) => {
                self.done = event.is_err();
                Pull::Yield(event)
            },
            Received::Closed => {
                self.done = true;
                Pull::End
            },
            Received::Failed(error) => {
                self.done = true;
                Pull::Yield(Err(error))
            },
        }
    }
}

/// The stream after some reads, and the events that it yielded.
pub open spec fn events_of<E>(reads: Seq<Received<E>>) -> (Events, Seq<Result<E, Error>>)
    decreases reads.len(),
{
    if reads.len() == 0 {
        (Events { done: false }, seq![])
    } else {
        let (before, events) = events_of(reads.drop_last());
        match before.pulled(reads.last()) {
            (after, Pull::Yield(event)) => (after, events.push(event)),
            (after, _) => (after, events),
        }
    }
}

/// An error is the last event of a stream.
pub proof fn nothing_follows_an_error<E>(reads: Seq<Received<E>>, i: int)
    requires
        0 <= i < events_of(reads).1.len(),
        events_of(reads).1[i] is Err,
    ensures
        i == events_of(reads).1.len() - 1,
        events_of(reads).0.done,
    decreases reads.len(),
{
    if reads.len() > 0 {
        let events = events_of(reads.drop_last()).1;
        if i < events.len() {
            nothing_follows_an_error(reads.drop_last(), i);
        }
    }
}

/// A closed stream has ended: whatever is read after it, nothing more is yielded.
pub proof fn nothing_follows_the_end<E>(reads: Seq<Received<E>>, i: int)
    requires
        0 <= i < reads.len(),
        reads[i] is Closed,
    ensures
        events_of(reads).0.done,
        events_of(reads).1 == events_of(reads.take(i)).1,
    decreases reads.len(),
{
    let earlier = reads.drop_last();
    if i == reads.len() - 1 {
        assert(earlier =~= reads.take(i));
    } else {
        assert(earlier[i] == reads[i]);
        nothing_follows_the_end(earlier, i);
        assert(earlier.take(i) =~= reads.take(i));
    }
}

/// Whether a read ends the stream: it is closed, it failed, or the message is an error.
pub open spec fn ends_the_stream<E>(read: Received<E>) -> bool {
    read is Closed || read is Failed || read matches Received::Message(Some(Err(_)))
}

/// A stream has ended just where some read ended it.
pub proof fn a_stream_ends_where_a_read_ends_it<E>(reads: Seq<Received<E>>)
    ensures
        events_of(reads).0.done <==> exists|i: int| 0 <= i < reads.len() && ends_the_stream(#[trigger] reads[i]),
    decreases reads.len(),
{
    if reads.len() > 0 {
        let earlier = reads.drop_last();
        a_stream_ends_where_a_read_ends_it(earlier);
        assert forall|i: int| 0 <= i < earlier.len() implies #[trigger] reads[i] == earlier[i] by {}
        assert(reads[reads.len() - 1] == reads.last());
        if events_of(earlier).0.done {
            let i = choose|i: int| 0 <= i < earlier.len() && ends_the_stream(#[trigger] earlier[i]);
            assert(ends_the_stream(reads[i]));
        } else if ends_the_stream(reads.last()) {
            assert(events_of(reads).0.done);
        } else {
            assert forall|i: int| 0 <= i < reads.len() implies !ends_the_stream(#[trigger] reads[i]) by {
                if i < earlier.len() {
                    assert(!ends_the_stream(earlier[i]));
                }
            }
        }
    }
}

/// Until a read ends the stream, every message with an event is yielded, empty frames are skipped,
/// and a failure is yielded as an error.
pub proof fn every_event_is_yielded<E>(reads: Seq<Received<E>>, read: Received<E>)
    requires
        forall|i: int| 0 <= i < reads.len() ==> !ends_the_stream(#[trigger] reads[i]),
    ensures
        events_of(reads.push(read)).1 == match read {
            Received::Message(Some(event)) => events_of(reads).1.push(event),
            Received::Failed(error) => events_of(reads).1.push(Err(error)),
            _ => events_of(reads).1,
        },
{
    a_stream_ends_where_a_read_ends_it(reads);
    assert(reads.push(read).drop_last() =~= reads);
}

} // verus!
