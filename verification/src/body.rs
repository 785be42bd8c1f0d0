//! The streaming encoder: a form turned into chunks of bytes, one pull at a
//! time.

use crate::error::Error;
use crate::form::{Form, FormView};
use crate::part::{Inner, Part, PartView, Payload};
use crate::wire::{
    part_head, part_tail, utf8, write_boundary, write_crlf, write_final_boundary, write_headers,
};
use bytes::BytesMut;
use std::collections::VecDeque;
use vstd::prelude::*;
use vstd::slice::slice_subrange;
use vstd::string::*;

verus! {

#[verifier::external_type_specification]
#[verifier::external_body]
pub struct ExBytesMut(BytesMut);

/// The bytes that a chunk holds.
pub uninterp spec fn chunk_bytes(chunk: BytesMut) -> Seq<u8>;

/// `BytesMut::from` for a slice: a buffer of its own that holds a copy of
/// the slice's bytes.
#[verifier::external_body]
fn to_chunk(src: &[u8]) -> (chunk: BytesMut)
    ensures
        chunk_bytes(chunk) == src@,
{
    BytesMut::from(src)
}

/// The largest number of bytes of a text that go into one chunk. A driver
/// does well to read as much from a reader at a time.
pub const CHUNK_SIZE: usize = 2048;

/// The source that a body is draining.
pub enum Source<S, A> {
    /// A synchronous reader.
    Read(S),
    /// An asynchronous reader.
    AsyncRead(A),
    /// The bytes of a text that are still to be sent.
    Text(Seq<u8>),
}

impl<S, A> Payload<S, A> {
    /// The payload as a source at its start.
    pub open spec fn source(self) -> Source<S, A> {
        match self {
            Payload::Read(read, _) => Source::Read(read),
            Payload::AsyncRead(read) => Source::AsyncRead(read),
            Payload::Text(text) => Source::Text(utf8(text)),
        }
    }
}

/// What a reader answered when the driver asked it for bytes.
pub enum ReadOutcome<'a> {
    /// The reader has nothing yet and will wake the driver.
    Pending,
    /// The bytes that were read. None at all means that the reader is at
    /// its end.
    Ready(&'a [u8]),
    /// The reader failed.
    Failed(std::io::Error),
}

/// What a reader answered, with the bytes as a sequence.
pub enum ReadEvent {
    Pending,
    Ready(Seq<u8>),
    Failed(std::io::Error),
}

impl<'a> View for ReadOutcome<'a> {
    type V = ReadEvent;

    open spec fn view(&self) -> ReadEvent {
        match *self {
            ReadOutcome::Pending => ReadEvent::Pending,
            ReadOutcome::Ready(data) => ReadEvent::Ready(data@),
            ReadOutcome::Failed(error) => ReadEvent::Failed(error),
        }
    }
}

/// What one pull on a body gives.
pub enum Step {
    /// The next chunk of the stream.
    Chunk(BytesMut),
    /// The body is draining a reader: the driver reads from it and reports
    /// the outcome with `poll_read`.
    Read,
    /// The reader was not ready. Nothing was emitted and nothing is lost;
    /// the driver pulls again when the reader wakes it.
    Pending,
    /// The reader failed. The stream is broken and ends here.
    Failed(Error),
    /// The stream has ended.
    Done,
}

/// What one pull gives, with the chunk as a sequence of bytes.
pub enum Output {
    Chunk(Seq<u8>),
    Read,
    Pending,
    Failed(Error),
    Done,
}

impl View for Step {
    type V = Output;

    open spec fn view(&self) -> Output {
        match *self {
            Step::Chunk(chunk) => Output::Chunk(chunk_bytes(chunk)),
            Step::Read => Output::Read,
            Step::Pending => Output::Pending,
            Step::Failed(error) => Output::Failed(error),
            Step::Done => Output::Done,
        }
    }
}

/// What a body is: the boundary, the source that is being drained, if
/// any, and the parts that have not been started, the next one first.
pub struct BodyView<S, A> {
    pub boundary: Seq<char>,
    pub active: Option<Source<S, A>>,
    pub pending: Seq<PartView<S, A>>,
}

impl<S, A> BodyView<S, A> {
    /// The body of a form before the first pull.
    pub open spec fn start(form: FormView<S, A>) -> BodyView<S, A> {
        BodyView { boundary: form.boundary, active: None, pending: form.parts }
    }

    /// Whether the stream has ended: nothing is being drained and nothing
    /// is left to start.
    pub open spec fn done(self) -> bool {
        self.active is None && self.pending.len() == 0
    }

    /// Whether the body is draining a reader, so that the next step is the
    /// driver's.
    pub open spec fn reading(self) -> bool {
        self.active matches Some(source) && !(source is Text)
    }

    /// The body after the source that it was draining has ended.
    pub open spec fn closed(self) -> BodyView<S, A> {
        BodyView { active: None, ..self }
    }

    /// The bytes that follow the payload of the part that is being drained.
    pub open spec fn tail(self) -> Seq<u8> {
        part_tail(self.boundary, self.pending.len() == 0)
    }

    /// One pull: the body after it, and what it gives.
    ///
    /// With nothing active, the next part is started and its boundary line
    /// and headers are the chunk; with no part left, the stream is done and
    /// the body stays as it is. A text gives its next bytes, `CHUNK_SIZE` at
    /// most, and after the last of them the part's tail. A reader is left
    /// to the driver.
    pub open spec fn next(self) -> (BodyView<S, A>, Output) {
        match self.active {
            None => if self.pending.len() == 0 {
                (self, Output::Done)
            } else {
                let part = self.pending[0];
                (
                    BodyView {
                        boundary: self.boundary,
                        active: Some(part.payload.source()),
                        pending: self.pending.drop_first(),
                    },
                    Output::Chunk(
                        part_head(self.boundary, part.content_type, part.content_disposition),
                    ),
                )
            },
            Some(Source::Text(rest)) => if rest.len() == 0 {
                (self.closed(), Output::Chunk(self.tail()))
            } else {
                let n = if rest.len() > CHUNK_SIZE {
                    CHUNK_SIZE as int
                } else {
                    rest.len() as int
                };
                (
                    BodyView { active: Some(Source::Text(rest.skip(n))), ..self },
                    Output::Chunk(rest.take(n)),
                )
            },
            Some(_) => (self, Output::Read),
        }
    }

    /// One answer of the reader that is being drained: the body after it,
    /// and what it gives.
    ///
    /// Bytes are passed on as a chunk. The end of the reader gives the
    /// part's tail and closes the source. A reader that is not ready, or
    /// that failed, leaves the body as it is.
    pub open spec fn read(self, event: ReadEvent) -> (BodyView<S, A>, Output) {
        match event {
            ReadEvent::Pending => (self, Output::Pending),
            ReadEvent::Ready(data) => if data.len() == 0 {
                (self.closed(), Output::Chunk(self.tail()))
            } else {
                (self, Output::Chunk(data))
            },
            ReadEvent::Failed(error) => (self, Output::Failed(Error::ContentRead(error))),
        }
    }
}

/// The source that a body is draining, as the body holds it.
enum Active<S, A> {
    Read(S),
    AsyncRead(A),
    /// A text and the number of its bytes that were sent.
    Text(String, usize),
}

impl<S, A> View for Active<S, A> {
    type V = Source<S, A>;

    closed spec fn view(&self) -> Source<S, A> {
        match *self {
            Active::Read(read) => Source::Read(read),
            Active::AsyncRead(read) => Source::AsyncRead(read),
            Active::Text(text, sent) => Source::Text(
                if sent <= utf8(text@).len() {
                    utf8(text@).skip(sent as int)
                } else {
                    Seq::empty()
                },
            ),
        }
    }
}

impl<S, A> Active<S, A> {
    /// Opens the payload source of a part.
    fn open(inner: Inner<S, A>) -> (active: Active<S, A>)
        ensures
            active@ == inner@.source(),
    {
        match inner {
            Inner::Read(read, _) => Active::Read(read),
            Inner::AsyncRead(read) => Active::AsyncRead(read),
            Inner::Text(text) => {
                assert(utf8(text@).skip(0) =~= utf8(text@));
                Active::Text(text, 0)
            },
        }
    }
}

/// Streamable multipart body.
///
/// A body owns the parts of the form that it was made from and encodes them
/// in order, one chunk for each pull. It stops for good after the closing
/// delimiter, or where a reader fails.
pub struct Body<S, A> {
    /// Where a boundary line, headers or a tail are put together, and
    /// which is cleared, not given away, between chunks. It is a `Vec`: a
    /// `BytesMut` that has to grow panics on a capacity that it alone
    /// knows, and a body does not panic. A finished chunk is copied into a
    /// `BytesMut` of its own, which cannot fail that way.
    buf: Vec<u8>,
    /// The active source.
    current: Option<Active<S, A>>,
    /// The parts that have not been started. When none is left and no
    /// source is active, the body is fully written.
    parts: VecDeque<Part<S, A>>,
    /// The multipart boundary.
    boundary: String,
}

impl<S, A> View for Body<S, A> {
    type V = BodyView<S, A>;

    closed spec fn view(&self) -> BodyView<S, A> {
        BodyView {
            boundary: self.boundary@,
            active: match self.current {
                Some(active) => Some(active@),
                None => None,
            },
            pending: self.parts@.map_values(|part: Part<S, A>| part@),
        }
    }
}

impl<S, A> Body<S, A> {
    /// Whether the stream has ended.
    pub fn is_done(&self) -> (done: bool)
        ensures
            done == self@.done(),
    {
        self.current.is_none() && self.parts.len() == 0
    }

    /// Whether the body is draining a reader.
    pub fn is_reading(&self) -> (reading: bool)
        ensures
            reading == self@.reading(),
    {
        match &self.current {
            Some(Active::Read(_)) => true,
            Some(Active::AsyncRead(_)) => true,
            _ => false,
        }
    }

    /// The synchronous reader that is being drained, if it is one.
    pub fn reader_mut(&mut self) -> (reader: Option<&mut S>)
        ensures
            match reader {
                Some(reader) => old(self)@.active == Some(Source::<S, A>::Read(*reader))
                    && final(self)@ == (BodyView {
                    active: Some(Source::Read(*final(reader))),
                    ..old(self)@
                }),
                None => !(old(self)@.active matches Some(Source::Read(_))) && final(self)@ == old(
                    self,
                )@,
            },
    {
        match &mut self.current {
            Some(Active::Read(reader)) => Some(reader),
            _ => None,
        }
    }

    /// The asynchronous reader that is being drained, if it is one.
    pub fn async_reader_mut(&mut self) -> (reader: Option<&mut A>)
        ensures
            match reader {
                Some(reader) => old(self)@.active == Some(Source::<S, A>::AsyncRead(*reader))
                    && final(self)@ == (BodyView {
                    active: Some(Source::AsyncRead(*final(reader))),
                    ..old(self)@
                }),
                None => !(old(self)@.active matches Some(Source::AsyncRead(_))) && final(self)@
                    == old(self)@,
            },
    {
        match &mut self.current {
            Some(Active::AsyncRead(reader)) => Some(reader),
            _ => None,
        }
    }

    /// Puts together the tail of the part that was drained.
    fn finish_part(&mut self) -> (chunk: BytesMut)
        requires
            old(self).current is None,
        ensures
            chunk_bytes(chunk) == old(self)@.tail(),
            final(self)@ == old(self)@,
    {
        self.buf.clear();
        write_crlf(&mut self.buf);
        if self.parts.len() == 0 {
            write_final_boundary(&mut self.buf, self.boundary.as_str());
            write_crlf(&mut self.buf);
        }
        to_chunk(self.buf.as_slice())
    }

    /// Produces the next chunk, as far as the body can by itself.
    ///
    /// Each pull does one bounded piece of work: it starts the next part
    /// and gives its boundary line and headers, or gives the next bytes of
    /// a text, or gives the tail of a text that is spent. Where a reader is
    /// being drained the body does not change and answers `Step::Read`: the
    /// driver reads and reports with `poll_read`. After the last part the
    /// answer is `Step::Done`, and stays so for every further pull.
    pub fn poll_next(&mut self) -> (step: Step)
        ensures
            final(self)@ == old(self)@.next().0,
            step@ == old(self)@.next().1,
    {
        match self.current.take() {
            None => match self.parts.pop_front() {
                Some(part) => {
                    assert(self@.pending =~= old(self)@.pending.drop_first());
                    self.buf.clear();
                    write_boundary(&mut self.buf, self.boundary.as_str());
                    write_headers(
                        &mut self.buf,
                        part.content_type(),
                        part.content_disposition(),
                    );
                    self.current = Some(Active::open(part.into_inner()));
                    Step::Chunk(to_chunk(self.buf.as_slice()))
                },
                None => Step::Done,
            },
            Some(Active::Text(text, sent)) => {
                let bytes = text.as_str().as_bytes();
                let ghost rest = utf8(text@).skip(sent as int);
                if sent < bytes.len() {
                    let end = if bytes.len() - sent > CHUNK_SIZE {
                        sent + CHUNK_SIZE
                    } else {
                        bytes.len()
                    };
                    let chunk = to_chunk(slice_subrange(bytes, sent, end));
                    assert(chunk_bytes(chunk) =~= rest.take(end - sent));
                    assert(utf8(text@).skip(end as int) =~= rest.skip(end - sent));
                    self.current = Some(Active::Text(text, end));
                    Step::Chunk(chunk)
                } else {
                    assert(old(self)@.active == Some(Source::<S, A>::Text(Seq::empty()))) by {
                        if sent == bytes.len() {
                            assert(rest =~= Seq::empty());
                        }
                    }
                    Step::Chunk(self.finish_part())
                }
            },
            Some(Active::Read(reader)) => {
                self.current = Some(Active::Read(reader));
                Step::Read
            },
            Some(Active::AsyncRead(reader)) => {
                self.current = Some(Active::AsyncRead(reader));
                Step::Read
            },
        }
    }

    /// Takes what the reader answered and decides what the pull gives.
    ///
    /// Bytes become the chunk as they are. The end of the reader closes the
    /// part: the chunk is the part's tail, with the closing delimiter after
    /// the last part, and the reader is dropped. A reader that is not ready
    /// is answered with `Step::Pending` and the body stays as it is, so
    /// that the same read is made again on the next pull. A failure is
    /// passed on as `Error::ContentRead`; the body stays as it is.
    pub fn poll_read(&mut self, outcome: ReadOutcome<'_>) -> (step: Step)
        requires
            old(self)@.reading(),
        ensures
            final(self)@ == old(self)@.read(outcome@).0,
            step@ == old(self)@.read(outcome@).1,
    {
        match outcome {
            ReadOutcome::Pending => Step::Pending,
            ReadOutcome::Ready(data) => if data.len() == 0 {
                self.current = None;
                Step::Chunk(self.finish_part())
            } else {
                Step::Chunk(to_chunk(data))
            },
            ReadOutcome::Failed(error) => Step::Failed(Error::ContentRead(error)),
        }
    }
}

impl<S, A> From<Form<S, A>> for Body<S, A> {
    /// Turns a `Form` into a multipart `Body`.
    fn from(form: Form<S, A>) -> (body: Body<S, A>)
        ensures
            body@ == BodyView::start(form@),
    {
        let (mut parts, boundary) = form.into_parts();
        let ghost all = parts@;
        let mut queue = VecDeque::new();
        while parts.len() > 0
            invariant
                parts@ + queue@ == all,
            decreases parts.len(),
        {
            if let Some(part) = parts.pop() {
                queue.push_front(part);
            }
        }
        assert(queue@ == all);
        Body { buf: Vec::with_capacity(CHUNK_SIZE), current: None, parts: queue, boundary }
    }
}

impl<S, A> vstd::std_specs::convert::FromSpecImpl<Form<S, A>> for Body<S, A> {
    open spec fn obeys_from_spec() -> bool {
        false
    }

    open spec fn from_spec(form: Form<S, A>) -> Body<S, A> {
        choose|body: Body<S, A>| body@ == BodyView::start(form@)
    }
}

} // verus!
