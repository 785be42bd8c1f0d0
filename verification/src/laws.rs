//! What holds of every body, whatever the form and whatever its readers
//! answer.

use crate::body::{BodyView, Output, ReadEvent, Source};
use crate::form::FormView;
use crate::part::{PartView, Payload};
use crate::wire::{part_head, part_tail, utf8, wire_format, Section};
use vstd::prelude::*;

verus! {

impl<S, A> BodyView<S, A> {
    /// A bound on the pulls that the source in hand can still take without
    /// a reader's answer: none where nothing is active, one to close a
    /// reader, and for a text one more for each byte that is left.
    pub open spec fn rank(self) -> nat {
        match self.active {
            None => 0,
            Some(Source::Text(rest)) => 1 + rest.len(),
            Some(_) => 1,
        }
    }
}

/// All the bytes that a body gives from here on, pulled until it is done,
/// while its readers answer with `reads`, one answer for each read. The
/// stream stops early where a reader fails, and where the answers run out
/// while a reader is being drained.
pub open spec fn output<S, A>(body: BodyView<S, A>, reads: Seq<ReadEvent>) -> Seq<u8>
    decreases body.pending.len(), body.rank(), reads.len(),
{
    if body.reading() {
        if reads.len() == 0 {
            Seq::empty()
        } else {
            match body.read(reads[0]).1 {
                Output::Chunk(bytes) => bytes + output(body.read(reads[0]).0, reads.drop_first()),
                Output::Pending => output(body.read(reads[0]).0, reads.drop_first()),
                _ => Seq::empty(),
            }
        }
    } else {
        match body.next().1 {
            Output::Chunk(bytes) => bytes + output(body.next().0, reads),
            _ => Seq::empty(),
        }
    }
}

/// Whether a reader's answer brings bytes.
pub open spec fn is_data(event: ReadEvent) -> bool {
    event matches ReadEvent::Ready(data) && data.len() > 0
}

/// Whether a reader's answer reports its end.
pub open spec fn is_end(event: ReadEvent) -> bool {
    event matches ReadEvent::Ready(data) && data.len() == 0
}

/// Whether `script` is what one reader answers from its first read to the
/// one that reports its end, without a failure.
pub open spec fn runs_to_end(script: Seq<ReadEvent>) -> bool {
    &&& script.len() > 0
    &&& is_end(script.last())
    &&& forall|i: int|
        0 <= i < script.len() - 1 ==> (#[trigger] script[i]) is Pending || is_data(script[i])
}

/// The bytes that the answers bring, in order.
pub open spec fn bytes_read(script: Seq<ReadEvent>) -> Seq<u8>
    decreases script.len(),
{
    if script.len() == 0 {
        Seq::empty()
    } else {
        let rest = bytes_read(script.drop_first());
        match script[0] {
            ReadEvent::Ready(data) => data + rest,
            _ => rest,
        }
    }
}

impl<S, A> Payload<S, A> {
    /// Whether `script` is what the source of this payload answers while it
    /// is drained: nothing for a text, which is never read by the driver,
    /// and a run to its end for a reader.
    pub open spec fn answers(self, script: Seq<ReadEvent>) -> bool {
        match self {
            Payload::Text(_) => script.len() == 0,
            _ => runs_to_end(script),
        }
    }

    /// The payload bytes that go on the wire when the source answers with
    /// `script`.
    pub open spec fn bytes(self, script: Seq<ReadEvent>) -> Seq<u8> {
        match self {
            Payload::Text(text) => utf8(text),
            _ => bytes_read(script),
        }
    }
}

/// The parts as they go on the wire when the source of each answers with
/// the script of the same index.
pub open spec fn sections<S, A>(
    parts: Seq<PartView<S, A>>,
    scripts: Seq<Seq<ReadEvent>>,
) -> Seq<Section> {
    Seq::new(
        parts.len(),
        |i: int|
            Section {
                content_type: parts[i].content_type,
                content_disposition: parts[i].content_disposition,
                payload: parts[i].payload.bytes(scripts[i]),
            },
    )
}

/// A text that is being drained comes out whole, whatever its length, and
/// is followed by the part's tail.
proof fn lemma_text_drains<S, A>(body: BodyView<S, A>, rest: Seq<u8>, reads: Seq<ReadEvent>)
    requires
        body.active == Some(Source::<S, A>::Text(rest)),
    ensures
        output(body, reads) == rest + body.tail() + output(body.closed(), reads),
    decreases rest.len(),
{
    if rest.len() > 0 {
        let after = body.next().0;
        let n = if rest.len() > crate::body::CHUNK_SIZE {
            crate::body::CHUNK_SIZE as int
        } else {
            rest.len() as int
        };
        lemma_text_drains(after, rest.skip(n), reads);
        assert(after.tail() == body.tail());
        assert(after.closed() == body.closed());
        assert(rest.take(n) + (rest.skip(n) + body.tail() + output(body.closed(), reads)) =~= rest
            + body.tail() + output(body.closed(), reads));
    } else {
        assert(rest + body.tail() + output(body.closed(), reads) =~= body.tail() + output(
            body.closed(),
            reads,
        ));
    }
}

/// A reader that is being drained passes on the bytes of its answers up to
/// its end, and is followed by the part's tail.
proof fn lemma_reader_drains<S, A>(
    body: BodyView<S, A>,
    script: Seq<ReadEvent>,
    more: Seq<ReadEvent>,
)
    requires
        body.reading(),
        runs_to_end(script),
    ensures
        output(body, script + more) == bytes_read(script) + body.tail() + output(
            body.closed(),
            more,
        ),
    decreases script.len(),
{
    let reads = script + more;
    assert(reads[0] == script[0]);
    assert(reads.drop_first() =~= script.drop_first() + more);
    if script.len() == 1 {
        assert(script.drop_first() =~= Seq::<ReadEvent>::empty());
        assert(script.drop_first() + more =~= more);
        assert(bytes_read(script.drop_first()) =~= Seq::<u8>::empty());
        assert(bytes_read(script) =~= Seq::<u8>::empty());
        assert(bytes_read(script) + body.tail() + output(body.closed(), more) =~= body.tail()
            + output(body.closed(), more));
    } else {
        let tail_script = script.drop_first();
        assert(tail_script.last() == script.last());
        assert forall|i: int| 0 <= i < tail_script.len() - 1 implies (#[trigger] tail_script[i])
            is Pending || is_data(tail_script[i]) by {
            assert(tail_script[i] == script[i + 1]);
        }
        assert(script[0] is Pending || is_data(script[0]));
        lemma_reader_drains(body, tail_script, more);
        match script[0] {
            ReadEvent::Ready(data) => {
                assert(data + (bytes_read(tail_script) + body.tail() + output(
                    body.closed(),
                    more,
                )) =~= bytes_read(script) + body.tail() + output(body.closed(), more));
            },
            _ => {},
        }
    }
}

/// The law of the wire format, for a body that stands between two parts.
proof fn lemma_parts_are_wire_format<S, A>(
    boundary: Seq<char>,
    parts: Seq<PartView<S, A>>,
    scripts: Seq<Seq<ReadEvent>>,
)
    requires
        scripts.len() == parts.len(),
        forall|i: int| 0 <= i < parts.len() ==> (#[trigger] parts[i]).payload.answers(scripts[i]),
    ensures
        output(BodyView { boundary, active: None, pending: parts }, scripts.flatten())
            == wire_format(boundary, sections(parts, scripts)),
    decreases parts.len(),
{
    let body = BodyView { boundary, active: None, pending: parts };
    let wire = sections(parts, scripts);
    if parts.len() > 0 {
        let part = parts[0];
        let script = scripts[0];
        let later = scripts.drop_first().flatten();
        let started = body.next().0;
        let head = part_head(boundary, part.content_type, part.content_disposition);
        let tail = part_tail(boundary, parts.len() == 1);
        let between = BodyView { boundary, active: None, pending: parts.drop_first() };
        assert(scripts.flatten() == script + later);
        assert(started.tail() == tail);
        assert(started.closed() == between);
        assert(part.payload.answers(script));
        assert forall|i: int| 0 <= i < parts.drop_first().len() implies (
        #[trigger] parts.drop_first()[i]).payload.answers(scripts.drop_first()[i]) by {
            assert(parts.drop_first()[i] == parts[i + 1]);
            assert(parts[i + 1].payload.answers(scripts[i + 1]));
        }
        lemma_parts_are_wire_format(boundary, parts.drop_first(), scripts.drop_first());
        assert(wire.drop_first() =~= sections(parts.drop_first(), scripts.drop_first()));
        assert(wire[0].payload == part.payload.bytes(script));
        match part.payload {
            Payload::Text(text) => {
                assert(script + later =~= later);
                lemma_text_drains(started, utf8(text), later);
            },
            _ => {
                lemma_reader_drains(started, script, later);
            },
        }
        assert(output(started, script + later) == wire[0].payload + tail + output(between, later));
        assert(head + (wire[0].payload + tail + output(between, later)) =~= head + wire[0].payload
            + tail + output(between, later));
    }
}

/// A form without parts encodes to nothing: the first pull already reports
/// the end, and no delimiter is written.
pub proof fn law_empty_form_gives_nothing<S, A>(boundary: Seq<char>, reads: Seq<ReadEvent>)
    ensures
        BodyView::<S, A>::start(FormView { boundary, parts: Seq::empty() }).done(),
        output(BodyView::<S, A>::start(FormView { boundary, parts: Seq::empty() }), reads)
            == Seq::<u8>::empty(),
        wire_format(boundary, Seq::empty()) == Seq::<u8>::empty(),
{
}

/// All the chunks of a body, one after the other, are the wire format of
/// its form: for each part its boundary line, its two headers, a blank
/// line, its payload and a line end, and after the last part the closing
/// delimiter. The payload of a text is its UTF-8 encoding; that of a reader
/// is what the reader answered, up to its end. This holds for every form
/// and for every way in which its readers run to their ends.
pub proof fn law_output_is_wire_format<S, A>(form: FormView<S, A>, scripts: Seq<Seq<ReadEvent>>)
    requires
        scripts.len() == form.parts.len(),
        forall|i: int|
            0 <= i < form.parts.len() ==> (#[trigger] form.parts[i]).payload.answers(scripts[i]),
    ensures
        output(BodyView::start(form), scripts.flatten()) == wire_format(
            form.boundary,
            sections(form.parts, scripts),
        ),
{
    lemma_parts_are_wire_format(form.boundary, form.parts, scripts);
}

/// Once a body is done it stays done: every further pull reports the end
/// again, changes nothing and gives no bytes.
pub proof fn law_done_is_stable<S, A>(body: BodyView<S, A>, reads: Seq<ReadEvent>)
    requires
        body.done(),
    ensures
        body.next() == (body, Output::Done),
        body.next().0.done(),
        output(body, reads) == Seq::<u8>::empty(),
{
}

impl<S, A> Source<S, A> {
    /// The same source with a synchronous reader in the place of any
    /// reader.
    pub open spec fn as_sync(self) -> Source<(), ()> {
        match self {
            Source::Text(rest) => Source::Text(rest),
            _ => Source::Read(()),
        }
    }
}

impl<S, A> PartView<S, A> {
    /// The same part with a synchronous reader in the place of any reader.
    pub open spec fn as_sync(self) -> PartView<(), ()> {
        PartView {
            payload: match self.payload {
                Payload::Text(text) => Payload::Text(text),
                Payload::Read(_, len) => Payload::Read((), len),
                Payload::AsyncRead(_) => Payload::Read((), None),
            },
            content_type: self.content_type,
            content_disposition: self.content_disposition,
        }
    }
}

impl<S, A> BodyView<S, A> {
    /// The same body with a synchronous reader in the place of every
    /// reader, in the parts and in the source that is being drained.
    pub open spec fn as_sync(self) -> BodyView<(), ()> {
        BodyView {
            boundary: self.boundary,
            active: match self.active {
                Some(source) => Some(source.as_sync()),
                None => None,
            },
            pending: self.pending.map_values(|part: PartView<S, A>| part.as_sync()),
        }
    }
}

/// Whether a reader's answer is more than "not ready".
pub open spec fn is_answer(event: ReadEvent) -> bool {
    !(event is Pending)
}

/// A reader that is not ready leaves no trace in the stream: a body whose
/// readers answer "not ready" any number of times between their reads
/// gives, byte for byte, what the same body gives with synchronous readers
/// that bring the same bytes and are never late.
pub proof fn law_pending_reads_leave_no_trace<S, A>(body: BodyView<S, A>, reads: Seq<ReadEvent>)
    ensures
        output(body, reads) == output(body.as_sync(), reads.filter(|event| is_answer(event))),
    decreases body.pending.len(), body.rank(), reads.len(),
{
    let sync = body.as_sync();
    let answers = reads.filter(|event| is_answer(event));
    if body.reading() {
        if reads.len() == 0 {
            reveal(Seq::filter);
        } else {
            let event = reads[0];
            let later = reads.drop_first();
            assert(reads =~= seq![event] + later);
            later.lemma_filter_prepend(event, |event| is_answer(event));
            law_pending_reads_leave_no_trace(body.read(event).0, later);
            if is_answer(event) {
                assert(answers[0] == event);
                assert(answers.drop_first() =~= later.filter(|event| is_answer(event)));
                assert(sync.read(event).0 == body.read(event).0.as_sync());
            } else {
                assert(answers =~= later.filter(|event| is_answer(event)));
            }
        }
    } else {
        let after = body.next().0;
        assert(sync.next().1 == body.next().1);
        if body.next().1 is Chunk {
            law_pending_reads_leave_no_trace(after, reads);
            assert(sync.next().0.pending =~= after.as_sync().pending);
            assert(sync.next().0 == after.as_sync());
        }
    }
}

} // verus!
