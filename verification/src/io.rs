//! Framing of Electrum JSON-RPC messages: one message on each line.
//!
//! Outgoing requests become lines of bytes by [`encode_message`]. Incoming lines become messages
//! by a [`ReadStreamer`], which says when to read and takes what was read.

use std::collections::VecDeque;
use vstd::prelude::*;

use crate::decode::MessageParser;
use crate::raw::{cow_as_str, RawRequestView};
use crate::text;
use crate::value;
use crate::{MaybeBatch, RawNotificationOrResponse, RawRequest, Value};

verus! {

/// The JSON text of a request.
pub open spec fn request_text(request: RawRequestView) -> Seq<char> {
    "{\"jsonrpc\":"@ + text::json_string(request.jsonrpc) + ",\"id\":"@ + text::decimal(
        request.id as nat,
    ) + ",\"method\":"@ + text::json_string(request.method) + ",\"params\":["@ + text::joined(
        request.params,
        ","@,
    ) + "]}"@
}

/// The JSON texts of requests.
pub open spec fn request_texts(requests: Seq<RawRequest>) -> Seq<Seq<char>> {
    requests.map_values(|request: RawRequest| request_text(request@))
}

/// The JSON text of a request, or of a batch as an array.
pub open spec fn message_text(message: MaybeBatch<RawRequest>) -> Seq<char> {
    match message {
        MaybeBatch::Single(request) => request_text(request@),
        MaybeBatch::Batch(requests) => "["@ + text::joined(request_texts(requests@), ","@) + "]"@,
    }
}

/// Whether bytes hold no line feed.
pub open spec fn one_line_bytes(bytes: Seq<u8>) -> bool {
    forall|i: int| 0 <= i < bytes.len() ==> bytes[i] != 10
}

/// A text without a line feed has none among its bytes either.
pub proof fn lemma_one_line_bytes(s: Seq<char>)
    requires
        text::one_line(s),
    ensures
        one_line_bytes(vstd::utf8::encode_utf8(s)),
    decreases s.len(),
{
    if s.len() > 0 {
        lemma_char_bytes(s[0]);
        lemma_one_line_bytes(s.drop_first());
    }
}

proof fn lemma_char_bytes(c: char)
    requires
        c != '\n',
    ensures
        one_line_bytes(vstd::utf8::encode_scalar(c as u32)),
{
    let v = c as u32;
    assert(v != 10 && v <= 0x7F ==> (v & 0x7F) as u8 != 10) by (bit_vector);
    assert(0xC0u8 | ((v >> 6) & 0x1F) as u8 >= 0xC0u8) by (bit_vector);
    assert(0xE0u8 | ((v >> 12) & 0x0F) as u8 >= 0xE0u8) by (bit_vector);
    assert(0xF0u8 | ((v >> 18) & 0x7) as u8 >= 0xF0u8) by (bit_vector);
    assert(0x80u8 | (v & 0x3F) as u8 >= 0x80u8) by (bit_vector);
    assert(0x80u8 | ((v >> 6) & 0x3F) as u8 >= 0x80u8) by (bit_vector);
    assert(0x80u8 | ((v >> 12) & 0x3F) as u8 >= 0x80u8) by (bit_vector);
}

fn push_values(out: &mut String, values: &Vec<Value>)
    ensures
        final(out)@ == old(out)@ + text::joined(value::texts(values@), ","@),
        text::one_line(text::joined(value::texts(values@), ","@)),
{
    let ghost start = out@;
    let ghost all = value::texts(values@);
    let mut i: usize = 0;
    while i < values.len()
        invariant
            i <= values@.len(),
            all == value::texts(values@),
            out@ == start + text::joined(all.take(i as int), ","@),
            forall|k: int| 0 <= k < i ==> text::one_line(#[trigger] all[k]),
        decreases values@.len() - i,
    {
        proof {
            lemma_joined_next(all, i as int, ","@);
        }
        if i > 0 {
            out.append(",");
        }
        let value = values[i].as_str();
        assert(value@ == all[i as int]);
        out.append(value);
        i = i + 1;
        assert(out@ =~= start + text::joined(all.take(i as int), ","@));
    }
    proof {
        reveal_strlit(",");
        assert(all.take(i as int) == all);
        text::lemma_joined_one_line(all, ","@);
    }
}

proof fn lemma_joined_next(items: Seq<Seq<char>>, i: int, separator: Seq<char>)
    requires
        0 <= i < items.len(),
    ensures
        i == 0 ==> text::joined(items.take(i), separator) == Seq::<char>::empty(),
        i == 0 ==> text::joined(items.take(i + 1), separator) == items[i],
        i > 0 ==> text::joined(items.take(i + 1), separator) == text::joined(
            items.take(i),
            separator,
        ) + separator + items[i],
{
    assert(items.take(i + 1).drop_last() == items.take(i));
}

fn push_request(out: &mut String, request: &RawRequest)
    ensures
        final(out)@ == old(out)@ + request_text(request@),
        text::one_line(request_text(request@)),
{
    let ghost start = out@;
    out.append("{\"jsonrpc\":");
    out.append(text::to_json_string(cow_as_str(&request.jsonrpc)).as_str());
    out.append(",\"id\":");
    text::push_decimal(out, request.id as u64);
    out.append(",\"method\":");
    out.append(text::to_json_string(cow_as_str(&request.method)).as_str());
    out.append(",\"params\":[");
    push_values(out, &request.params);
    out.append("]}");
    proof {
        reveal_strlit("{\"jsonrpc\":");
        reveal_strlit(",\"id\":");
        reveal_strlit(",\"method\":");
        reveal_strlit(",\"params\":[");
        reveal_strlit("]}");
        text::lemma_json_string_one_line(request.jsonrpc@);
        text::lemma_decimal_one_line(request.id as nat);
        text::lemma_json_string_one_line(request.method@);
        assert(out@ =~= start + request_text(request@));
    }
}

/// Encodes a JSON-RPC request or batch, followed by a newline.
///
/// The message is a single line, terminated by `\n`, to comply with Electrum's line-delimited
/// JSON-RPC protocol.
pub fn encode_message(message: &MaybeBatch<RawRequest>) -> (line: Vec<u8>)
    ensures
        line@ == vstd::utf8::encode_utf8(message_text(*message)).push(10),
        one_line_bytes(line@.drop_last()),
        line@.last() == 10,
        forall|i: int| 0 <= i < line@.len() - 1 ==> line@[i] != 10,
        *message matches MaybeBatch::Single(request) ==> line@ == vstd::utf8::encode_utf8(
            "{\"jsonrpc\":"@ + text::json_string(request.jsonrpc@) + ",\"id\":"@ + text::decimal(
                request.id as nat,
            ) + ",\"method\":"@ + text::json_string(request.method@) + ",\"params\":["@
                + text::joined(value::texts(request.params@), ","@) + "]}"@,
        ).push(10),
{
    let mut out = String::new();
    match message {
        MaybeBatch::Single(request) => push_request(&mut out, request),
        MaybeBatch::Batch(requests) => {
            out.append("[");
            let ghost all = request_texts(requests@);
            let mut i: usize = 0;
            while i < requests.len()
                invariant
                    i <= requests@.len(),
                    all == request_texts(requests@),
                    out@ == "["@ + text::joined(all.take(i as int), ","@),
                    forall|k: int| 0 <= k < i ==> text::one_line(#[trigger] all[k]),
                decreases requests@.len() - i,
            {
                proof {
                    lemma_joined_next(all, i as int, ","@);
                }
                if i > 0 {
                    out.append(",");
                }
                push_request(&mut out, &requests[i]);
                i = i + 1;
                assert(out@ =~= "["@ + text::joined(all.take(i as int), ","@));
            }
            out.append("]");
            proof {
                reveal_strlit("[");
                reveal_strlit(",");
                reveal_strlit("]");
                assert(all.take(i as int) == all);
                text::lemma_joined_one_line(all, ","@);
            }
        },
    }
    assert(out@ =~= message_text(*message));
    proof {
        lemma_one_line_bytes(message_text(*message));
    }
    let mut line = out.as_str().as_bytes_vec();
    line.push(10);
    assert forall|i: int| 0 <= i < line@.len() - 1 implies line@[i] != 10 by {
        assert(line@.drop_last()[i] == line@[i]);
    }
    line
}

/// The text of one request is the object of its version, its ID, its method and the array of all
/// its parameters.
pub proof fn lemma_single_text(request: RawRequest)
    ensures
        message_text(MaybeBatch::Single(request)) == "{\"jsonrpc\":"@ + text::json_string(
            request.jsonrpc@,
        ) + ",\"id\":"@ + text::decimal(request.id as nat) + ",\"method\":"@ + text::json_string(
            request.method@,
        ) + ",\"params\":["@ + text::joined(value::texts(request.params@), ","@) + "]}"@,
{
}

/// The text of a batch is an array that holds the text of every request, in order: one more request
/// in a batch is its text before the closing bracket, after a comma where it is not the only one.
pub proof fn lemma_batch_text(
    none: Vec<RawRequest>,
    front: Vec<RawRequest>,
    last: RawRequest,
    all: Vec<RawRequest>,
)
    requires
        none@.len() == 0,
        all@ == front@.push(last),
    ensures
        message_text(MaybeBatch::Batch(none)) == seq!['[', ']'],
        front@.len() == 0 ==> message_text(MaybeBatch::Batch(all)) == seq!['['] + message_text(
            MaybeBatch::Single(last),
        ) + seq![']'],
        front@.len() > 0 ==> message_text(MaybeBatch::Batch(all)) == message_text(
            MaybeBatch::Batch(front),
        ).drop_last() + seq![','] + message_text(MaybeBatch::Single(last)) + seq![']'],
{
    reveal_strlit("[");
    reveal_strlit(",");
    reveal_strlit("]");
    assert(message_text(MaybeBatch::Batch(none)) =~= seq!['[', ']']);
    let texts = request_texts(all@);
    assert(texts.drop_last() =~= request_texts(front@));
    assert(texts.last() == request_text(last@));
    if front@.len() > 0 {
        assert(message_text(MaybeBatch::Batch(all)) =~= message_text(
            MaybeBatch::Batch(front),
        ).drop_last() + seq![','] + message_text(MaybeBatch::Single(last)) + seq![']']);
    } else {
        assert(message_text(MaybeBatch::Batch(all)) =~= seq!['['] + message_text(
            MaybeBatch::Single(last),
        ) + seq![']']);
    }
}

/// What a [`ReadStreamer`] holds.
pub struct StreamerView<R> {
    /// The reader, while there is more to read and no read is under way.
    pub reader: Option<R>,
    /// The bytes of the line that is being read.
    pub buf: Seq<u8>,
    /// The messages that were read and not yet handed out.
    pub queue: Seq<RawNotificationOrResponse>,
    /// The error that was met and not yet handed out.
    pub err: Option<std::io::Error>,
}

/// What a [`ReadStreamer`] has for its consumer.
#[derive(Debug)]
pub enum Step<R> {
    /// The next message.
    Item(RawNotificationOrResponse),
    /// The error that ended the stream.
    Failed(std::io::Error),
    /// The next line is to be read with this reader, appended to these bytes. What comes of it
    /// goes to [`ReadStreamer::complete_read`].
    Read(R, Vec<u8>),
    /// There is nothing more.
    End,
}

/// What came of reading a line.
#[derive(Debug)]
pub enum ReadOutcome<R> {
    /// A line was read, up to and with its line feed, or the input ended.
    Line(R, Vec<u8>),
    /// The input gave nothing more for now.
    Pending(R, Vec<u8>),
    /// Reading failed.
    Failed(std::io::Error, Vec<u8>),
}

impl<R> StreamerView<R> {
    /// What every streamer keeps: an error is the last thing that it hands out.
    pub open spec fn wf(self) -> bool {
        self.err is Some ==> self.reader is None && self.queue.len() == 0
    }

    /// Whether a read is under way, or there is nothing more.
    pub open spec fn idle(self) -> bool {
        &&& self.reader is None
        &&& self.queue.len() == 0
        &&& self.err is None
    }

    /// Whether a streamer makes this step and is then like `after`.
    pub open spec fn steps(self, step: Step<R>, after: Self) -> bool {
        if self.queue.len() > 0 {
            &&& step == Step::<R>::Item(self.queue[0])
            &&& after == (StreamerView { queue: self.queue.drop_first(), ..self })
        } else if self.err is Some {
            &&& step == Step::<R>::Failed(self.err->0)
            &&& after == (StreamerView { err: None, ..self })
        } else if self.reader is Some {
            &&& step matches Step::Read(reader, buf) && reader == self.reader->0 && buf@ == self.buf
            &&& after == (StreamerView { reader: None, buf: Seq::empty(), ..self })
        } else {
            &&& step is End
            &&& after == self
        }
    }

    /// The streamer after a line was parsed with this result.
    ///
    /// Messages are queued in their order, and the line is done with. An error is kept to be
    /// handed out.
    pub open spec fn parsed(
        self,
        parsed: Result<MaybeBatch<RawNotificationOrResponse>, std::io::Error>,
    ) -> Self {
        match parsed {
            Ok(messages) => StreamerView {
                queue: self.queue + messages.items(),
                buf: Seq::empty(),
                ..self
            },
            Err(err) => StreamerView { err: Some(err), ..self },
        }
    }

    /// Whether a streamer is like `after` once a read came to this end.
    pub open spec fn completes<P: MessageParser>(
        self,
        outcome: ReadOutcome<R>,
        parser: &P,
        after: Self,
    ) -> bool {
        match outcome {
            ReadOutcome::Failed(err, buf) => {
                after == (StreamerView { err: Some(err), buf: buf@, ..self })
            },
            ReadOutcome::Pending(reader, buf) => {
                after == (StreamerView { reader: Some(reader), buf: buf@, ..self })
            },
            ReadOutcome::Line(reader, buf) => {
                if buf@.len() == 0 {
                    after == (StreamerView { buf: buf@, ..self })
                } else {
                    exists|line: &[u8], parsed: Result<
                        MaybeBatch<RawNotificationOrResponse>,
                        std::io::Error,
                    >|
                        {
                            &&& line@ == buf@.drop_last()
                            &&& #[trigger] call_ensures(P::parse, (parser, line), parsed)
                            &&& after == (StreamerView {
                                buf: line@,
                                reader: if parsed is Ok {
                                    Some(reader)
                                } else {
                                    self.reader
                                },
                                ..self
                            }).parsed(parsed)
                        }
                }
            },
        }
    }
}

impl<R> ReadOutcome<R> {
    /// Returns whether a line that was read ends in its line feed, or nothing was read.
    pub fn is_terminated(&self) -> (done: bool)
        ensures
            done <==> (*self matches ReadOutcome::Line(_, buf) ==> terminated(buf@)),
            done <==> (*self matches ReadOutcome::Line(_, buf) ==> buf@.len() == 0 || buf@.last()
                == 10),
    {
        match self {
            ReadOutcome::Line(_, buf) => buf.len() == 0 || buf[buf.len() - 1] == 10,
            _ => true,
        }
    }
}

/// A streaming parser for Electrum JSON-RPC messages from an input reader.
///
/// `ReadStreamer` asks for one line after the other, has each parsed, and queues the
/// [`RawNotificationOrResponse`] items for consumption.
#[derive(Debug)]
pub struct ReadStreamer<R> {
    reader: Option<R>,
    buf: Vec<u8>,
    queue: VecDeque<RawNotificationOrResponse>,
    err: Option<std::io::Error>,
}

impl<R> View for ReadStreamer<R> {
    type V = StreamerView<R>;

    closed spec fn view(&self) -> StreamerView<R> {
        StreamerView { reader: self.reader, buf: self.buf@, queue: self.queue@, err: self.err }
    }
}

impl<R> ReadStreamer<R> {
    /// Creates a new `ReadStreamer` with the given reader.
    ///
    /// This does not begin reading immediately; call [`ReadStreamer::advance`] to start processing
    /// messages.
    pub fn new(reader: R) -> (streamer: Self)
        ensures
            streamer@ == (StreamerView {
                reader: Some(reader),
                buf: Seq::empty(),
                queue: Seq::empty(),
                err: None,
            }),
            streamer@.wf(),
    {
        ReadStreamer { reader: Some(reader), buf: Vec::new(), queue: VecDeque::new(), err: None }
    }

    /// Hands out the next message or the error that ended the stream, or asks for a line.
    pub fn advance(&mut self) -> (step: Step<R>)
        ensures
            old(self)@.steps(step, final(self)@),
            old(self)@.wf() ==> final(self)@.wf(),
            step is Read ==> final(self)@.idle(),
            match step {
                Step::Item(message) => {
                    &&& old(self)@.queue.len() > 0
                    &&& message == old(self)@.queue[0]
                    &&& final(self)@.queue == old(self)@.queue.drop_first()
                    &&& final(self)@.err == old(self)@.err
                    &&& final(self)@.reader == old(self)@.reader
                    &&& final(self)@.buf == old(self)@.buf
                },
                Step::Failed(err) => {
                    &&& old(self)@.queue.len() == 0
                    &&& old(self)@.err == Some(err)
                    &&& final(self)@.queue.len() == 0
                    &&& final(self)@.err is None
                    &&& final(self)@.reader == old(self)@.reader
                    &&& final(self)@.buf == old(self)@.buf
                },
                Step::Read(reader, buf) => {
                    &&& old(self)@.queue.len() == 0
                    &&& old(self)@.err is None
                    &&& old(self)@.reader == Some(reader)
                    &&& buf@ == old(self)@.buf
                    &&& final(self)@.queue.len() == 0
                    &&& final(self)@.err is None
                    &&& final(self)@.reader is None
                    &&& final(self)@.buf.len() == 0
                },
                Step::End => {
                    &&& old(self)@.queue.len() == 0
                    &&& old(self)@.err is None
                    &&& old(self)@.reader is None
                    &&& final(self)@ == old(self)@
                },
            },
    {
        match self.queue.pop_front() {
            Some(item) => {
                return Step::Item(item);
            },
            None => {},
        }
        match self.err.take() {
            Some(err) => {
                return Step::Failed(err);
            },
            None => {},
        }
        match self.reader.take() {
            Some(reader) => {
                let mut buf: Vec<u8> = Vec::new();
                std::mem::swap(&mut buf, &mut self.buf);
                Step::Read(reader, buf)
            },
            None => Step::End,
        }
    }

    /// Queues the messages of a line, or keeps the error that parsing it gave. Returns whether
    /// there may be more to read.
    pub fn enqueue(
        &mut self,
        parsed: Result<MaybeBatch<RawNotificationOrResponse>, std::io::Error>,
    ) -> (more: bool)
        ensures
            final(self)@ == old(self)@.parsed(parsed),
            more == parsed is Ok,
            final(self)@.reader == old(self)@.reader,
            match parsed {
                Ok(messages) => {
                    &&& final(self)@.queue == old(self)@.queue + messages.items()
                    &&& final(self)@.buf.len() == 0
                    &&& final(self)@.err == old(self)@.err
                },
                Err(err) => {
                    &&& final(self)@.queue == old(self)@.queue
                    &&& final(self)@.buf == old(self)@.buf
                    &&& final(self)@.err == Some(err)
                },
            },
    {
        match parsed {
            Ok(MaybeBatch::Single(message)) => {
                self.queue.push_back(message);
            },
            Ok(MaybeBatch::Batch(messages)) => {
                let ghost all = messages@;
                for message in iter: messages.into_iter()
                    invariant
                        iter.seq() == all,
                        self@ == (StreamerView {
                            queue: old(self)@.queue + all.take(iter.index() as int),
                            ..old(self)@
                        }),
                {
                    self.queue.push_back(message);
                    assert(self.queue@ =~= old(self)@.queue + all.take(iter.index() + 1));
                }
                assert(all.take(all.len() as int) == all);
            },
            Err(err) => {
                self.err = Some(err);
                return false;
            },
        }
        self.buf.clear();
        assert(self@.queue =~= old(self)@.parsed(parsed).queue);
        true
    }

    fn enqueue_from_buf<P: MessageParser>(&mut self, parser: &P) -> (more: bool)
        requires
            old(self)@.buf.len() > 0 ==> old(self)@.buf.last() == 10,
        ensures
            if old(self)@.buf.len() == 0 {
                !more && final(self)@ == old(self)@
            } else {
                exists|line: &[u8], parsed: Result<
                    MaybeBatch<RawNotificationOrResponse>,
                    std::io::Error,
                >|
                    {
                        &&& line@ == old(self)@.buf.drop_last()
                        &&& #[trigger] call_ensures(P::parse, (parser, line), parsed)
                        &&& more == parsed is Ok
                        &&& final(self)@ == (StreamerView { buf: line@, ..old(self)@ }).parsed(
                            parsed,
                        )
                    }
            },
    {
        if self.buf.pop().is_none() {
            return false;
        }
        let line = self.buf.as_slice();
        let parsed = parser.parse(line);
        assert(line@ =~= old(self)@.buf.drop_last());
        assert(call_ensures(P::parse, (parser, line), parsed));
        self.enqueue(parsed)
    }

    /// Takes what came of reading a line.
    ///
    /// A line has its messages queued. Where the input has ended, where reading failed and where
    /// the line could not be parsed, nothing more is read.
    pub fn complete_read<P: MessageParser>(&mut self, outcome: ReadOutcome<R>, parser: &P)
        requires
            outcome matches ReadOutcome::Line(_, buf) ==> terminated(buf@),
        ensures
            old(self)@.completes(outcome, parser, final(self)@),
            old(self)@.idle() ==> final(self)@.wf(),
            match outcome {
                ReadOutcome::Failed(err, buf) => {
                    &&& final(self)@.err == Some(err)
                    &&& final(self)@.buf == buf@
                    &&& final(self)@.queue == old(self)@.queue
                    &&& final(self)@.reader == old(self)@.reader
                },
                ReadOutcome::Pending(reader, buf) => {
                    &&& final(self)@.err == old(self)@.err
                    &&& final(self)@.buf == buf@
                    &&& final(self)@.queue == old(self)@.queue
                    &&& final(self)@.reader == Some(reader)
                },
                ReadOutcome::Line(reader, buf) => if buf@.len() == 0 {
                    &&& final(self)@.err == old(self)@.err
                    &&& final(self)@.buf.len() == 0
                    &&& final(self)@.queue == old(self)@.queue
                    &&& final(self)@.reader == old(self)@.reader
                } else {
                    exists|line: &[u8], parsed: Result<
                        MaybeBatch<RawNotificationOrResponse>,
                        std::io::Error,
                    >|
                        {
                            &&& line@ == buf@.drop_last()
                            &&& #[trigger] call_ensures(P::parse, (parser, line), parsed)
                            &&& match parsed {
                                Ok(messages) => {
                                    &&& final(self)@.err == old(self)@.err
                                    &&& final(self)@.buf.len() == 0
                                    &&& final(self)@.queue == old(self)@.queue + messages.items()
                                    &&& final(self)@.reader == Some(reader)
                                },
                                Err(err) => {
                                    &&& final(self)@.err == Some(err)
                                    &&& final(self)@.buf == line@
                                    &&& final(self)@.queue == old(self)@.queue
                                    &&& final(self)@.reader == old(self)@.reader
                                },
                            }
                        }
                },
            },
    {
        match outcome {
            ReadOutcome::Failed(err, buf) => {
                self.buf = buf;
                self.err = Some(err);
            },
            ReadOutcome::Pending(reader, buf) => {
                self.buf = buf;
                self.reader = Some(reader);
            },
            ReadOutcome::Line(reader, buf) => {
                self.buf = buf;
                if self.enqueue_from_buf(parser) {
                    self.reader = Some(reader);
                }
            },
        }
    }
}

/// Whether a streamer goes through these states by making these steps.
pub open spec fn run<R>(states: Seq<StreamerView<R>>, steps: Seq<Step<R>>) -> bool {
    &&& states.len() == steps.len() + 1
    &&& forall|i: int|
        #![trigger steps[i]]
        0 <= i < steps.len() ==> states[i].steps(steps[i], states[i + 1])
}

/// Queued messages are handed out first, each once, in the order in which they were queued.
pub proof fn lemma_messages_in_order<R>(
    states: Seq<StreamerView<R>>,
    steps: Seq<Step<R>>,
    n: int,
)
    requires
        run(states, steps),
        0 <= n <= steps.len(),
        n <= states[0].queue.len(),
    ensures
        forall|i: int| 0 <= i < n ==> #[trigger] steps[i] == Step::<R>::Item(states[0].queue[i]),
        states[n] == (StreamerView { queue: states[0].queue.skip(n), ..states[0] }),
    decreases n,
{
    if n == 0 {
        assert(states[0].queue.skip(0) == states[0].queue);
    } else {
        lemma_messages_in_order(states, steps, n - 1);
        assert(states[n - 1].steps(steps[n - 1], states[n - 1 + 1]));
        assert(states[0].queue.skip(n - 1).drop_first() =~= states[0].queue.skip(n));
    }
}

/// A line with messages has them handed out in order, and then the next line is asked for.
pub proof fn lemma_line_is_handed_out<R, P: MessageParser>(
    before: StreamerView<R>,
    reader: R,
    buf: Vec<u8>,
    parser: &P,
    messages: MaybeBatch<RawNotificationOrResponse>,
    states: Seq<StreamerView<R>>,
    steps: Seq<Step<R>>,
)
    requires
        before.idle(),
        buf@.len() > 0,
        before.completes(ReadOutcome::Line(reader, buf), parser, states[0]),
        forall|line: &[u8], parsed: Result<_, _>| #[trigger]
            call_ensures(P::parse, (parser, line), parsed) && line@ == buf@.drop_last() ==> parsed
                == Ok::<MaybeBatch<RawNotificationOrResponse>, std::io::Error>(messages),
        run(states, steps),
        steps.len() == messages.items().len() + 1,
    ensures
        forall|i: int|
            0 <= i < messages.items().len() ==> #[trigger] steps[i] == Step::<R>::Item(
                messages.items()[i],
            ),
        steps.last() matches Step::Read(again, rest) && again == reader && rest@.len() == 0,
{
    assert(before.queue + messages.items() =~= messages.items());
    let n = messages.items().len() as int;
    assert(states[0].queue == messages.items());
    lemma_messages_in_order(states, steps, n);
    assert(states[n].steps(steps[n], states[n + 1]));
}

/// A read that gave nothing more for now is asked for again, with the bytes that it gave so far.
pub proof fn lemma_pending_read_resumes<R, P: MessageParser>(
    before: StreamerView<R>,
    reader: R,
    buf: Vec<u8>,
    parser: &P,
    between: StreamerView<R>,
    step: Step<R>,
    after: StreamerView<R>,
)
    requires
        before.idle(),
        before.completes(ReadOutcome::Pending(reader, buf), parser, between),
        between.steps(step, after),
    ensures
        step matches Step::Read(again, bytes) && again == reader && bytes@ == buf@,
        after.idle(),
{
}

/// Where there is nothing more, there never will be.
pub proof fn lemma_end_is_final<R>(states: Seq<StreamerView<R>>, steps: Seq<Step<R>>, n: int)
    requires
        run(states, steps),
        states[0].idle(),
        0 <= n < steps.len(),
    ensures
        steps[n] is End,
        states[n + 1] == states[0],
    decreases n,
{
    if n > 0 {
        lemma_end_is_final(states, steps, n - 1);
    }
    assert(states[n].steps(steps[n], states[n + 1]));
}

/// The end of the input ends the stream.
pub proof fn lemma_input_end_is_final<R, P: MessageParser>(
    before: StreamerView<R>,
    reader: R,
    buf: Vec<u8>,
    parser: &P,
    states: Seq<StreamerView<R>>,
    steps: Seq<Step<R>>,
    n: int,
)
    requires
        before.idle(),
        buf@.len() == 0,
        before.completes(ReadOutcome::Line(reader, buf), parser, states[0]),
        run(states, steps),
        0 <= n < steps.len(),
    ensures
        steps[n] is End,
{
    lemma_end_is_final(states, steps, n);
}

/// An error is handed out once and ends the stream.
pub proof fn lemma_error_is_final<R>(states: Seq<StreamerView<R>>, steps: Seq<Step<R>>, n: int)
    requires
        run(states, steps),
        states[0].wf(),
        states[0].err is Some,
        0 <= n < steps.len(),
    ensures
        steps[0] == Step::<R>::Failed(states[0].err->0),
        n > 0 ==> steps[n] is End,
{
    assert(states[0].steps(steps[0], states[1]));
    if n > 0 {
        let later_states = states.drop_first();
        let later_steps = steps.drop_first();
        assert forall|i: int|
            #![trigger later_steps[i]]
            0 <= i < later_steps.len() implies later_states[i].steps(
            later_steps[i],
            later_states[i + 1],
        ) by {
            assert(states[i + 1].steps(steps[i + 1], states[i + 1 + 1]));
        }
        lemma_end_is_final(later_states, later_steps, n - 1);
    }
}

/// A read that failed has its error handed out next, and ends the stream.
pub proof fn lemma_failed_read_is_final<R, P: MessageParser>(
    before: StreamerView<R>,
    err: std::io::Error,
    buf: Vec<u8>,
    parser: &P,
    states: Seq<StreamerView<R>>,
    steps: Seq<Step<R>>,
    n: int,
)
    requires
        before.idle(),
        before.completes(ReadOutcome::Failed(err, buf), parser, states[0]),
        run(states, steps),
        0 <= n < steps.len(),
    ensures
        steps[0] == Step::<R>::Failed(err),
        n > 0 ==> steps[n] is End,
{
    lemma_error_is_final(states, steps, n);
}

/// A line that cannot be parsed has the parser's error handed out next, and ends the stream.
pub proof fn lemma_unparsed_line_is_final<R, P: MessageParser>(
    before: StreamerView<R>,
    reader: R,
    buf: Vec<u8>,
    parser: &P,
    states: Seq<StreamerView<R>>,
    steps: Seq<Step<R>>,
    n: int,
)
    requires
        before.idle(),
        buf@.len() > 0,
        before.completes(ReadOutcome::Line(reader, buf), parser, states[0]),
        forall|line: &[u8], parsed: Result<MaybeBatch<RawNotificationOrResponse>, std::io::Error>|
            #[trigger] call_ensures(P::parse, (parser, line), parsed) && line@ == buf@.drop_last()
                ==> parsed is Err,
        run(states, steps),
        0 <= n < steps.len(),
    ensures
        exists|
            line: &[u8],
            parsed: Result<MaybeBatch<RawNotificationOrResponse>, std::io::Error>,
        |
            {
                &&& line@ == buf@.drop_last()
                &&& #[trigger] call_ensures(P::parse, (parser, line), parsed)
                &&& parsed matches Err(err) && steps[0] == Step::<R>::Failed(err)
            },
        n > 0 ==> steps[n] is End,
{
    let (line, parsed) = choose|
        line: &[u8],
        parsed: Result<MaybeBatch<RawNotificationOrResponse>, std::io::Error>,
    |
        {
            &&& line@ == buf@.drop_last()
            &&& #[trigger] call_ensures(P::parse, (parser, line), parsed)
            &&& states[0] == (StreamerView {
                buf: line@,
                reader: if parsed is Ok {
                    Some(reader)
                } else {
                    before.reader
                },
                ..before
            }).parsed(parsed)
        };
    assert(parsed is Err);
    lemma_error_is_final(states, steps, n);
}

/// Bytes are a line that was read to its end, or the end of the input, exactly where they are none
/// or the last of them is a line feed.
pub proof fn lemma_terminated(line: Seq<u8>)
    ensures
        terminated(line) <==> line.len() == 0 || line.last() == 10,
{
}

/// What reading up to a line feed gives: the bytes up to and with the first one, or all of them
/// where there is none.
pub open spec fn first_line(input: Seq<u8>) -> Seq<u8>
    decreases input.len(),
{
    if input.len() == 0 {
        Seq::empty()
    } else if input[0] == 10 {
        seq![input[0]]
    } else {
        seq![input[0]] + first_line(input.drop_first())
    }
}

/// What is left after the first line.
pub open spec fn after_first_line(input: Seq<u8>) -> Seq<u8> {
    input.skip(first_line(input).len() as int)
}

/// The first line is the start of the input, up to a line feed or to the end.
pub proof fn lemma_first_line(input: Seq<u8>)
    requires
        input.len() > 0,
    ensures
        0 < first_line(input).len() <= input.len(),
        first_line(input) == input.take(first_line(input).len() as int),
        first_line(input).last() == 10 || first_line(input).len() == input.len(),
    decreases input.len(),
{
    let rest = input.drop_first();
    if input[0] != 10 && rest.len() > 0 {
        lemma_first_line(rest);
        let n = first_line(input).len() as int;
        assert(first_line(input) =~= input.take(n)) by {
            assert forall|i: int| 0 <= i < n implies first_line(input)[i] == input[i] by {
                if i > 0 {
                    assert(first_line(rest)[i - 1] == rest.take(n - 1)[i - 1]);
                }
            }
        }
    } else {
        reveal_with_fuel(first_line, 2);
        assert(first_line(input) =~= input.take(1));
    }
}

proof fn lemma_first_line_feed(input: Seq<u8>)
    requires
        input.len() > 0,
    ensures
        first_line(input).last() != 10 ==> one_line_bytes(first_line(input)),
    decreases input.len(),
{
    let rest = input.drop_first();
    reveal_with_fuel(first_line, 2);
    if input[0] != 10 && rest.len() > 0 {
        lemma_first_line(rest);
        lemma_first_line_feed(rest);
        assert(first_line(input).last() == first_line(rest).last());
        assert(first_line(input) == seq![input[0]] + first_line(rest));
    }
}

/// The lines of an input, each with its line feed; the last may have none.
pub open spec fn lines(input: Seq<u8>) -> Seq<Seq<u8>>
    decreases input.len(),
{
    if input.len() == 0 {
        Seq::empty()
    } else {
        proof {
            lemma_first_line(input);
        }
        seq![first_line(input)] + lines(after_first_line(input))
    }
}

/// Whether bytes that were read as a line end in a line feed, or are none.
pub open spec fn terminated(line: Seq<u8>) -> bool {
    line.len() > 0 ==> line.last() == 10
}

/// All lines of an input but the last end in a line feed, and the last does exactly if the input
/// does.
pub proof fn lemma_lines_terminated(input: Seq<u8>)
    ensures
        forall|i: int| 0 <= i < lines(input).len() ==> (#[trigger] lines(input)[i]).len() > 0,
        forall|i: int| 0 <= i < lines(input).len() - 1 ==> terminated(#[trigger] lines(input)[i]),
        input.len() > 0 ==> lines(input).len() > 0 && lines(input).last().last() == input.last(),
        (forall|i: int| 0 <= i < lines(input).len() ==> terminated(#[trigger] lines(input)[i]))
            <==> terminated(input),
    decreases input.len(),
{
    if input.len() > 0 {
        let line = first_line(input);
        let rest = after_first_line(input);
        lemma_first_line(input);
        lemma_lines_terminated(rest);
        assert(lines(input) == seq![line] + lines(rest));
        assert(lines(input)[0] == line);
        assert forall|i: int| 0 < i < lines(input).len() implies #[trigger] lines(input)[i]
            == lines(rest)[i - 1] by {}
        if rest.len() > 0 {
            assert(lines(input).last() == lines(rest).last());
            assert(rest.last() == input.last());
        } else {
            assert(line =~= input);
            assert(lines(input).last() == line);
        }
        let n = lines(input).len() - 1;
        assert(lines(input)[n] == lines(input).last());
        if terminated(input) {
            assert forall|i: int| 0 <= i < lines(input).len() implies terminated(
                #[trigger] lines(input)[i],
            ) by {}
        } else {
            assert(!terminated(lines(input)[n]));
        }
    }
}

/// The messages of lines, one line after the other, where `messages` tells those of one line
/// without its line feed.
pub open spec fn all_messages(
    lines: Seq<Seq<u8>>,
    messages: spec_fn(Seq<u8>) -> Seq<RawNotificationOrResponse>,
) -> Seq<RawNotificationOrResponse>
    decreases lines.len(),
{
    if lines.len() == 0 {
        Seq::empty()
    } else {
        messages(lines[0].drop_last()) + all_messages(lines.drop_first(), messages)
    }
}

/// Whether a parser reads every line as the messages that `messages` tells.
pub open spec fn parses_as<P: MessageParser>(
    parser: &P,
    lines: Seq<Seq<u8>>,
    messages: spec_fn(Seq<u8>) -> Seq<RawNotificationOrResponse>,
) -> bool {
    forall|line: &[u8], parsed: Result<MaybeBatch<RawNotificationOrResponse>, std::io::Error>|
        #[trigger] call_ensures(P::parse, (parser, line), parsed) && lines.contains(
            line@.push(10),
        ) ==> (parsed matches Ok(batch) && batch.items() == messages(line@))
}

/// Whether a streamer makes a step, with a line of the input read where the step asks for one.
pub open spec fn driven<R, P: MessageParser>(
    before: StreamerView<R>,
    input: Seq<u8>,
    step: Step<R>,
    after: StreamerView<R>,
    rest: Seq<u8>,
    parser: &P,
) -> bool {
    exists|middle: StreamerView<R>| #[trigger]
        before.steps(step, middle) && (match step {
            Step::Read(_, buf) => {
                &&& rest == after_first_line(input)
                &&& exists|reader: R, line: Vec<u8>|
                    line@ == buf@ + first_line(input) && #[trigger] middle.completes(
                        ReadOutcome::Line(reader, line),
                        parser,
                        after,
                    )
            },
            _ => rest == input && after == middle,
        })
}

/// Whether a streamer goes through these states by making these steps, while what is left of the
/// input goes through `rests`.
pub open spec fn drive<R, P: MessageParser>(
    states: Seq<StreamerView<R>>,
    rests: Seq<Seq<u8>>,
    steps: Seq<Step<R>>,
    parser: &P,
) -> bool {
    &&& states.len() == steps.len() + 1
    &&& rests.len() == steps.len() + 1
    &&& forall|i: int|
        #![trigger steps[i]]
        0 <= i < steps.len() ==> driven(
            states[i],
            rests[i],
            steps[i],
            states[i + 1],
            rests[i + 1],
            parser,
        )
}

/// The message that a step hands out, if it hands out one.
pub open spec fn handed_out<R>(step: Step<R>) -> Seq<RawNotificationOrResponse> {
    match step {
        Step::Item(message) => seq![message],
        _ => Seq::empty(),
    }
}

/// The messages that steps hand out, in order.
pub open spec fn all_handed_out<R>(steps: Seq<Step<R>>) -> Seq<RawNotificationOrResponse>
    decreases steps.len(),
{
    if steps.len() == 0 {
        Seq::empty()
    } else {
        all_handed_out(steps.drop_last()) + handed_out(steps.last())
    }
}

impl<R> StreamerView<R> {
    /// Whether this is a streamer at the start of a line, or at the end of the input.
    spec fn at_line(self, input: Seq<u8>) -> bool {
        &&& self.err is None
        &&& self.reader is Some ==> self.buf.len() == 0
        &&& self.reader is None ==> self.queue.len() == 0 && input.len() == 0
    }

    /// The messages that are still to come.
    spec fn to_come(
        self,
        input: Seq<u8>,
        messages: spec_fn(Seq<u8>) -> Seq<RawNotificationOrResponse>,
    ) -> Seq<RawNotificationOrResponse> {
        self.queue + all_messages(lines(input), messages)
    }

    /// How many steps are still to come before the end.
    spec fn steps_to_come(
        self,
        input: Seq<u8>,
        messages: spec_fn(Seq<u8>) -> Seq<RawNotificationOrResponse>,
    ) -> nat {
        self.to_come(input, messages).len() + lines(input).len() + (if self.reader is Some {
            1nat
        } else {
            0nat
        })
    }
}

proof fn lemma_driven<R, P: MessageParser>(
    before: StreamerView<R>,
    input: Seq<u8>,
    step: Step<R>,
    after: StreamerView<R>,
    rest: Seq<u8>,
    parser: &P,
    messages: spec_fn(Seq<u8>) -> Seq<RawNotificationOrResponse>,
)
    requires
        before.at_line(input),
        terminated(input),
        parses_as(parser, lines(input), messages),
        driven(before, input, step, after, rest, parser),
    ensures
        after.at_line(rest),
        terminated(rest),
        parses_as(parser, lines(rest), messages),
        handed_out(step) + after.to_come(rest, messages) == before.to_come(input, messages),
        step is End <==> before.steps_to_come(input, messages) == 0,
        after.steps_to_come(rest, messages) == if step is End {
            0
        } else {
            before.steps_to_come(input, messages) - 1
        },
        !(step is Failed),
{
    let middle = choose|middle: StreamerView<R>| #[trigger]
        before.steps(step, middle) && (match step {
            Step::Read(_, buf) => {
                &&& rest == after_first_line(input)
                &&& exists|reader: R, line: Vec<u8>|
                    line@ == buf@ + first_line(input) && #[trigger] middle.completes(
                        ReadOutcome::Line(reader, line),
                        parser,
                        after,
                    )
            },
            _ => rest == input && after == middle,
        });
    if before.queue.len() > 0 {
        assert(handed_out(step) + after.to_come(rest, messages) =~= before.to_come(input, messages));
    } else if before.reader is Some {
        let buf = step->Read_1;
        let (reader, line) = choose|reader: R, line: Vec<u8>|
            line@ == buf@ + first_line(input) && #[trigger] middle.completes(
                ReadOutcome::Line(reader, line),
                parser,
                after,
            );
        assert(line@ =~= first_line(input));
        if input.len() == 0 {
            assert(rest =~= input);
        } else {
            lemma_first_line(input);
            lemma_lines_terminated(input);
            assert(lines(input) == seq![line@] + lines(rest));
            assert(lines(input)[0] == line@);
            assert(terminated(lines(input)[0]));
            assert(lines(input).drop_first() =~= lines(rest));
            assert(rest.len() > 0 ==> rest.last() == input.last());
            let (text, parsed) = choose|
                text: &[u8],
                parsed: Result<MaybeBatch<RawNotificationOrResponse>, std::io::Error>,
            |
                {
                    &&& text@ == line@.drop_last()
                    &&& #[trigger] call_ensures(P::parse, (parser, text), parsed)
                    &&& after == (StreamerView {
                        buf: text@,
                        reader: if parsed is Ok {
                            Some(reader)
                        } else {
                            middle.reader
                        },
                        ..middle
                    }).parsed(parsed)
                };
            assert(text@.push(10) =~= line@);
            assert(lines(input).contains(text@.push(10)));
            assert(after.queue =~= messages(line@.drop_last()));
            assert forall|l: Seq<u8>| #[trigger] lines(rest).contains(l) implies lines(
                input,
            ).contains(l) by {
                let i = choose|i: int| 0 <= i < lines(rest).len() && lines(rest)[i] == l;
                assert(lines(input)[i + 1] == l);
            }
            assert(handed_out(step) + after.to_come(rest, messages) =~= before.to_come(
                input,
                messages,
            ));
        }
    }
}

proof fn lemma_drive<R, P: MessageParser>(
    states: Seq<StreamerView<R>>,
    rests: Seq<Seq<u8>>,
    steps: Seq<Step<R>>,
    parser: &P,
    messages: spec_fn(Seq<u8>) -> Seq<RawNotificationOrResponse>,
    n: int,
)
    requires
        drive(states, rests, steps, parser),
        states[0].at_line(rests[0]),
        terminated(rests[0]),
        parses_as(parser, lines(rests[0]), messages),
        0 <= n <= steps.len(),
    ensures
        states[n].at_line(rests[n]),
        terminated(rests[n]),
        parses_as(parser, lines(rests[n]), messages),
        all_handed_out(steps.take(n)) + states[n].to_come(rests[n], messages) == states[0].to_come(
            rests[0],
            messages,
        ),
        states[n].steps_to_come(rests[n], messages) == if n <= states[0].steps_to_come(
            rests[0],
            messages,
        ) {
            states[0].steps_to_come(rests[0], messages) - n
        } else {
            0
        },
    decreases n,
{
    if n == 0 {
        assert(all_handed_out(steps.take(0)) + states[0].to_come(rests[0], messages)
            =~= states[0].to_come(rests[0], messages));
    } else {
        let i = n - 1;
        lemma_drive(states, rests, steps, parser, messages, i);
        assert(driven(states[i], rests[i], steps[i], states[i + 1], rests[i + 1], parser));
        lemma_driven(states[i], rests[i], steps[i], states[n], rests[n], parser, messages);
        assert(steps.take(n).drop_last() =~= steps.take(i));
        assert(steps.take(n).last() == steps[i]);
        assert(all_handed_out(steps.take(n)) + states[n].to_come(rests[n], messages)
            =~= all_handed_out(steps.take(i)) + (handed_out(steps[i]) + states[n].to_come(
            rests[n],
            messages,
        )));
    }
}

/// Over an input that ends in a line feed, or is empty, and whose lines can all be parsed, a new
/// streamer hands out the messages of all lines, in their order and each once, and then nothing. It
/// asks for each line once and once more at the end, and it hands out no error.
pub proof fn lemma_stream_is_handed_out<R, P: MessageParser>(
    reader: R,
    input: Seq<u8>,
    parser: &P,
    messages: spec_fn(Seq<u8>) -> Seq<RawNotificationOrResponse>,
    states: Seq<StreamerView<R>>,
    rests: Seq<Seq<u8>>,
    steps: Seq<Step<R>>,
)
    requires
        terminated(input),
        parses_as(parser, lines(input), messages),
        drive(states, rests, steps, parser),
        rests[0] == input,
        states[0] == (StreamerView {
            reader: Some(reader),
            buf: Seq::empty(),
            queue: Seq::empty(),
            err: None,
        }),
    ensures
        all_handed_out(steps).is_prefix_of(all_messages(lines(input), messages)),
        steps.len() > all_messages(lines(input), messages).len() + lines(input).len()
            ==> all_handed_out(steps) == all_messages(lines(input), messages),
        forall|i: int|
            0 <= i < steps.len() ==> {
                &&& !(#[trigger] steps[i] is Failed)
                &&& steps[i] is End <==> i > all_messages(lines(input), messages).len() + lines(
                    input,
                ).len()
            },
{
    let all = all_messages(lines(input), messages);
    let n = steps.len() as int;
    assert(states[0].to_come(input, messages) =~= all);
    lemma_drive(states, rests, steps, parser, messages, n);
    assert(steps.take(n) =~= steps);
    assert(all =~= all_handed_out(steps) + states[n].to_come(rests[n], messages));
    if n > all.len() + lines(input).len() {
        assert(states[n].to_come(rests[n], messages).len() == 0);
        assert(all_handed_out(steps) =~= all);
    }
    assert forall|i: int| 0 <= i < steps.len() implies {
        &&& !(#[trigger] steps[i] is Failed)
        &&& steps[i] is End <==> i > all.len() + lines(input).len()
    } by {
        lemma_drive(states, rests, steps, parser, messages, i);
        assert(driven(states[i], rests[i], steps[i], states[i + 1], rests[i + 1], parser));
        lemma_driven(states[i], rests[i], steps[i], states[i + 1], rests[i + 1], parser, messages);
    }
}

/// Over an input that ends in a line feed, or is empty, every line that is read can be taken by
/// [`ReadStreamer::complete_read`].
pub proof fn lemma_terminated_input_is_taken<R, P: MessageParser>(
    reader: R,
    input: Seq<u8>,
    parser: &P,
    messages: spec_fn(Seq<u8>) -> Seq<RawNotificationOrResponse>,
    states: Seq<StreamerView<R>>,
    rests: Seq<Seq<u8>>,
    steps: Seq<Step<R>>,
    i: int,
)
    requires
        terminated(input),
        parses_as(parser, lines(input), messages),
        drive(states, rests, steps, parser),
        rests[0] == input,
        states[0] == (StreamerView {
            reader: Some(reader),
            buf: Seq::empty(),
            queue: Seq::empty(),
            err: None,
        }),
        0 <= i < steps.len(),
        steps[i] is Read,
    ensures
        terminated(steps[i]->Read_1@ + first_line(rests[i])),
{
    lemma_drive(states, rests, steps, parser, messages, i);
    assert(driven(states[i], rests[i], steps[i], states[i + 1], rests[i + 1], parser));
    lemma_first_line_terminated(states[i], rests[i], steps[i]);
}

proof fn lemma_first_line_terminated<R>(before: StreamerView<R>, input: Seq<u8>, step: Step<R>)
    requires
        before.at_line(input),
        terminated(input),
        step is Read,
        exists|after: StreamerView<R>| before.steps(step, after),
    ensures
        terminated(step->Read_1@ + first_line(input)),
{
    let line = step->Read_1@ + first_line(input);
    assert(line =~= first_line(input));
    if input.len() > 0 {
        lemma_first_line(input);
    }
}

/// An input that does not end in a line feed is a part that does, or is empty, and the bytes of an
/// unfinished line after it.
pub proof fn lemma_unfinished_line(input: Seq<u8>) -> (parts: (Seq<u8>, Seq<u8>))
    requires
        !terminated(input),
    ensures
        input == parts.0 + parts.1,
        terminated(parts.0),
        parts.1.len() > 0,
        one_line_bytes(parts.1),
    decreases input.len(),
{
    let line = first_line(input);
    let rest = after_first_line(input);
    lemma_first_line(input);
    if rest.len() == 0 {
        assert(line =~= input);
        lemma_first_line_feed(input);
        assert(Seq::<u8>::empty() + input =~= input);
        (Seq::empty(), input)
    } else {
        assert(line + rest =~= input);
        let (head, tail) = lemma_unfinished_line(rest);
        assert((line + head) + tail =~= line + (head + tail));
        (line + head, tail)
    }
}

proof fn lemma_first_line_of_more(head: Seq<u8>, tail: Seq<u8>)
    requires
        head.len() > 0,
        terminated(head),
    ensures
        first_line(head + tail) == first_line(head),
        after_first_line(head + tail) == after_first_line(head) + tail,
        terminated(after_first_line(head)),
    decreases head.len(),
{
    let both = head + tail;
    assert(both[0] == head[0]);
    assert(both.drop_first() =~= head.drop_first() + tail);
    if head[0] != 10 {
        lemma_first_line_of_more(head.drop_first(), tail);
    }
    lemma_first_line(head);
    assert(after_first_line(both) =~= after_first_line(head) + tail);
}

proof fn lemma_drive_with_tail<R, P: MessageParser>(
    head: Seq<u8>,
    tail: Seq<u8>,
    states: Seq<StreamerView<R>>,
    rests: Seq<Seq<u8>>,
    steps: Seq<Step<R>>,
    parser: &P,
    messages: spec_fn(Seq<u8>) -> Seq<RawNotificationOrResponse>,
    n: int,
) -> (left: Seq<u8>)
    requires
        drive(states, rests, steps, parser),
        rests[0] == head + tail,
        states[0].at_line(head),
        terminated(head),
        parses_as(parser, lines(head), messages),
        0 <= n <= steps.len(),
        n < states[0].steps_to_come(head, messages),
    ensures
        rests[n] == left + tail,
        states[n].at_line(left),
        terminated(left),
        parses_as(parser, lines(left), messages),
        states[n].steps_to_come(left, messages) == states[0].steps_to_come(head, messages) - n,
        forall|i: int|
            0 <= i < n && (#[trigger] steps[i] is Read) ==> terminated(
                steps[i]->Read_1@ + first_line(rests[i]),
            ),
    decreases n,
{
    if n == 0 {
        head
    } else {
        let i = n - 1;
        let left = lemma_drive_with_tail(
            head,
            tail,
            states,
            rests,
            steps,
            parser,
            messages,
            i,
        );
        let before = states[i];
        assert(driven(before, rests[i], steps[i], states[i + 1], rests[i + 1], parser));
        if before.queue.len() > 0 {
            assert(driven(before, left, steps[i], states[n], left, parser));
            lemma_driven(before, left, steps[i], states[n], left, parser, messages);
            left
        } else {
            assert(left.len() > 0) by {
                if left.len() == 0 {
                    assert(before.to_come(left, messages).len() == 0);
                }
            }
            lemma_first_line_of_more(left, tail);
            let after = after_first_line(left);
            assert(driven(before, left, steps[i], states[n], after, parser));
            lemma_driven(before, left, steps[i], states[n], after, parser, messages);
            lemma_first_line_terminated(before, left, steps[i]);
            after
        }
    }
}

/// Over an input that does not end in a line feed and whose finished lines can all be parsed, all
/// lines are taken but the unfinished one, which is asked for after all other messages are handed
/// out and cannot be taken by [`ReadStreamer::complete_read`].
pub proof fn lemma_unfinished_line_is_not_taken<R, P: MessageParser>(
    reader: R,
    head: Seq<u8>,
    tail: Seq<u8>,
    parser: &P,
    messages: spec_fn(Seq<u8>) -> Seq<RawNotificationOrResponse>,
    states: Seq<StreamerView<R>>,
    rests: Seq<Seq<u8>>,
    steps: Seq<Step<R>>,
    n: int,
)
    requires
        terminated(head),
        tail.len() > 0,
        one_line_bytes(tail),
        parses_as(parser, lines(head), messages),
        drive(states, rests, steps, parser),
        rests[0] == head + tail,
        states[0] == (StreamerView {
            reader: Some(reader),
            buf: Seq::empty(),
            queue: Seq::empty(),
            err: None,
        }),
        n == all_messages(lines(head), messages).len() + lines(head).len(),
        n < steps.len(),
    ensures
        steps[n] is Read,
        !terminated(steps[n]->Read_1@ + first_line(rests[n])),
        forall|i: int|
            0 <= i < n && (#[trigger] steps[i] is Read) ==> terminated(
                steps[i]->Read_1@ + first_line(rests[i]),
            ),
{
    assert(states[0].to_come(head, messages) =~= all_messages(lines(head), messages));
    let left = lemma_drive_with_tail(
        head,
        tail,
        states,
        rests,
        steps,
        parser,
        messages,
        n,
    );
    assert(left.len() == 0) by {
        if left.len() > 0 {
            assert(lines(left).len() > 0);
        }
    }
    assert(rests[n] =~= tail);
    lemma_first_line(tail);
    assert(first_line(tail).len() == tail.len()) by {
        let k = first_line(tail).len() - 1;
        assert(first_line(tail)[k] == tail[k]);
    }
    assert(driven(states[n], rests[n], steps[n], states[n + 1], rests[n + 1], parser));
    assert(steps[n]->Read_1@ + first_line(rests[n]) =~= tail);
}

} // verus!
