//! What a child process reports: its output, line by line, errors, and its
//! end. Both output streams are read independently and feed one queue of
//! events; a line that cannot be decoded becomes an error event, it is
//! neither dropped nor fatal.

use vstd::prelude::*;
use vstd::utf8::{decode_utf8, valid_utf8};
use crate::text::{chars_of, push_all};
use crate::text::string_of;

verus! {

/// How a process ended.
#[derive(Clone, Copy, Debug, PartialEq, Eq, Structural)]
pub struct TerminatedPayload {
    /// Exit code of the process.
    pub code: Option<i32>,
    /// The signal that terminated the process, if one did.
    pub signal: Option<i32>,
}

/// An event sent by a running child.
#[derive(Debug, PartialEq)]
pub enum CommandEvent {
    /// A line of the standard error stream.
    Stderr(String),
    /// A line of the standard output stream.
    Stdout(String),
    /// Waiting for the process failed, or a line was no valid text.
    Error(String),
    /// The process terminated.
    Terminated(TerminatedPayload),
}

/// The stream a line was read from.
#[derive(Clone, Copy, Debug, PartialEq, Eq, Structural)]
pub enum Stream {
    Stdout,
    Stderr,
}

/// How much an event of the server matters in the log.
#[derive(Clone, Copy, Debug, PartialEq, Eq, Structural)]
pub enum LogLevel {
    Error,
    Warn,
    Info,
}

/// The level at which `event` is logged: the standard output as
/// information, the standard error and errors as errors, the termination
/// as a warning.
pub fn log_level(event: &CommandEvent) -> (r: LogLevel)
    ensures
        r == match event {
            CommandEvent::Stdout(_) => LogLevel::Info,
            CommandEvent::Stderr(_) => LogLevel::Error,
            CommandEvent::Error(_) => LogLevel::Error,
            CommandEvent::Terminated(_) => LogLevel::Warn,
        },
{
    match event {
        CommandEvent::Stdout(_) => LogLevel::Info,
        CommandEvent::Stderr(_) => LogLevel::Error,
        CommandEvent::Error(_) => LogLevel::Error,
        CommandEvent::Terminated(_) => LogLevel::Warn,
    }
}

/// The status of a process that has terminated.
#[derive(Clone, Copy, Debug, PartialEq, Eq, Structural)]
pub struct ExitStatus {
    code: Option<i32>,
}

impl View for ExitStatus {
    type V = Option<i32>;

    closed spec fn view(&self) -> Option<i32> {
        self.code
    }
}

impl ExitStatus {
    /// The status of a process that ended with `code`.
    pub fn new(code: Option<i32>) -> (r: ExitStatus)
        ensures
            r@ == code,
    {
        ExitStatus { code }
    }

    /// The exit code of the process, if it has one.
    pub fn code(&self) -> (r: Option<i32>)
        ensures
            r == self@,
    {
        self.code
    }

    /// Whether the process succeeded: its exit code is zero. A process
    /// terminated by a signal did not succeed.
    pub fn success(&self) -> (r: bool)
        ensures
            r == (self@ == Some(0i32)),
    {
        match self.code {
            Some(c) => c == 0,
            None => false,
        }
    }
}

/// The output of a process that has finished.
#[derive(Debug)]
pub struct Output {
    /// The status of the process.
    pub status: ExitStatus,
    /// What the process wrote to its standard output.
    pub stdout: String,
    /// What the process wrote to its standard error.
    pub stderr: String,
}

/// The exit code that the events `events` report: that of the last
/// termination among them.
pub open spec fn reported_code(events: Seq<CommandEvent>) -> Option<i32>
    decreases events.len(),
{
    if events.len() == 0 {
        None
    } else {
        match events.last() {
            CommandEvent::Terminated(payload) => payload.code,
            _ => reported_code(events.drop_last()),
        }
    }
}

/// The text of the stream `stream` in the events `events`: its lines in
/// order, each followed by a line feed.
pub open spec fn stream_text(events: Seq<CommandEvent>, stream: Stream) -> Seq<char>
    decreases events.len(),
{
    if events.len() == 0 {
        Seq::empty()
    } else {
        let before = stream_text(events.drop_last(), stream);
        match (events.last(), stream) {
            (CommandEvent::Stdout(line), Stream::Stdout) => before + line@ + seq!['\n'],
            (CommandEvent::Stderr(line), Stream::Stderr) => before + line@ + seq!['\n'],
            _ => before,
        }
    }
}

impl Output {
    /// Collects what the events of a finished process report: its status
    /// and the text of both streams. Error events are passed over.
    pub fn collect(events: &Vec<CommandEvent>) -> (r: Output)
        ensures
            r.status@ == reported_code(events@),
            r.stdout@ == stream_text(events@, Stream::Stdout),
            r.stderr@ == stream_text(events@, Stream::Stderr),
    {
        let mut code: Option<i32> = None;
        let mut stdout: Vec<char> = Vec::new();
        let mut stderr: Vec<char> = Vec::new();
        let mut i: usize = 0;
        assert(events@.take(0) =~= Seq::empty());
        while i < events.len()
            invariant
                i <= events.len(),
                code == reported_code(events@.take(i as int)),
                stdout@ == stream_text(events@.take(i as int), Stream::Stdout),
                stderr@ == stream_text(events@.take(i as int), Stream::Stderr),
            decreases events.len() - i,
        {
            assert(events@.take(i + 1).drop_last() == events@.take(i as int));
            assert(events@.take(i + 1).last() == events@[i as int]);
            match &events[i] {
                CommandEvent::Terminated(payload) => {
                    code = payload.code;
                },
                CommandEvent::Stdout(line) => {
                    push_all(&mut stdout, &chars_of(line.as_str()));
                    stdout.push('\n');
                    assert(stdout@ =~= stream_text(events@.take(i + 1), Stream::Stdout));
                },
                CommandEvent::Stderr(line) => {
                    push_all(&mut stderr, &chars_of(line.as_str()));
                    stderr.push('\n');
                    assert(stderr@ =~= stream_text(events@.take(i + 1), Stream::Stderr));
                },
                CommandEvent::Error(_) => {},
            }
            i += 1;
        }
        assert(events@.take(events.len() as int) == events@);
        Output { status: ExitStatus { code }, stdout: string_of(&stdout), stderr: string_of(&stderr) }
    }
}

impl ExitStatus {
    /// The status that the events of a finished process report.
    pub fn of_events(events: &Vec<CommandEvent>) -> (r: ExitStatus)
        ensures
            r@ == reported_code(events@),
    {
        let mut code: Option<i32> = None;
        let mut i: usize = 0;
        assert(events@.take(0) =~= Seq::empty());
        while i < events.len()
            invariant
                i <= events.len(),
                code == reported_code(events@.take(i as int)),
            decreases events.len() - i,
        {
            assert(events@.take(i + 1).drop_last() == events@.take(i as int));
            match &events[i] {
                CommandEvent::Terminated(payload) => {
                    code = payload.code;
                },
                _ => {},
            }
            i += 1;
        }
        assert(events@.take(events.len() as int) == events@);
        ExitStatus { code }
    }
}

/// Whether the byte `b` ends a line: a line feed or a carriage return.
pub open spec fn is_line_end(b: u8) -> bool {
    b == 10 || b == 13
}

/// The position of the first byte of `bytes` that ends a line, or the
/// length of `bytes`.
pub open spec fn first_line_end(bytes: Seq<u8>) -> int
    decreases bytes.len(),
{
    if bytes.len() == 0 || is_line_end(bytes[0]) {
        0
    } else {
        1 + first_line_end(bytes.drop_first())
    }
}

/// Whether the end of the line that ends at `end` is known in full: a
/// carriage return that is the last byte is not, for a line feed that
/// follows it would belong to the same end.
pub open spec fn is_settled(bytes: Seq<u8>, end: int) -> bool {
    !(bytes[end] == 13 && end + 1 == bytes.len())
}

/// How many bytes end the line that ends at `end`: two where a carriage
/// return is followed by a line feed, else one.
pub open spec fn line_end_width(bytes: Seq<u8>, end: int) -> int {
    if bytes[end] == 13 && end + 1 < bytes.len() && bytes[end + 1] == 10 {
        2
    } else {
        1
    }
}

/// The lines that `bytes` hold in full. A line ends before a line feed, a
/// carriage return, or a carriage return followed by a line feed; what
/// ends it belongs to no line.
pub open spec fn complete_lines(bytes: Seq<u8>) -> Seq<Seq<u8>>
    decreases bytes.len(),
{
    let end = first_line_end(bytes);
    if 0 <= end < bytes.len() && is_settled(bytes, end) {
        seq![bytes.take(end)] + complete_lines(bytes.skip(end + line_end_width(bytes, end)))
    } else {
        Seq::empty()
    }
}

/// What `bytes` hold after their last complete line: the beginning of a
/// line whose end has not been read in full yet.
pub open spec fn unfinished_line(bytes: Seq<u8>) -> Seq<u8>
    decreases bytes.len(),
{
    let end = first_line_end(bytes);
    if 0 <= end < bytes.len() && is_settled(bytes, end) {
        unfinished_line(bytes.skip(end + line_end_width(bytes, end)))
    } else {
        bytes
    }
}

/// The line that a stream ends with, where `bytes` is what it held after
/// its last complete line: nothing where that is empty, else those bytes,
/// without the carriage return that ends them if one does.
pub open spec fn last_line(bytes: Seq<u8>) -> Option<Seq<u8>> {
    if bytes.len() == 0 {
        None
    } else if bytes.last() == 13 {
        Some(bytes.drop_last())
    } else {
        Some(bytes)
    }
}

/// The lines that the vectors `lines` hold.
pub open spec fn line_bytes(lines: Seq<Vec<u8>>) -> Seq<Seq<u8>> {
    Seq::new(lines.len(), |i: int| lines[i]@)
}

/// The first end of a line is within bounds, it is an end, and no byte
/// before it is.
pub proof fn lemma_first_line_end(bytes: Seq<u8>)
    ensures
        0 <= first_line_end(bytes) <= bytes.len(),
        first_line_end(bytes) < bytes.len() ==> is_line_end(bytes[first_line_end(bytes)]),
        forall|j: int| 0 <= j < first_line_end(bytes) ==> !is_line_end(bytes[j]),
    decreases bytes.len(),
{
    if bytes.len() > 0 && !is_line_end(bytes[0]) {
        lemma_first_line_end(bytes.drop_first());
        assert forall|j: int| 0 <= j < first_line_end(bytes) implies !is_line_end(bytes[j]) by {
            if j > 0 {
                assert(bytes[j] == bytes.drop_first()[j - 1]);
            }
        }
    }
}

/// The first end of a line in `bytes` is at `at`, if no byte before `at`
/// ends a line and the one at `at` does, or `at` is the length.
pub proof fn lemma_first_line_end_is(bytes: Seq<u8>, at: int)
    requires
        0 <= at <= bytes.len(),
        forall|j: int| 0 <= j < at ==> !is_line_end(#[trigger] bytes[j]),
        at < bytes.len() ==> is_line_end(bytes[at]),
    ensures
        first_line_end(bytes) == at,
    decreases bytes.len(),
{
    if at > 0 {
        assert(!is_line_end(bytes[0]));
        assert forall|j: int| 0 <= j < at - 1 implies !is_line_end(
            #[trigger] bytes.drop_first()[j],
        ) by {
            assert(bytes.drop_first()[j] == bytes[j + 1]);
        }
        lemma_first_line_end_is(bytes.drop_first(), at - 1);
    }
}

/// Bytes that arrive in two parts hold the lines that they hold as a
/// whole: where the stream happens to be cut does not matter, not even
/// between a carriage return and its line feed.
pub proof fn lemma_lines_of_parts(first: Seq<u8>, second: Seq<u8>)
    ensures
        complete_lines(first + second) == complete_lines(first) + complete_lines(
            unfinished_line(first) + second,
        ),
        unfinished_line(first + second) == unfinished_line(unfinished_line(first) + second),
    decreases first.len(),
{
    lemma_first_line_end(first);
    let end = first_line_end(first);
    if end < first.len() && is_settled(first, end) {
        let whole = first + second;
        let width = line_end_width(first, end);
        assert forall|j: int| 0 <= j < end implies !is_line_end(#[trigger] whole[j]) by {
            assert(whole[j] == first[j]);
        }
        assert(whole[end] == first[end]);
        if first[end] == 13 {
            assert(whole[end + 1] == first[end + 1]);
        }
        lemma_first_line_end_is(whole, end);
        assert(is_settled(whole, end));
        assert(line_end_width(whole, end) == width);
        assert(whole.take(end) == first.take(end));
        assert(whole.skip(end + width) == first.skip(end + width) + second);
        lemma_lines_of_parts(first.skip(end + width), second);
        assert(complete_lines(whole) == seq![first.take(end)] + (complete_lines(
            first.skip(end + width),
        ) + complete_lines(unfinished_line(first.skip(end + width)) + second)));
        assert(seq![first.take(end)] + (complete_lines(first.skip(end + width)) + complete_lines(
            unfinished_line(first.skip(end + width)) + second,
        )) =~= (seq![first.take(end)] + complete_lines(first.skip(end + width))) + complete_lines(
            unfinished_line(first.skip(end + width)) + second,
        ));
    } else {
        assert(complete_lines(first) =~= Seq::<Seq<u8>>::empty());
        assert(complete_lines(first) + complete_lines(first + second) =~= complete_lines(
            first + second,
        ));
    }
}

/// The bytes of an output stream that were read and belong to a line whose
/// end has not been read in full yet.
#[derive(Debug)]
pub struct LineBuffer {
    pending: Vec<u8>,
}

impl View for LineBuffer {
    type V = Seq<u8>;

    closed spec fn view(&self) -> Seq<u8> {
        self.pending@
    }
}

impl LineBuffer {
    /// A buffer that holds nothing.
    pub fn new() -> (r: LineBuffer)
        ensures
            r@ == Seq::<u8>::empty(),
    {
        LineBuffer { pending: Vec::new() }
    }

    /// Takes the bytes `chunk` read from the stream and hands back the
    /// lines that are complete now; what follows the last of them is kept
    /// for the next time.
    pub fn feed(&mut self, chunk: &Vec<u8>) -> (lines: Vec<Vec<u8>>)
        ensures
            line_bytes(lines@) == complete_lines(old(self)@ + chunk@),
            final(self)@ == unfinished_line(old(self)@ + chunk@),
    {
        let ghost all = self.pending@ + chunk@;
        let mut i: usize = 0;
        while i < chunk.len()
            invariant
                i <= chunk.len(),
                self.pending@ == old(self)@ + chunk@.take(i as int),
            decreases chunk.len() - i,
        {
            self.pending.push(chunk[i]);
            i += 1;
            assert(self.pending@ =~= old(self)@ + chunk@.take(i as int));
        }
        assert(chunk@.take(chunk.len() as int) == chunk@);
        let mut lines: Vec<Vec<u8>> = Vec::new();
        let mut line: Vec<u8> = Vec::new();
        let mut start: usize = 0;
        let mut at: usize = 0;
        let mut held = false;
        assert(all.skip(0) == all);
        assert(line_bytes(lines@) + complete_lines(all) =~= complete_lines(all));
        while at < self.pending.len()
            invariant
                start <= at <= self.pending.len(),
                self.pending@ == all,
                line@ == all.subrange(start as int, at as int),
                !held ==> forall|j: int| start <= j < at ==> !is_line_end(all[j]),
                held ==> at == all.len() && start < at && all[at - 1] == 13 && forall|j: int|
                    start <= j < at - 1 ==> !is_line_end(all[j]),
                line_bytes(lines@) + complete_lines(all.skip(start as int)) == complete_lines(all),
                unfinished_line(all.skip(start as int)) == unfinished_line(all),
            decreases self.pending.len() - at,
        {
            let b = self.pending[at];
            if b == 13 && at + 1 == self.pending.len() {
                line.push(b);
                at += 1;
                held = true;
                assert(line@ =~= all.subrange(start as int, at as int));
            } else if b == 10 || b == 13 {
                let width: usize = if b == 13 && self.pending[at + 1] == 10 {
                    2
                } else {
                    1
                };
                let ghost rest = all.skip(start as int);
                proof {
                    assert forall|j: int| 0 <= j < at - start implies !is_line_end(
                        #[trigger] rest[j],
                    ) by {
                        assert(rest[j] == all[start + j]);
                    }
                    assert(rest[at - start] == all[at as int]);
                    if b == 13 {
                        assert(rest[at - start + 1] == all[at + 1]);
                    }
                    lemma_first_line_end_is(rest, at - start);
                    assert(is_settled(rest, at - start));
                    assert(line_end_width(rest, at - start) == width);
                    assert(rest.take(at - start) == line@);
                    assert(rest.skip(at - start + width) == all.skip(at + width));
                }
                let ghost before = line_bytes(lines@);
                lines.push(line);
                assert(line_bytes(lines@) =~= before.push(rest.take(at - start)));
                assert(line_bytes(lines@) + complete_lines(all.skip(at + width)) =~= before
                    + complete_lines(rest));
                line = Vec::new();
                start = at + width;
                at += width;
                assert(line@ =~= all.subrange(start as int, at as int));
            } else {
                line.push(b);
                at += 1;
                assert(line@ =~= all.subrange(start as int, at as int));
            }
        }
        proof {
            let rest = all.skip(start as int);
            assert(line@ =~= rest);
            if held {
                assert forall|j: int| 0 <= j < rest.len() - 1 implies !is_line_end(
                    #[trigger] rest[j],
                ) by {
                    assert(rest[j] == all[start + j]);
                }
                assert(rest[rest.len() - 1] == all[at - 1]);
                lemma_first_line_end_is(rest, rest.len() - 1);
                assert(!is_settled(rest, rest.len() - 1));
            } else {
                assert forall|j: int| 0 <= j < rest.len() implies !is_line_end(
                    #[trigger] rest[j],
                ) by {
                    assert(rest[j] == all[start + j]);
                }
                lemma_first_line_end_is(rest, rest.len() as int);
            }
            assert(complete_lines(rest) =~= Seq::<Seq<u8>>::empty());
            assert(line_bytes(lines@) + Seq::<Seq<u8>>::empty() =~= line_bytes(lines@));
        }
        self.pending = line;
        lines
    }

    /// The line that the stream ended with after its last complete line,
    /// if it held anything there: the end of the stream ends that line, and
    /// so does a carriage return before it.
    pub fn finish(self) -> (r: Option<Vec<u8>>)
        ensures
            match r {
                Some(line) => last_line(self@) == Some(line@),
                None => last_line(self@) is None,
            },
    {
        let mut pending = self.pending;
        let n = pending.len();
        if n == 0 {
            None
        } else {
            if pending[n - 1] == 13 {
                pending.pop();
            }
            Some(pending)
        }
    }
}

/// The error of a byte sequence that is no UTF-8.
#[verifier::external_type_specification]
#[verifier::external_body]
pub struct ExFromUtf8Error(std::string::FromUtf8Error);

/// `String::from_utf8` turns bytes into a string if and only if they are
/// valid UTF-8, and the string then holds the characters they encode.
pub assume_specification[ String::from_utf8 ](vec: Vec<u8>) -> (r: Result<
    String,
    std::string::FromUtf8Error,
>)
    ensures
        r is Ok <==> valid_utf8(vec@),
        r matches Ok(s) ==> s@ == decode_utf8(vec@),
;

/// The longest line that is decoded with a named encoding, in bytes.
pub const MAX_ENCODED_LINE: usize = 0x1000_0000;

/// The text that the bytes `bytes` stand for in the encoding that the
/// Encoding Standard knows under `label`, a byte order mark removed and
/// malformed sequences replaced; `None` if the standard has no such label.
pub uninterp spec fn decoded_as(label: Seq<char>, bytes: Seq<u8>) -> Option<Seq<char>>;

/// `encoding_rs::Encoding::for_label` finds the encoding that the Encoding
/// Standard knows under `label`, and `Encoding::decode_with_bom_removal`
/// decodes `bytes` with it, replacing what is malformed. Both depend on
/// their arguments alone; the text is given the name `decoded_as`. The
/// decoder panics where the size of its buffer overflows, hence the bound.
#[verifier::external_body]
fn decode_labelled(label: &str, bytes: &Vec<u8>) -> (r: Option<String>)
    requires
        bytes@.len() <= MAX_ENCODED_LINE,
    ensures
        r matches Some(text) ==> decoded_as(label@, bytes@) == Some(text@),
        r is None ==> decoded_as(label@, bytes@) is None,
{
    let encoding = encoding_rs::Encoding::for_label(label.as_bytes())?;
    Some(encoding.decode_with_bom_removal(bytes.as_slice()).0.into_owned())
}

/// The event for the text `text` read from `stream`.
pub fn line_event(stream: Stream, text: String) -> (r: CommandEvent)
    ensures
        r == match stream {
            Stream::Stdout => CommandEvent::Stdout(text),
            Stream::Stderr => CommandEvent::Stderr(text),
        },
{
    match stream {
        Stream::Stdout => CommandEvent::Stdout(text),
        Stream::Stderr => CommandEvent::Stderr(text),
    }
}

/// The event for a line of `stream` whose bytes were decoded to `decoded`
/// with a named encoding: the line, or an error event if the encoding is
/// unknown.
pub fn decoded_event(stream: Stream, decoded: Option<String>) -> (r: CommandEvent)
    ensures
        match decoded {
            Some(text) => r == match stream {
                Stream::Stdout => CommandEvent::Stdout(text),
                Stream::Stderr => CommandEvent::Stderr(text),
            },
            None => r is Error,
        },
{
    match decoded {
        Some(text) => line_event(stream, text),
        None => CommandEvent::Error(String::from_str("unknown character encoding")),
    }
}

/// Turns the bytes of one line read from `stream` into an event. Without
/// an encoding the bytes have to be UTF-8: if they are, the event is the
/// line, and if not, an error event. With the label of an encoding, the
/// bytes are decoded with it and malformed sequences are replaced; a line
/// too long to decode and an unknown label give an error event.
pub fn decode_line(stream: Stream, bytes: Vec<u8>, encoding: Option<&str>) -> (r: CommandEvent)
    ensures
        match encoding {
            None => if valid_utf8(bytes@) {
                match stream {
                    Stream::Stdout => r matches CommandEvent::Stdout(s) && s@ == decode_utf8(bytes@),
                    Stream::Stderr => r matches CommandEvent::Stderr(s) && s@ == decode_utf8(bytes@),
                }
            } else {
                r is Error
            },
            Some(label) => match decoded_as(label@, bytes@) {
                Some(text) if bytes@.len() <= MAX_ENCODED_LINE => match stream {
                    Stream::Stdout => r matches CommandEvent::Stdout(s) && s@ == text,
                    Stream::Stderr => r matches CommandEvent::Stderr(s) && s@ == text,
                },
                _ => r is Error,
            },
        },
{
    match encoding {
        None => match String::from_utf8(bytes) {
            Ok(text) => line_event(stream, text),
            Err(e) => CommandEvent::Error(e.to_string()),
        },
        Some(label) => {
            if bytes.len() > MAX_ENCODED_LINE {
                CommandEvent::Error(String::from_str("line too long to decode"))
            } else {
                decoded_event(stream, decode_labelled(label, &bytes))
            }
        },
    }
}

} // verus!
