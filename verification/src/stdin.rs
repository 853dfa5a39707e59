//! The standard input, shared by the debugger's prompt, which reads lines, and the
//! remote shell, which takes bytes as they come.

use vstd::prelude::*;
use vstd::utf8;

verus! {

/// What the standard error of decoding says of bytes that are not UTF-8, in words.
pub uninterp spec fn utf8_failure(bytes: Seq<u8>) -> Seq<char>;

/// Calls `String::from_utf8`: bytes that are UTF-8 become the text that they encode,
/// and no other bytes become text. What its error says is a matter of the bytes alone.
#[verifier::external_body]
pub(crate) fn text_from_utf8(bytes: Vec<u8>) -> (r: Result<String, String>)
    ensures
        match r {
            Ok(text) => utf8::valid_utf8(bytes@) && text@ == utf8::decode_utf8(bytes@),
            Err(reason) => !utf8::valid_utf8(bytes@) && reason@ == utf8_failure(bytes@),
        },
{
    match String::from_utf8(bytes) {
        Ok(text) => Ok(text),
        Err(error) => Err(error.to_string()),
    }
}

/// What reading a line gives.
pub enum LineRead {
    /// No line is complete: more bytes are needed.
    More,
    /// A line, with the line feed that ends it.
    Line(String),
    /// A line that is not text, and why.
    Invalid(String),
}

/// Where the line that starts at `i` ends: behind its line feed, or nowhere.
pub open spec fn line_end(bytes: Seq<u8>, i: int) -> Option<int>
    decreases bytes.len() - i,
{
    if !(0 <= i < bytes.len()) {
        None
    } else if bytes[i] == 10 {
        Some(i + 1)
    } else {
        line_end(bytes, i + 1)
    }
}

/// What a line's bytes are read as.
pub open spec fn reads_as(line: Seq<u8>, r: LineRead) -> bool {
    if utf8::valid_utf8(line) {
        r matches LineRead::Line(text) && text@ == utf8::decode_utf8(line)
    } else {
        r matches LineRead::Invalid(reason) && reason@ == utf8_failure(line)
    }
}

/// Reads a complete line.
pub fn decode_line(line: Vec<u8>) -> (r: LineRead)
    ensures
        reads_as(line@, r),
{
    match text_from_utf8(line) {
        Ok(text) => LineRead::Line(text),
        Err(reason) => LineRead::Invalid(reason),
    }
}

/// The bytes that were received and that nobody has taken yet.
pub struct StdinStream {
    pub buffer: Vec<u8>,
}

impl StdinStream {
    /// A stream that has received nothing.
    pub fn new() -> (r: StdinStream)
        ensures
            r.buffer@ == Seq::<u8>::empty(),
    {
        StdinStream { buffer: Vec::new() }
    }

    /// Takes what is left over from reading lines, if anything is. If not, the next
    /// chunk is to be taken as it comes.
    pub fn recv_raw(&mut self) -> (r: Option<Vec<u8>>)
        ensures
            old(self).buffer@.len() == 0 ==> r is None,
            old(self).buffer@.len() > 0 ==> r is Some && r->0@ == old(self).buffer@,
            final(self).buffer@ == Seq::<u8>::empty(),
    {
        if self.buffer.len() == 0 {
            return None;
        }
        let mut rest: Vec<u8> = Vec::new();
        std::mem::swap(&mut rest, &mut self.buffer);
        Some(rest)
    }

    /// Receives the next chunk, for a line that is not complete. Without one the line
    /// never will be, which is an error.
    pub fn push(&mut self, chunk: Option<Vec<u8>>) -> (r: Result<(), &'static str>)
        ensures
            match chunk {
                Some(bytes) => r is Ok && final(self).buffer@ == old(self).buffer@ + bytes@,
                None => (r matches Err(reason) && reason@ == "EOF"@) && final(self).buffer@ == old(
                    self,
                ).buffer@,
            },
    {
        match chunk {
            Some(bytes) => {
                let mut bytes = bytes;
                self.buffer.append(&mut bytes);
                Ok(())
            },
            None => Err("EOF"),
        }
    }

    /// Takes the next line, if it is complete.
    pub fn read_line(&mut self) -> (r: LineRead)
        ensures
            match line_end(old(self).buffer@, 0) {
                None => r is More && final(self).buffer@ == old(self).buffer@,
                Some(end) => reads_as(old(self).buffer@.take(end), r) && final(self).buffer@ == old(
                    self,
                ).buffer@.skip(end),
            },
    {
        let mut i: usize = 0;
        while i < self.buffer.len() && self.buffer[i] != 10
            invariant
                i <= self.buffer@.len(),
                line_end(self.buffer@, 0) == line_end(self.buffer@, i as int),
                self.buffer@ == old(self).buffer@,
            decreases self.buffer@.len() - i,
        {
            i = i + 1;
        }
        if i == self.buffer.len() {
            return LineRead::More;
        }
        let mut rest = self.buffer.split_off(i + 1);
        std::mem::swap(&mut rest, &mut self.buffer);
        assert(rest@ == old(self).buffer@.take(i + 1));
        assert(self.buffer@ == old(self).buffer@.skip(i + 1));
        decode_line(rest)
    }
}

/// What can be done with the stream.
pub enum StreamUse {
    /// A chunk is received.
    Push(Seq<u8>),
    /// A line is read.
    Line,
    /// What is left over is taken.
    Raw,
}

/// What is left over after a use, and what the use has taken.
pub open spec fn after_use(buffer: Seq<u8>, u: StreamUse) -> (Seq<u8>, Seq<u8>) {
    match u {
        StreamUse::Push(chunk) => (buffer + chunk, Seq::empty()),
        StreamUse::Line => match line_end(buffer, 0) {
            None => (buffer, Seq::empty()),
            Some(end) => (buffer.skip(end), buffer.take(end)),
        },
        StreamUse::Raw => (Seq::empty(), buffer),
    }
}

/// What is left over after these uses.
pub open spec fn left_over(uses: Seq<StreamUse>) -> Seq<u8>
    decreases uses.len(),
{
    if uses.len() == 0 {
        Seq::empty()
    } else {
        after_use(left_over(uses.drop_last()), uses.last()).0
    }
}

/// What these uses have taken, one after the other.
pub open spec fn taken(uses: Seq<StreamUse>) -> Seq<u8>
    decreases uses.len(),
{
    if uses.len() == 0 {
        Seq::empty()
    } else {
        taken(uses.drop_last()) + after_use(left_over(uses.drop_last()), uses.last()).1
    }
}

/// What was received in these uses, one after the other.
pub open spec fn received(uses: Seq<StreamUse>) -> Seq<u8>
    decreases uses.len(),
{
    if uses.len() == 0 {
        Seq::empty()
    } else {
        match uses.last() {
            StreamUse::Push(chunk) => received(uses.drop_last()) + chunk,
            _ => received(uses.drop_last()),
        }
    }
}

proof fn line_end_bounds(bytes: Seq<u8>, i: int)
    requires
        0 <= i <= bytes.len(),
    ensures
        line_end(bytes, i) matches Some(end) ==> i < end <= bytes.len() && bytes[end - 1] == 10
            && forall|k: int| i <= k < end - 1 ==> #[trigger] bytes[k] != 10,
        line_end(bytes, i) is None ==> forall|k: int|
            i <= k < bytes.len() ==> #[trigger] bytes[k] != 10,
    decreases bytes.len() - i,
{
    if i < bytes.len() && bytes[i] != 10 {
        line_end_bounds(bytes, i + 1);
    }
}

/// No byte of the standard input is lost, doubled or moved: what was taken, by lines
/// and by raw reads, and what is left over, are together what was received.
pub proof fn no_byte_is_lost(uses: Seq<StreamUse>)
    ensures
        taken(uses) + left_over(uses) == received(uses),
    decreases uses.len(),
{
    if uses.len() > 0 {
        let front = uses.drop_last();
        no_byte_is_lost(front);
        let buffer = left_over(front);
        match uses.last() {
            StreamUse::Push(chunk) => {
                assert(taken(uses) + left_over(uses) == (taken(front) + buffer) + chunk);
            },
            StreamUse::Line => {
                line_end_bounds(buffer, 0);
                if let Some(end) = line_end(buffer, 0) {
                    assert(buffer.take(end) + buffer.skip(end) == buffer);
                    assert(taken(uses) + left_over(uses) == taken(front) + (buffer.take(end)
                        + buffer.skip(end)));
                } else {
                    assert(taken(uses) + left_over(uses) == taken(front) + buffer);
                }
            },
            StreamUse::Raw => {
                assert(taken(uses) + left_over(uses) == taken(front) + buffer);
            },
        }
    } else {
        assert(taken(uses) + left_over(uses) == received(uses));
    }
}

/// A line ends with its only line feed.
pub proof fn line_has_one_line_feed(buffer: Seq<u8>)
    ensures
        line_end(buffer, 0) matches Some(end) ==> {
            let line = buffer.take(end);
            &&& line.len() > 0
            &&& forall|k: int| 0 <= k < line.len() ==> (#[trigger] line[k] == 10 <==> k == line.len()
                - 1)
        },
        line_end(buffer, 0) is None <==> !buffer.contains(10),
{
    line_end_bounds(buffer, 0);
    if let Some(end) = line_end(buffer, 0) {
        assert(buffer[end - 1] == 10);
    }
}

/// How many bytes of the standard input are read at a time, at most.
pub const READ_SIZE: usize = 1024;

/// What the task that reads the standard input is told.
pub enum PumpEvent {
    /// The tool is being shut down.
    Cancelled,
    /// Bytes were read, `n` of them, to the start of the buffer.
    Read { n: usize },
    /// Reading failed.
    ReadFailed,
    /// A chunk was passed on, or (`false`) nobody takes it any more.
    PassedOn(bool),
}

/// What that task does next.
pub enum PumpTask {
    /// Read more.
    Read,
    /// Pass this chunk on.
    PassOn(Vec<u8>),
    /// End.
    Stop,
}

/// The first `n` bytes of a buffer.
fn first_bytes(buf: &[u8], n: usize) -> (r: Vec<u8>)
    requires
        n <= buf@.len(),
    ensures
        r@ == buf@.take(n as int),
{
    let mut r: Vec<u8> = Vec::new();
    let mut i: usize = 0;
    while i < n
        invariant
            i <= n <= buf@.len(),
            r@ == buf@.take(i as int),
        decreases n - i,
    {
        r.push(buf[i]);
        i = i + 1;
        assert(r@ == buf@.take(i as int));
    }
    r
}

/// How the standard input is passed on: each read is one chunk, of at most `READ_SIZE`
/// bytes, until the tool is shut down, reading fails, or nobody takes the chunks any more.
pub fn pump(buf: &[u8], event: PumpEvent) -> (r: PumpTask)
    requires
        buf@.len() <= READ_SIZE,
        event matches PumpEvent::Read { n } ==> n <= buf@.len(),
    ensures
        match event {
            PumpEvent::Read { n } => r matches PumpTask::PassOn(chunk) && chunk@ == buf@.take(
                n as int,
            ),
            PumpEvent::PassedOn(true) => r is Read,
            _ => r is Stop,
        },
        r matches PumpTask::PassOn(chunk) ==> chunk@.len() <= READ_SIZE,
{
    match event {
        PumpEvent::Cancelled => PumpTask::Stop,
        PumpEvent::Read { n } => PumpTask::PassOn(first_bytes(buf, n)),
        PumpEvent::ReadFailed => PumpTask::Stop,
        PumpEvent::PassedOn(taken) => {
            if taken {
                PumpTask::Read
            } else {
                PumpTask::Stop
            }
        },
    }
}

/// A line that is text is read as the text that its bytes encode, so that nothing of it is
/// lost; a line that is not text is never read as one, and no complete line is taken for an
/// incomplete one.
pub proof fn lines_are_read_as_they_were_typed(line: Seq<u8>, r: LineRead)
    requires
        reads_as(line, r),
    ensures
        r matches LineRead::Line(text) ==> utf8::encode_utf8(text@) == line,
        r is Line <==> utf8::valid_utf8(line),
        r is Invalid <==> !utf8::valid_utf8(line),
        r matches LineRead::Invalid(reason) ==> reason@ == utf8_failure(line),
        !(r is More),
{
    if utf8::valid_utf8(line) {
        utf8::decode_utf8_encode_utf8(line);
    }
}

} // verus!
