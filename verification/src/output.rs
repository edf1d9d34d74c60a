//! Capture of the two output streams of a process.
//!
//! Each stream is read line by line by the host. Every read is reported to
//! [`PendingOutput::record_read`], which decodes it, appends it to the
//! cumulative buffer and publishes it on the line feed.
use vstd::prelude::*;

verus! {

/// The text that `String::from_utf8_lossy` decodes from these bytes.
pub uninterp spec fn lossy_text(bytes: Seq<u8>) -> Seq<char>;

/// Calls `String::from_utf8_lossy` and takes ownership of what it returns.
/// The decoding is a function of the bytes alone: valid UTF-8 is kept, each
/// invalid sequence becomes U+FFFD. The contract gives that text a name and
/// claims nothing else of it.
#[verifier::external_body]
fn decode_lossy(bytes: &[u8]) -> (text: String)
    ensures
        text@ == lossy_text(bytes@),
{
    String::from_utf8_lossy(bytes).into_owned()
}

/// One of the two streams of a process.
#[derive(Clone, Copy, Debug, PartialEq, Eq)]
pub enum OutputStream {
    Stdout,
    Stderr,
}

/// All lines joined, in order.
pub open spec fn concat_lines(lines: Seq<Seq<char>>) -> Seq<char>
    decreases lines.len(),
{
    if lines.len() == 0 {
        Seq::empty()
    } else {
        concat_lines(lines.drop_last()) + lines.last()
    }
}

/// Joining after one more line appends that line.
pub proof fn lemma_concat_push(lines: Seq<Seq<char>>, line: Seq<char>)
    ensures
        concat_lines(lines.push(line)) == concat_lines(lines) + line,
{
    assert(lines.push(line).drop_last() =~= lines);
}

/// The text of each line.
pub open spec fn texts(lines: Seq<String>) -> Seq<Seq<char>> {
    Seq::new(lines.len(), |i: int| lines[i]@)
}

/// Copies a list of lines.
pub fn clone_lines(lines: &Vec<String>) -> (copy: Vec<String>)
    ensures
        texts(copy@) == texts(lines@),
{
    let mut copy: Vec<String> = Vec::new();
    let mut i: usize = 0;
    while i < lines.len()
        invariant
            i <= lines.len(),
            copy@.len() == i,
            forall|j: int| 0 <= j < i ==> copy@[j]@ == lines@[j]@,
        decreases lines.len() - i,
    {
        copy.push(lines[i].clone());
        i += 1;
    }
    assert(texts(copy@) =~= texts(lines@));
    copy
}

/// What a capture holds.
pub struct OutputView {
    /// The cumulative buffer.
    pub buffer: Seq<char>,
    /// Every line published so far, in arrival order.
    pub lines: Seq<Seq<char>>,
    /// How many of the lines the subscriber has taken.
    pub delivered: nat,
    pub stdout_done: bool,
    pub stderr_done: bool,
}

impl OutputView {
    /// A capture with nothing read yet and both streams open.
    pub open spec fn fresh() -> OutputView {
        OutputView {
            buffer: Seq::empty(),
            lines: Seq::empty(),
            delivered: 0,
            stdout_done: false,
            stderr_done: false,
        }
    }

    /// Whether the reader of `stream` has finished.
    pub open spec fn done(&self, stream: OutputStream) -> bool {
        match stream {
            OutputStream::Stdout => self.stdout_done,
            OutputStream::Stderr => self.stderr_done,
        }
    }

    /// The capture after the reader of `stream` has finished.
    pub open spec fn finish(self, stream: OutputStream) -> OutputView {
        match stream {
            OutputStream::Stdout => OutputView { stdout_done: true, ..self },
            OutputStream::Stderr => OutputView { stderr_done: true, ..self },
        }
    }

    /// The capture after `line` has arrived.
    pub open spec fn publish(self, line: Seq<char>) -> OutputView {
        OutputView { buffer: self.buffer + line, lines: self.lines.push(line), ..self }
    }

    /// The capture after one read of `stream` that returned `bytes`: nothing
    /// changes once the stream has finished, an empty read finishes it, and
    /// anything else is decoded and published.
    pub open spec fn after_read(self, stream: OutputStream, bytes: Seq<u8>) -> OutputView {
        if self.done(stream) {
            self
        } else if bytes.len() == 0 {
            self.finish(stream)
        } else {
            self.publish(lossy_text(bytes))
        }
    }

    /// Whether the reader of `stream` goes on after a read that returned
    /// `bytes`: the stream had not ended, and the read was not empty.
    pub open spec fn reads_on(self, stream: OutputStream, bytes: Seq<u8>) -> bool {
        !self.done(stream) && bytes.len() > 0
    }

    /// The capture after a run of reads, the first of them first.
    pub open spec fn after_reads(self, reads: Seq<(OutputStream, Seq<u8>)>) -> OutputView
        decreases reads.len(),
    {
        if reads.len() == 0 {
            self
        } else {
            self.after_reads(reads.drop_last()).after_read(reads.last().0, reads.last().1)
        }
    }

    /// The capture after the subscriber took the next line, if there was one.
    pub open spec fn after_take(self) -> OutputView {
        if self.delivered < self.lines.len() {
            OutputView { delivered: self.delivered + 1, ..self }
        } else {
            self
        }
    }

    /// The buffer is the published lines joined, and no more lines were
    /// taken than were published.
    pub open spec fn wf(&self) -> bool {
        &&& self.buffer == concat_lines(self.lines)
        &&& self.delivered <= self.lines.len()
    }
}

/// The capture of a process's two output streams: one cumulative buffer and
/// one feed of lines, in the order in which the lines arrived.
#[derive(Debug)]
pub struct PendingOutput {
    full_output: String,
    lines: Vec<String>,
    delivered: usize,
    stdout_done: bool,
    stderr_done: bool,
}

impl View for PendingOutput {
    type V = OutputView;

    closed spec fn view(&self) -> OutputView {
        OutputView {
            buffer: self.full_output@,
            lines: texts(self.lines@),
            delivered: self.delivered as nat,
            stdout_done: self.stdout_done,
            stderr_done: self.stderr_done,
        }
    }
}

impl Clone for PendingOutput {
    fn clone(&self) -> (copy: Self)
        ensures
            copy@ == self@,
    {
        PendingOutput {
            full_output: self.full_output.clone(),
            lines: clone_lines(&self.lines),
            delivered: self.delivered,
            stdout_done: self.stdout_done,
            stderr_done: self.stderr_done,
        }
    }
}

impl PendingOutput {
    /// Whether the capture is well formed; every function here keeps it so.
    pub open spec fn wf(&self) -> bool {
        self@.wf()
    }

    /// A capture with nothing read yet and both streams open.
    pub fn new() -> (output: Self)
        ensures
            output@ == OutputView::fresh(),
            output.wf(),
    {
        let output = PendingOutput {
            full_output: String::new(),
            lines: Vec::new(),
            delivered: 0,
            stdout_done: false,
            stderr_done: false,
        };
        assert(output@.lines =~= Seq::<Seq<char>>::empty());
        output
    }

    /// Whether the reader of `stream` has finished.
    pub fn is_finished(&self, stream: OutputStream) -> (done: bool)
        ensures
            done == self@.done(stream),
    {
        match stream {
            OutputStream::Stdout => self.stdout_done,
            OutputStream::Stderr => self.stderr_done,
        }
    }

    fn finish(&mut self, stream: OutputStream)
        ensures
            final(self)@ == old(self)@.finish(stream),
    {
        match stream {
            OutputStream::Stdout => {
                self.stdout_done = true;
            },
            OutputStream::Stderr => {
                self.stderr_done = true;
            },
        }
    }

    /// Appends an arrived line to the buffer and publishes it on the feed.
    pub fn publish(&mut self, line: String)
        ensures
            final(self)@ == old(self)@.publish(line@),
            old(self).wf() ==> final(self).wf(),
    {
        self.full_output.append(line.as_str());
        self.lines.push(line);
        proof {
            assert(self@.lines =~= old(self)@.lines.push(line@));
            lemma_concat_push(old(self)@.lines, line@);
        }
    }

    /// Takes in one read of `stream`, which returned `bytes`: everything up
    /// to and including the next newline, or up to the end of the stream.
    /// Returns whether the reader is to go on. An empty read ends the stream.
    /// A read of a stream that has ended is ignored.
    pub fn record_read(&mut self, stream: OutputStream, bytes: &[u8]) -> (more: bool)
        ensures
            final(self)@ == old(self)@.after_read(stream, bytes@),
            more == old(self)@.reads_on(stream, bytes@),
            old(self).wf() ==> final(self).wf(),
    {
        if self.is_finished(stream) {
            false
        } else if bytes.len() == 0 {
            self.finish(stream);
            false
        } else {
            let line = decode_lossy(bytes);
            self.publish(line);
            true
        }
    }

    /// Takes in a failed read of `stream`: the stream counts as ended, and
    /// nothing else changes.
    pub fn record_read_error(&mut self, stream: OutputStream)
        ensures
            final(self)@ == old(self)@.finish(stream),
            old(self).wf() ==> final(self).wf(),
    {
        self.finish(stream);
    }

    /// The next line of the feed that was not taken yet, if there is one.
    pub fn subscribe(&mut self) -> (line: Option<String>)
        ensures
            old(self).wf() ==> final(self).wf(),
            final(self)@ == old(self)@.after_take(),
            old(self)@.delivered < old(self)@.lines.len() ==> line is Some && line.unwrap()@
                == old(self)@.lines[old(self)@.delivered as int],
            old(self)@.delivered >= old(self)@.lines.len() ==> line is None,
    {
        if self.delivered < self.lines.len() {
            let line = self.lines[self.delivered].clone();
            self.delivered = self.delivered + 1;
            Some(line)
        } else {
            None
        }
    }

    /// A copy of the cumulative buffer as it stands now.
    pub fn snapshot(&self) -> (text: String)
        ensures
            text@ == self@.buffer,
    {
        self.full_output.clone()
    }

    /// The whole output: a copy of the cumulative buffer once both readers
    /// have finished, and `None` before that.
    pub fn full_output(&self) -> (text: Option<String>)
        ensures
            (self@.stdout_done && self@.stderr_done) ==> text is Some && text.unwrap()@
                == self@.buffer,
            !(self@.stdout_done && self@.stderr_done) ==> text is None,
    {
        if self.stdout_done && self.stderr_done {
            Some(self.full_output.clone())
        } else {
            None
        }
    }
}

/// The cumulative buffer only grows: after any read, what it held before is
/// a prefix of what it holds, and so is the feed.
pub proof fn lemma_read_extends(before: OutputView, stream: OutputStream, bytes: Seq<u8>)
    ensures
        before.buffer.is_prefix_of(before.after_read(stream, bytes).buffer),
        before.lines.is_prefix_of(before.after_read(stream, bytes).lines),
        before.delivered == before.after_read(stream, bytes).delivered,
        before.wf() ==> before.after_read(stream, bytes).wf(),
{
    let after = before.after_read(stream, bytes);
    if !before.done(stream) && bytes.len() > 0 {
        lemma_concat_push(before.lines, lossy_text(bytes));
        assert(after.buffer.subrange(0, before.buffer.len() as int) =~= before.buffer);
        assert(after.lines.subrange(0, before.lines.len() as int) =~= before.lines);
    } else {
        assert(after.buffer.subrange(0, before.buffer.len() as int) =~= before.buffer);
        assert(after.lines.subrange(0, before.lines.len() as int) =~= before.lines);
    }
}

/// The same over any run of reads: the buffer and the feed only grow, and a
/// well-formed capture stays well formed.
pub proof fn lemma_reads_extend(before: OutputView, reads: Seq<(OutputStream, Seq<u8>)>)
    ensures
        before.buffer.is_prefix_of(before.after_reads(reads).buffer),
        before.lines.is_prefix_of(before.after_reads(reads).lines),
        before.wf() ==> before.after_reads(reads).wf(),
    decreases reads.len(),
{
    if reads.len() == 0 {
        assert(before.buffer.subrange(0, before.buffer.len() as int) =~= before.buffer);
        assert(before.lines.subrange(0, before.lines.len() as int) =~= before.lines);
    } else {
        let middle = before.after_reads(reads.drop_last());
        let after = before.after_reads(reads);
        lemma_reads_extend(before, reads.drop_last());
        lemma_read_extends(middle, reads.last().0, reads.last().1);
        assert(after.buffer.subrange(0, before.buffer.len() as int) =~= middle.buffer.subrange(
            0,
            before.buffer.len() as int,
        ));
        assert(after.lines.subrange(0, before.lines.len() as int) =~= middle.lines.subrange(
            0,
            before.lines.len() as int,
        ));
    }
}

/// A failed read counts as the end of its stream: it leaves the capture as
/// an empty read does.
pub proof fn lemma_error_is_end(before: OutputView, stream: OutputStream)
    ensures
        before.finish(stream) == before.after_read(stream, Seq::empty()),
{
}

/// Whether a run of reads holds an empty read of `stream`.
pub open spec fn ended_in(reads: Seq<(OutputStream, Seq<u8>)>, stream: OutputStream) -> bool
    decreases reads.len(),
{
    if reads.len() == 0 {
        false
    } else {
        ended_in(reads.drop_last(), stream) || (reads.last().0 == stream && reads.last().1.len()
            == 0)
    }
}

/// The lines that the reads of `stream` give: each of its non-empty reads
/// that comes before its first empty one, decoded, in the order read.
pub open spec fn lines_of(reads: Seq<(OutputStream, Seq<u8>)>, stream: OutputStream) -> Seq<
    Seq<char>,
>
    decreases reads.len(),
{
    if reads.len() == 0 {
        Seq::empty()
    } else {
        let earlier = lines_of(reads.drop_last(), stream);
        let last = reads.last();
        if last.0 == stream && last.1.len() > 0 && !ended_in(reads.drop_last(), stream) {
            earlier.push(lossy_text(last.1))
        } else {
            earlier
        }
    }
}

/// Whether `feed` interleaves `first` and `second`: it holds the lines of
/// both and no others, and those of each in their own order.
pub open spec fn interleaves(
    feed: Seq<Seq<char>>,
    first: Seq<Seq<char>>,
    second: Seq<Seq<char>>,
) -> bool
    decreases feed.len(),
{
    if feed.len() == 0 {
        first.len() == 0 && second.len() == 0
    } else {
        ||| (first.len() > 0 && first.last() == feed.last() && interleaves(
            feed.drop_last(),
            first.drop_last(),
            second,
        ))
        ||| (second.len() > 0 && second.last() == feed.last() && interleaves(
            feed.drop_last(),
            first,
            second.drop_last(),
        ))
    }
}

/// Whatever the order in which the reads of the two streams arrive at a new
/// capture, the feed interleaves the lines of the two: the lines of each
/// stream stand in it in the order in which they were read, and a stream has
/// ended exactly when an empty read of it has arrived.
pub proof fn lemma_feed_interleaves_streams(reads: Seq<(OutputStream, Seq<u8>)>)
    ensures
        interleaves(
            OutputView::fresh().after_reads(reads).lines,
            lines_of(reads, OutputStream::Stdout),
            lines_of(reads, OutputStream::Stderr),
        ),
        OutputView::fresh().after_reads(reads).stdout_done == ended_in(reads, OutputStream::Stdout),
        OutputView::fresh().after_reads(reads).stderr_done == ended_in(reads, OutputStream::Stderr),
    decreases reads.len(),
{
    if reads.len() > 0 {
        let earlier = reads.drop_last();
        let middle = OutputView::fresh().after_reads(earlier);
        let stream = reads.last().0;
        let bytes = reads.last().1;
        lemma_feed_interleaves_streams(earlier);
        if !middle.done(stream) && bytes.len() > 0 {
            let line = lossy_text(bytes);
            let out = lines_of(earlier, OutputStream::Stdout);
            let err = lines_of(earlier, OutputStream::Stderr);
            assert(middle.lines.push(line).drop_last() =~= middle.lines);
            match stream {
                OutputStream::Stdout => {
                    assert(out.push(line).drop_last() =~= out);
                },
                OutputStream::Stderr => {
                    assert(err.push(line).drop_last() =~= err);
                },
            }
        }
    }
}

/// A stream that has finished stays finished, whatever is read afterwards.
pub proof fn lemma_finished_stays(
    before: OutputView,
    done: OutputStream,
    stream: OutputStream,
    bytes: Seq<u8>,
)
    requires
        before.done(done),
    ensures
        before.after_read(stream, bytes).done(done),
{
}

} // verus!
