//! Diagnostic text captured from a child process.

use vstd::prelude::*;
use vstd::string::{StrSliceExecFns, StringExecFns};

verus! {

/// What one read of a line from a diagnostic stream returned.
#[derive(Debug, PartialEq, Eq)]
pub enum LineRead {
    /// A line, terminator included; an empty line means end of stream.
    Line(String),
    /// The stream reached its end.
    EndOfStream,
    /// The read failed.
    Failed,
}

/// The mathematical content of a [`LineRead`].
pub enum LineReadView {
    Line(Seq<char>),
    EndOfStream,
    Failed,
}

impl View for LineRead {
    type V = LineReadView;

    open spec fn view(&self) -> LineReadView {
        match self {
            LineRead::Line(line) => LineReadView::Line(line@),
            LineRead::EndOfStream => LineReadView::EndOfStream,
            LineRead::Failed => LineReadView::Failed,
        }
    }
}

/// The log `lines` after one more `read`, and whether the drain goes on.
///
/// A line is appended and the drain goes on. The end of the stream ends the
/// drain; so does a failed read, which leaves the log shorter than the stream
/// was but is never a failure of the conversion.
pub open spec fn record_step(lines: Seq<Seq<char>>, read: LineReadView) -> (Seq<Seq<char>>, bool) {
    match read {
        LineReadView::Line(line) => if line.len() > 0 {
            (lines.push(line), true)
        } else {
            (lines, false)
        },
        LineReadView::EndOfStream | LineReadView::Failed => (lines, false),
    }
}

/// The log after the reads `reads`, one after the other, and whether the
/// drain still goes on; reads behind the end of the drain count for nothing.
pub open spec fn drain_run(reads: Seq<LineReadView>) -> (Seq<Seq<char>>, bool)
    decreases reads.len(),
{
    if reads.len() == 0 {
        (Seq::empty(), true)
    } else {
        let (lines, more) = drain_run(reads.drop_last());
        if more {
            record_step(lines, reads.last())
        } else {
            (lines, false)
        }
    }
}

/// The reads of a stream that yields `lines` and then ends.
pub open spec fn reads_of(lines: Seq<Seq<char>>) -> Seq<LineReadView> {
    Seq::new(lines.len(), |i: int| LineReadView::Line(lines[i])).push(LineReadView::EndOfStream)
}

/// The lines a child process wrote to its diagnostic stream, in arrival order.
///
/// Lines are kept exactly as they were read, line terminator included, so the
/// text of the log is the plain concatenation of its lines.
#[derive(Clone, Debug, PartialEq, Eq)]
pub struct DiagnosticLog {
    lines: Vec<String>,
}

impl View for DiagnosticLog {
    type V = Seq<Seq<char>>;

    closed spec fn view(&self) -> Seq<Seq<char>> {
        self.lines.deep_view()
    }
}

impl DiagnosticLog {
    /// A log that holds no line yet.
    pub fn new() -> (log: DiagnosticLog)
        ensures
            log@ == Seq::<Seq<char>>::empty(),
    {
        let log = DiagnosticLog { lines: Vec::new() };
        assert(log@ =~= Seq::<Seq<char>>::empty());
        log
    }

    /// Appends one line behind those already captured.
    pub fn append_line(&mut self, line: String)
        ensures
            final(self)@ == old(self)@.push(line@),
    {
        self.lines.push(line);
        assert(self@ =~= old(self)@.push(line@));
    }

    /// Takes the result of one read and says whether the drain goes on.
    pub fn record(&mut self, read: LineRead) -> (more: bool)
        ensures
            (final(self)@, more) == record_step(old(self)@, read@),
    {
        match read {
            LineRead::Line(line) => {
                if line.as_str().unicode_len() > 0 {
                    self.append_line(line);
                    true
                } else {
                    false
                }
            },
            LineRead::EndOfStream => false,
            LineRead::Failed => false,
        }
    }

    /// Appends all lines of `other`, in their order, behind those already captured.
    pub fn extend(&mut self, other: DiagnosticLog)
        ensures
            final(self)@ == old(self)@ + other@,
    {
        let mut tail = other.lines;
        self.lines.append(&mut tail);
        assert(self@ =~= old(self)@ + other@);
    }

    /// The number of captured lines.
    pub fn line_count(&self) -> (n: usize)
        ensures
            n == self@.len(),
    {
        self.lines.len()
    }

    /// The `index`-th captured line, counting from zero; `None` past the end.
    pub fn line(&self, index: usize) -> (found: Option<&String>)
        ensures
            index < self@.len() ==> found.is_some() && found.unwrap()@ == self@[index as int],
            index >= self@.len() ==> found.is_none(),
    {
        if index < self.lines.len() {
            Some(&self.lines[index])
        } else {
            None
        }
    }

    /// The whole captured text: every line, in order, one after the other.
    pub fn text(&self) -> (text: String)
        ensures
            text@ == self@.flatten(),
    {
        let mut text = String::new();
        let mut i: usize = 0;
        while i < self.lines.len()
            invariant
                i <= self.lines.len(),
                text@ == self@.take(i as int).flatten(),
            decreases self.lines.len() - i,
        {
            proof {
                let done = self@.take(i as int);
                assert(self@.take(i + 1) =~= done.push(self@[i as int]));
                done.lemma_flatten_push(self@[i as int]);
            }
            text.append(self.lines[i].as_str());
            i += 1;
        }
        assert(self@.take(i as int) =~= self@);
        text
    }
}

/// A drain that reads `lines`, none of them empty, and then meets the end of
/// the stream has captured every one of them, in order, and nothing else.
pub proof fn law_drain_captures_every_line(lines: Seq<Seq<char>>)
    requires
        forall|i: int| 0 <= i < lines.len() ==> (#[trigger] lines[i]).len() > 0,
    ensures
        drain_run(reads_of(lines)) == (lines, false),
        drain_run(reads_of(lines).drop_last()) == (lines, true),
    decreases lines.len(),
{
    let reads = reads_of(lines).drop_last();
    assert(reads =~= Seq::new(lines.len(), |i: int| LineReadView::Line(lines[i])));
    if lines.len() == 0 {
        assert(drain_run(reads) == (lines, true));
    } else {
        let shorter = lines.drop_last();
        law_drain_captures_every_line(shorter);
        assert(reads.drop_last() =~= reads_of(shorter).drop_last());
        assert(reads.last() == LineReadView::Line(lines.last()));
        assert(shorter.push(lines.last()) =~= lines);
        assert(drain_run(reads) == (lines, true));
    }
    assert(reads_of(lines).last() == LineReadView::EndOfStream);
}

} // verus!
