//! What the samples print, as data: lines for standard output or standard
//! error, and whether the sample goes on after a step.
use vstd::prelude::*;

verus! {

/// The stream that a line is written to.
#[derive(Clone, Copy, PartialEq, Eq, Structural, Debug)]
pub enum Stream {
    Stdout,
    Stderr,
}

/// One `println!` or `eprintln!` of a sample: the text, without the newline
/// that ends it.
#[derive(Debug)]
pub struct Line {
    pub stream: Stream,
    pub text: String,
}

/// A line as a value of the specification.
pub struct LineView {
    pub stream: Stream,
    pub text: Seq<char>,
}

impl View for Line {
    type V = LineView;

    open spec fn view(&self) -> LineView {
        LineView { stream: self.stream, text: self.text@ }
    }
}

/// A line for standard output.
pub open spec fn out(text: Seq<char>) -> LineView {
    LineView { stream: Stream::Stdout, text }
}

/// A line for standard error.
pub open spec fn err(text: Seq<char>) -> LineView {
    LineView { stream: Stream::Stderr, text }
}

/// The lines of a vector, as values of the specification.
pub open spec fn lines_view(lines: Seq<Line>) -> Seq<LineView> {
    lines.map_values(|l: Line| l@)
}

/// How a failed gateway request was described: the message of a node error
/// where the gateway reported one, and the `Display` and `Debug` renderings
/// of the error.
#[derive(Debug)]
pub struct CallFailure {
    pub node_message: Option<String>,
    pub display: String,
    pub debug: String,
}

/// A failure as a value of the specification.
pub struct CallFailureView {
    pub node_message: Option<Seq<char>>,
    pub display: Seq<char>,
    pub debug: Seq<char>,
}

impl View for CallFailure {
    type V = CallFailureView;

    open spec fn view(&self) -> CallFailureView {
        CallFailureView {
            node_message: match self.node_message {
                Some(m) => Some(m@),
                None => None,
            },
            display: self.display@,
            debug: self.debug@,
        }
    }
}

/// What a sample does after a step: go on, return the step's error, or
/// panic with a message.
#[derive(Debug)]
pub enum Verdict {
    Proceed,
    Stop,
    Abort(String),
}

/// A verdict as a value of the specification.
pub enum VerdictView {
    Proceed,
    Stop,
    Abort(Seq<char>),
}

impl View for Verdict {
    type V = VerdictView;

    open spec fn view(&self) -> VerdictView {
        match self {
            Verdict::Proceed => VerdictView::Proceed,
            Verdict::Stop => VerdictView::Stop,
            Verdict::Abort(m) => VerdictView::Abort(m@),
        }
    }
}

/// The lines that a step prints and what the sample does next.
#[derive(Debug)]
pub struct Report {
    pub lines: Vec<Line>,
    pub verdict: Verdict,
}

/// A report as a value of the specification.
pub struct ReportView {
    pub lines: Seq<LineView>,
    pub verdict: VerdictView,
}

impl View for Report {
    type V = ReportView;

    open spec fn view(&self) -> ReportView {
        ReportView { lines: lines_view(self.lines@), verdict: self.verdict@ }
    }
}

/// A line for standard output holding `text`.
pub fn out_line(text: String) -> (line: Line)
    ensures
        line@ == out(text@),
{
    Line { stream: Stream::Stdout, text }
}

/// A line for standard error holding `text`.
pub fn err_line(text: String) -> (line: Line)
    ensures
        line@ == err(text@),
{
    Line { stream: Stream::Stderr, text }
}

/// The text `prefix` followed by `rest`.
pub fn joined(prefix: &str, rest: &str) -> (text: String)
    ensures
        text@ == prefix@ + rest@,
{
    let mut text = String::from_str(prefix);
    text.append(rest);
    text
}

/// A vector of one line.
pub fn one_line(line: Line) -> (lines: Vec<Line>)
    ensures
        lines_view(lines@) == seq![line@],
{
    let mut lines: Vec<Line> = Vec::new();
    lines.push(line);
    proof { assert(lines_view(lines@) =~= seq![line@]); }
    lines
}

/// A vector of two lines.
pub fn two_lines(first: Line, second: Line) -> (lines: Vec<Line>)
    ensures
        lines_view(lines@) == seq![first@, second@],
{
    let mut lines: Vec<Line> = Vec::new();
    lines.push(first);
    lines.push(second);
    proof { assert(lines_view(lines@) =~= seq![first@, second@]); }
    lines
}

} // verus!
