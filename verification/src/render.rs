//! The rendering engine behind an interface, and the errors that it reports.
use crate::text::{concat_all, decimal_seq, lemma_concat_all_step, push_decimal};
use std::sync::Arc;
use vstd::prelude::*;

verus! {

/// How serious a finding of the rendering engine is.
#[derive(Clone, Copy, Debug, PartialEq, Eq, Structural)]
pub enum ErrorLevel {
    Info,
    Warning,
    Error,
}

impl ErrorLevel {
    /// The level as written in messages.
    pub open spec fn name_text(self) -> Seq<char> {
        match self {
            ErrorLevel::Info => "INFO"@,
            ErrorLevel::Warning => "WARNING"@,
            ErrorLevel::Error => "ERROR"@,
        }
    }

    /// The level as written in messages.
    pub fn name(&self) -> (text: &'static str)
        ensures
            text@ == self.name_text(),
    {
        match self {
            ErrorLevel::Info => "INFO",
            ErrorLevel::Warning => "WARNING",
            ErrorLevel::Error => "ERROR",
        }
    }
}

/// One finding of the rendering engine, with the line of the DOT source that
/// it is about where the engine gave one.
#[derive(Clone, Debug)]
pub struct ErrorInfo {
    pub level: ErrorLevel,
    pub message: String,
    pub line: Option<u32>,
}

/// What contracts say of a finding, with texts as sequences of characters.
pub struct ErrorInfoView {
    pub level: ErrorLevel,
    pub message: Seq<char>,
    pub line: Option<u32>,
}

impl View for ErrorInfo {
    type V = ErrorInfoView;

    open spec fn view(&self) -> ErrorInfoView {
        ErrorInfoView { level: self.level, message: self.message@, line: self.line }
    }
}

/// The failure of one rendering: the engine's findings in its order.
#[derive(Clone, Debug)]
pub struct RenderError {
    pub errors: Vec<ErrorInfo>,
}

impl View for RenderError {
    type V = Seq<ErrorInfoView>;

    open spec fn view(&self) -> Seq<ErrorInfoView> {
        self.errors@.map_values(|e: ErrorInfo| e@)
    }
}

/// The message for a failure with a single finding.
pub open spec fn single_finding_text(e: ErrorInfoView) -> Seq<char> {
    match e.line {
        Some(line) => "Render failed at line "@ + decimal_seq(line as nat) + ": "@ + e.message,
        None => "Render failed: "@ + e.message,
    }
}

/// One line of the list of findings. `number` counts from one.
pub open spec fn numbered_finding_text(number: nat, e: ErrorInfoView) -> Seq<char> {
    match e.line {
        Some(line) => "  "@ + decimal_seq(number) + ". ["@ + e.level.name_text() + "] Line "@
            + decimal_seq(line as nat) + ": "@ + e.message + "\n"@,
        None => "  "@ + decimal_seq(number) + ". ["@ + e.level.name_text() + "] "@ + e.message
            + "\n"@,
    }
}

/// The lines of the list of findings.
pub open spec fn finding_lines(errors: Seq<ErrorInfoView>) -> Seq<Seq<char>> {
    Seq::new(errors.len(), |i: int| numbered_finding_text((i + 1) as nat, errors[i]))
}

/// The message of a failed rendering: a fixed text where the engine gave no
/// finding, the finding itself where it gave one, else their count and a
/// numbered list.
pub open spec fn render_error_text(errors: Seq<ErrorInfoView>) -> Seq<char> {
    if errors.len() == 0 {
        "Render failed: unknown error"@
    } else if errors.len() == 1 {
        single_finding_text(errors[0])
    } else {
        "Render failed with "@ + decimal_seq(errors.len()) + " error(s):\n"@ + concat_all(
            finding_lines(errors),
        )
    }
}

fn single_finding(e: &ErrorInfo) -> (text: String)
    ensures
        text@ == single_finding_text(e@),
{
    match e.line {
        Some(line) => {
            let mut text = String::from_str("Render failed at line ");
            push_decimal(&mut text, line as u64);
            text.append(": ");
            text.append(e.message.as_str());
            text
        },
        None => {
            let mut text = String::from_str("Render failed: ");
            text.append(e.message.as_str());
            text
        },
    }
}

fn numbered_finding(number: u64, e: &ErrorInfo) -> (text: String)
    ensures
        text@ == numbered_finding_text(number as nat, e@),
{
    let mut text = String::from_str("  ");
    push_decimal(&mut text, number);
    text.append(". [");
    text.append(e.level.name());
    match e.line {
        Some(line) => {
            text.append("] Line ");
            push_decimal(&mut text, line as u64);
            text.append(": ");
        },
        None => {
            text.append("] ");
        },
    }
    text.append(e.message.as_str());
    text.append("\n");
    text
}

impl RenderError {
    /// The failure as a message for display.
    pub fn to_text(&self) -> (text: String)
        ensures
            text@ == render_error_text(self@),
    {
        let n = self.errors.len();
        if n == 0 {
            return String::from_str("Render failed: unknown error");
        }
        if n == 1 {
            return single_finding(&self.errors[0]);
        }
        let ghost lines = finding_lines(self@);
        let mut list = String::new();
        let mut i: usize = 0;
        while i < n
            invariant
                n == self.errors.len(),
                i <= n,
                lines == finding_lines(self@),
                list@ == concat_all(lines.take(i as int)),
            decreases n - i,
        {
            let line = numbered_finding(i as u64 + 1, &self.errors[i]);
            list.append(line.as_str());
            proof {
                lemma_concat_all_step(lines, i as int);
            }
            i = i + 1;
        }
        assert(lines.take(n as int) =~= lines);
        let mut text = String::from_str("Render failed with ");
        push_decimal(&mut text, n as u64);
        text.append(" error(s):\n");
        text.append(list.as_str());
        text
    }
}

/// What can go wrong around a rendering.
#[derive(Clone, Debug)]
pub enum Error {
    /// The storage could not do what was asked.
    StorageFailure(&'static str),
    /// Reading or writing failed.
    Io(String),
    /// The rendering engine refused the DOT source.
    DotRenderError(RenderError),
}

/// The message of an error.
pub open spec fn error_text(e: Error) -> Seq<char> {
    match e {
        Error::StorageFailure(what) => "Storage failure: "@ + what@,
        Error::Io(what) => "I/O error: "@ + what@,
        Error::DotRenderError(failure) => render_error_text(failure@),
    }
}

impl Error {
    /// The error as a message for display. A rendering failure speaks for itself.
    pub fn to_text(&self) -> (text: String)
        ensures
            text@ == error_text(*self),
    {
        match self {
            Error::StorageFailure(what) => {
                let mut text = String::from_str("Storage failure: ");
                text.append(what);
                text
            },
            Error::Io(what) => {
                let mut text = String::from_str("I/O error: ");
                text.append(what.as_str());
                text
            },
            Error::DotRenderError(failure) => failure.to_text(),
        }
    }
}

impl From<RenderError> for Error {
    fn from(failure: RenderError) -> (e: Error) {
        Error::DotRenderError(failure)
    }
}

impl vstd::std_specs::convert::FromSpecImpl<RenderError> for Error {
    open spec fn obeys_from_spec() -> bool {
        true
    }

    open spec fn from_spec(failure: RenderError) -> Error {
        Error::DotRenderError(failure)
    }
}

/// An engine that renders DOT source.
///
/// The engine is an outside collaborator: nothing is fixed about what it
/// gives back. The relation says which results an engine may give for which
/// source; an engine that promises nothing leaves it as it is.
pub trait GraphVizable {
    type Error;

    /// Whether `render_dot` may give `result` for this source.
    open spec fn render_result(&self, dot: Seq<char>, result: Result<String, Self::Error>) -> bool {
        true
    }

    /// Renders the DOT source, or says why it cannot.
    fn render_dot(&self, dot: &str) -> (result: Result<String, Self::Error>)
        ensures
            self.render_result(dot@, result),
    ;
}

/// A shared handle to a rendering engine. Rendering is the engine's.
pub struct GVizProvider<G: GraphVizable<Error = Error>> {
    inner: Arc<G>,
}

impl<G: GraphVizable<Error = Error>> Clone for GVizProvider<G> {
    /// Another handle to the same engine.
    fn clone(&self) -> (other: Self)
        ensures
            other.engine() == self.engine(),
    {
        GVizProvider { inner: self.inner.clone() }
    }
}

impl<G: GraphVizable<Error = Error>> GVizProvider<G> {
    /// The engine behind the handle.
    pub closed spec fn engine(&self) -> G {
        *self.inner
    }

    /// A handle to the given engine.
    pub fn new(graphviz: G) -> (provider: Self)
        ensures
            provider.engine() == graphviz,
    {
        GVizProvider { inner: Arc::new(graphviz) }
    }

    /// Hands the source to the engine, and hands on its result.
    pub fn render_dot(&self, dot: &str) -> (result: Result<String, Error>)
        ensures
            self.engine().render_result(dot@, result),
    {
        self.inner.render_dot(dot)
    }
}

} // verus!
