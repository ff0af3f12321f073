//! The lines that are handed to the shell, and their text.

use crate::text::{join_words, joined_words};
use vstd::prelude::*;

verus! {

/// One line of output.
#[derive(Debug, PartialEq, Eq)]
pub enum Line {
    /// A message for the reader, which the shell echoes.
    Log(String),
    /// A variable that the shell sets and exports.
    Export { name: String, value: String },
    /// A program that the shell runs with the given arguments.
    Run { program: String, args: Vec<String> },
}

/// A `Line` over plain values.
pub enum LineView {
    Log(Seq<char>),
    Export { name: Seq<char>, value: Seq<char> },
    Run { program: Seq<char>, args: Seq<Seq<char>> },
}

impl View for Line {
    type V = LineView;

    open spec fn view(&self) -> LineView {
        match self {
            Line::Log(message) => LineView::Log(message@),
            Line::Export { name, value } => LineView::Export { name: name@, value: value@ },
            Line::Run { program, args } => LineView::Run {
                program: program@,
                args: args.deep_view(),
            },
        }
    }
}

impl DeepView for Line {
    type V = LineView;

    open spec fn deep_view(&self) -> LineView {
        self@
    }
}

/// Appends `line` to `out`.
pub fn emit(out: &mut Vec<Line>, line: Line)
    ensures
        final(out).deep_view() == old(out).deep_view().push(line@),
{
    out.push(line);
}

/// A `Log` line with the given message.
pub fn log_line(message: String) -> (line: Line)
    ensures
        line@ == LineView::Log(message@),
{
    Line::Log(message)
}

/// An `Export` line that binds `name` to `value`.
pub fn export_line(name: &str, value: &String) -> (line: Line)
    ensures
        line@ == (LineView::Export { name: name@, value: value@ }),
{
    Line::Export { name: String::from_str(name), value: value.clone() }
}

/// A `Run` line for `program` with the given arguments.
pub fn run_line(program: &str, args: Vec<String>) -> (line: Line)
    ensures
        line@ == (LineView::Run { program: program@, args: args.deep_view() }),
{
    Line::Run { program: String::from_str(program), args }
}

/// Appends a copy of `word` to `words`.
pub fn push_word(words: &mut Vec<String>, word: &str)
    ensures
        final(words).deep_view() == old(words).deep_view().push(word@),
{
    words.push(String::from_str(word));
}

/// The text of a string in Rust's debug notation: between double quotes,
/// with the characters escaped that the notation escapes.
pub uninterp spec fn debug_quoted(value: Seq<char>) -> Seq<char>;

/// Writes `value` in Rust's debug notation, with the formatter of `str`
/// that `{:?}` selects. The result is named, not described.
#[verifier::external_body]
fn quote_debug(value: &str) -> (quoted: String)
    ensures
        quoted@ == debug_quoted(value@),
{
    format!("{:?}", value)
}

/// The text of an export line, given the value as it is to be written.
pub open spec fn export_text(name: Seq<char>, written: Seq<char>) -> Seq<char> {
    "export "@ + name + "="@ + written
}

/// The text of a run line: the program, then each argument after a space.
pub open spec fn run_text(program: Seq<char>, args: Seq<Seq<char>>) -> Seq<char> {
    if args.len() == 0 {
        program
    } else {
        program + " "@ + joined_words(args)
    }
}

impl LineView {
    /// The text of this line as the shell reads it.
    pub open spec fn text(self) -> Seq<char> {
        match self {
            LineView::Log(message) => "echo "@ + message,
            LineView::Export { name, value } => export_text(name, debug_quoted(value)),
            LineView::Run { program, args } => run_text(program, args),
        }
    }
}

/// Writes an export line, given the value as it is to be written.
pub fn write_export(name: &str, written: &str) -> (text: String)
    ensures
        text@ == export_text(name@, written@),
{
    let mut text = String::from_str("export ");
    text.append(name);
    text.append("=");
    text.append(written);
    text
}

/// Writes a run line.
pub fn write_run(program: &str, args: &Vec<String>) -> (text: String)
    ensures
        text@ == run_text(program@, args.deep_view()),
{
    let mut text = String::from_str(program);
    if args.len() > 0 {
        text.append(" ");
        text.append(join_words(args).as_str());
    }
    text
}

impl Line {
    /// Writes this line as the shell reads it.
    pub fn render(&self) -> (text: String)
        ensures
            text@ == self@.text(),
    {
        match self {
            Line::Log(message) => {
                let mut text = String::from_str("echo ");
                text.append(message.as_str());
                text
            },
            Line::Export { name, value } => {
                let written = quote_debug(value.as_str());
                write_export(name.as_str(), written.as_str())
            },
            Line::Run { program, args } => write_run(program.as_str(), args),
        }
    }
}

} // verus!
