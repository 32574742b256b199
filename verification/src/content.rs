//! The content converter: rich markup on the controller's side, plain text in
//! the editor.
//!
//! Plain content passes through unchanged. Markup is sanitized and handed to an
//! external conversion filter; this module says what is fed to the filter, how
//! the filter is invoked and what is made of its output. Running the filter is
//! left to the caller.

use crate::command::{CommandLine, CommandLineView};
use vstd::prelude::*;
use vstd::string::*;

verus! {

/// Which conversion applies to a session's content. Set once, when the
/// session begins.
#[derive(Clone, Copy, Debug, PartialEq, Eq, Structural)]
pub enum ContentType {
    Plain,
    Html,
}

/// The markup that `ammonia::clean` makes of `markup`: the same document with
/// scripts, unsafe attributes and other unsafe constructs taken out.
pub uninterp spec fn sanitized_markup(markup: Seq<char>) -> Seq<char>;

/// `ammonia::clean`: parses `markup` as an HTML fragment, removes what the
/// crate's default rules do not allow and serializes the rest. The result
/// depends on the argument alone.
#[verifier::external_body]
fn sanitize(markup: &str) -> (clean: String)
    ensures
        clean@ == sanitized_markup(markup@),
{
    ammonia::clean(markup)
}

/// How the working file comes to hold the session's initial content.
#[derive(Clone, Debug, PartialEq, Eq)]
pub enum Seed {
    /// Write `content` to the working file as it is.
    Write { content: String },
    /// Pipe `markup` through the filter, which writes the working file.
    Convert { markup: String },
}

/// The mathematical content of a [`Seed`].
pub enum SeedView {
    Write { content: Seq<char> },
    Convert { markup: Seq<char> },
}

impl View for Seed {
    type V = SeedView;

    open spec fn view(&self) -> SeedView {
        match self {
            Seed::Write { content } => SeedView::Write { content: content@ },
            Seed::Convert { markup } => SeedView::Convert { markup: markup@ },
        }
    }
}

/// Plain content is written as it is; markup is sanitized, then converted.
pub open spec fn seed_of(content_type: ContentType, initial_content: Seq<char>) -> SeedView {
    match content_type {
        ContentType::Plain => SeedView::Write { content: initial_content },
        ContentType::Html => SeedView::Convert { markup: sanitized_markup(initial_content) },
    }
}

/// What the controller is told the content is, given the text that was read
/// back: the working file itself for plain content, the filter's rendering of
/// it for markup. Markup is sanitized before it is accepted.
pub open spec fn rich_of(content_type: ContentType, rendered: Seq<char>) -> Seq<char> {
    match content_type {
        ContentType::Plain => rendered,
        ContentType::Html => sanitized_markup(rendered),
    }
}

/// The rich-to-plain direction: decides how the working file is seeded from
/// the content that the controller sent.
pub fn rich_to_plain(content_type: ContentType, initial_content: String) -> (seed: Seed)
    ensures
        seed@ == seed_of(content_type, initial_content@),
{
    match content_type {
        ContentType::Plain => Seed::Write { content: initial_content },
        ContentType::Html => Seed::Convert { markup: sanitize(initial_content.as_str()) },
    }
}

/// The plain-to-rich direction: turns the text that was read back into the
/// content that is reported to the controller.
pub fn plain_to_rich(content_type: ContentType, rendered: String) -> (rich: String)
    ensures
        rich@ == rich_of(content_type, rendered@),
{
    match content_type {
        ContentType::Plain => rendered,
        ContentType::Html => sanitize(rendered.as_str()),
    }
}

/// Whether reading the working file back goes through the filter.
pub fn uses_filter(content_type: ContentType) -> (filtered: bool)
    ensures
        filtered == (content_type == ContentType::Html),
{
    match content_type {
        ContentType::Plain => false,
        ContentType::Html => true,
    }
}

/// Name of the working file inside the session's workspace.
pub fn working_file_name(content_type: ContentType) -> (name: String)
    ensures
        content_type == ContentType::Plain ==> name@ == "input"@,
        content_type == ContentType::Html ==> name@ == "input.md"@,
{
    match content_type {
        ContentType::Plain => String::from_str("input"),
        ContentType::Html => String::from_str("input.md"),
    }
}

/// The two runs of the conversion filter.
#[derive(Clone, Copy, Debug, PartialEq, Eq, Structural)]
pub enum Direction {
    /// Markup to the editor's text: the write path, which seeds the file.
    RichToPlain,
    /// The editor's text to markup: the read path, which feeds the updates.
    PlainToRich,
}

/// What a caller does once the filter has exited.
#[derive(Clone, Copy, Debug, PartialEq, Eq, Structural)]
pub enum FilterVerdict {
    /// The filter succeeded.
    Proceed,
    /// The filter failed on the write path: log it and go on.
    ProceedLogged,
    /// The filter failed on the read path: the caller gets an error.
    Fail,
}

/// A failing filter is logged and tolerated where it wrote the file, and is
/// an error where its output was to be read.
pub fn filter_verdict(direction: Direction, exited_ok: bool) -> (verdict: FilterVerdict)
    ensures
        exited_ok ==> verdict == FilterVerdict::Proceed,
        !exited_ok && direction == Direction::RichToPlain ==> verdict
            == FilterVerdict::ProceedLogged,
        !exited_ok && direction == Direction::PlainToRich ==> verdict == FilterVerdict::Fail,
{
    if exited_ok {
        FilterVerdict::Proceed
    } else {
        match direction {
            Direction::RichToPlain => FilterVerdict::ProceedLogged,
            Direction::PlainToRich => FilterVerdict::Fail,
        }
    }
}

/// The command line of one run of the filter: sandboxed, from the format of
/// the input to the format of the output. On the write path `path` is the
/// file to produce and the markup comes on standard input; on the read path
/// `path` is the file to read and the markup goes to standard output.
pub open spec fn filter_command(direction: Direction, path: Seq<char>) -> CommandLineView {
    CommandLineView {
        program: "converter"@,
        arguments: match direction {
            Direction::RichToPlain => seq![
                "--sandboxed"@,
                "--from"@,
                "html"@,
                "--to"@,
                "gfm"@,
                "--output"@,
                path,
            ],
            Direction::PlainToRich => seq![
                "--sandboxed"@,
                "--from"@,
                "gfm"@,
                "--to"@,
                "html"@,
                "--output"@,
                "-"@,
                path,
            ],
        },
    }
}

/// How the conversion filter is invoked for one direction on one file.
pub fn converter_command(direction: Direction, path: &str) -> (command: CommandLine)
    ensures
        command@ == filter_command(direction, path@),
{
    let mut arguments: Vec<String> = Vec::new();
    arguments.push(String::from_str("--sandboxed"));
    arguments.push(String::from_str("--from"));
    match direction {
        Direction::RichToPlain => {
            arguments.push(String::from_str("html"));
            arguments.push(String::from_str("--to"));
            arguments.push(String::from_str("gfm"));
            arguments.push(String::from_str("--output"));
            arguments.push(String::from_str(path));
        },
        Direction::PlainToRich => {
            arguments.push(String::from_str("gfm"));
            arguments.push(String::from_str("--to"));
            arguments.push(String::from_str("html"));
            arguments.push(String::from_str("--output"));
            arguments.push(String::from_str("-"));
            arguments.push(String::from_str(path));
        },
    }
    assert(arguments.deep_view() =~= filter_command(direction, path@).arguments);
    CommandLine { program: String::from_str("converter"), arguments }
}

} // verus!
