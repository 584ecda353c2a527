//! From the text of a report to what is posted.

use crate::input_formats::sast::SastHandler;
use crate::input_formats::{Handlers, MalformedInput, MalformedInputModel, ReportFormatHandler};
use crate::poster::{comments_view, DiffLineComment, DiffLineCommentModel};
use crate::template::RenderFault;
use vstd::prelude::*;

verus! {

/// Why a text did not become something to post.
#[derive(Debug, PartialEq, Eq)]
pub enum ReportError {
    /// There is no text at all.
    EmptyInput,
    /// The text is not a report of the format asked for.
    MalformedInput(MalformedInput),
    /// The template engine failed on a report that was read.
    Rendering(RenderFault),
}

/// What a [`ReportError`] says.
pub ghost enum ReportErrorModel {
    EmptyInput,
    MalformedInput(MalformedInputModel),
    Rendering(Seq<char>),
}

impl View for ReportError {
    type V = ReportErrorModel;

    open spec fn view(&self) -> ReportErrorModel {
        match self {
            ReportError::EmptyInput => ReportErrorModel::EmptyInput,
            ReportError::MalformedInput(fault) => ReportErrorModel::MalformedInput(fault@),
            ReportError::Rendering(fault) => ReportErrorModel::Rendering(fault@),
        }
    }
}

impl ReportErrorModel {
    /// A sentence that states the fault.
    pub open spec fn sentence(self) -> Seq<char> {
        match self {
            ReportErrorModel::EmptyInput => "the input is empty"@,
            ReportErrorModel::MalformedInput(fault) => fault.sentence(),
            ReportErrorModel::Rendering(message) => "rendering failed: "@ + message,
        }
    }
}

impl ReportError {
    /// A sentence that states the fault.
    pub fn to_text(&self) -> (r: String)
        ensures
            r@ == self@.sentence(),
    {
        match self {
            ReportError::EmptyInput => "the input is empty".to_owned(),
            ReportError::MalformedInput(fault) => fault.to_text(),
            ReportError::Rendering(fault) => "rendering failed: ".to_owned().concat(
                fault.message.as_str(),
            ),
        }
    }
}

/// The narrative that a text becomes when it is read as a report of the
/// format given. A text without a single character is refused before any
/// reading; a text that is not a report is refused before any rendering.
pub open spec fn narrative_of_text(handler: Handlers, raw_doc: Seq<char>) -> Result<
    Seq<char>,
    ReportErrorModel,
> {
    if raw_doc.len() == 0 {
        Err(ReportErrorModel::EmptyInput)
    } else {
        match handler {
            Handlers::Sast => match SastHandler::parsed(raw_doc) {
                Err(fault) => Err(ReportErrorModel::MalformedInput(fault)),
                Ok(report) => match SastHandler::narrative(report) {
                    Err(message) => Err(ReportErrorModel::Rendering(message)),
                    Ok(text) => Ok(text),
                },
            },
        }
    }
}

/// The comments that a text becomes when it is read as a report of the
/// format given.
pub open spec fn line_comments_of_text(handler: Handlers, raw_doc: Seq<char>) -> Result<
    Seq<DiffLineCommentModel>,
    ReportErrorModel,
> {
    if raw_doc.len() == 0 {
        Err(ReportErrorModel::EmptyInput)
    } else {
        match handler {
            Handlers::Sast => match SastHandler::parsed(raw_doc) {
                Err(fault) => Err(ReportErrorModel::MalformedInput(fault)),
                Ok(report) => match SastHandler::line_comments(report) {
                    Err(message) => Err(ReportErrorModel::Rendering(message)),
                    Ok(comments) => Ok(comments),
                },
            },
        }
    }
}

/// Reads a report and writes it as one narrative document.
pub fn render_to_comment(handler: Handlers, raw_doc: &str) -> (r: Result<String, ReportError>)
    ensures
        match r {
            Ok(text) => narrative_of_text(handler, raw_doc@) == Ok::<Seq<char>, ReportErrorModel>(
                text@,
            ),
            Err(fault) => narrative_of_text(handler, raw_doc@) == Err::<
                Seq<char>,
                ReportErrorModel,
            >(fault@),
        },
{
    if raw_doc.is_empty() {
        return Err(ReportError::EmptyInput);
    }
    match handler {
        Handlers::Sast => match SastHandler::parse_to_struct(raw_doc) {
            Err(fault) => Err(ReportError::MalformedInput(fault)),
            Ok(report) => match SastHandler::render_to_markdown(&report) {
                Err(fault) => Err(ReportError::Rendering(fault)),
                Ok(text) => Ok(text),
            },
        },
    }
}

/// Reads a report and writes each finding that says where it is as a comment
/// on its line.
pub fn render_to_diffs(handler: Handlers, raw_doc: &str) -> (r: Result<
    Vec<DiffLineComment>,
    ReportError,
>)
    ensures
        match r {
            Ok(comments) => line_comments_of_text(handler, raw_doc@) == Ok::<
                Seq<DiffLineCommentModel>,
                ReportErrorModel,
            >(comments_view(comments@)),
            Err(fault) => line_comments_of_text(handler, raw_doc@) == Err::<
                Seq<DiffLineCommentModel>,
                ReportErrorModel,
            >(fault@),
        },
{
    if raw_doc.is_empty() {
        return Err(ReportError::EmptyInput);
    }
    match handler {
        Handlers::Sast => match SastHandler::parse_to_struct(raw_doc) {
            Err(fault) => Err(ReportError::MalformedInput(fault)),
            Ok(report) => match SastHandler::render_to_diff_line_comments(&report) {
                Err(fault) => Err(ReportError::Rendering(fault)),
                Ok(comments) => Ok(comments),
            },
        },
    }
}

} // verus!
