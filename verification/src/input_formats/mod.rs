//! Report formats, and what each must be able to do.

use crate::poster::{DiffLineComment, DiffLineCommentModel};
use crate::template::RenderFault;
use crate::text::text_is;
use vstd::prelude::*;

pub mod sast;
pub mod sast_laws;
pub mod sast_reader;
pub mod sast_writer;
pub mod schema;


verus! {

/// How grave a finding is. The order is that of the declaration:
/// `Info < Low < Medium < High < Critical`.
#[derive(Clone, Copy, Debug, PartialEq, Eq, PartialOrd, Ord, Hash, Structural)]
pub enum Severity {
    Info,
    Low,
    Medium,
    High,
    Critical,
}

impl Severity {
    /// The place of a severity in the order, from 0 for `Info`.
    pub open spec fn rank(self) -> nat {
        match self {
            Severity::Info => 0,
            Severity::Low => 1,
            Severity::Medium => 2,
            Severity::High => 3,
            Severity::Critical => 4,
        }
    }

    /// The place of a severity in the order, from 0 for `Info`.
    pub fn level(&self) -> (r: u8)
        ensures
            r == self.rank(),
    {
        match self {
            Severity::Info => 0,
            Severity::Low => 1,
            Severity::Medium => 2,
            Severity::High => 3,
            Severity::Critical => 4,
        }
    }

    /// The name under which a severity is shown, and under which a report
    /// states it.
    pub open spec fn label(self) -> Seq<char> {
        match self {
            Severity::Info => "Info"@,
            Severity::Low => "Low"@,
            Severity::Medium => "Medium"@,
            Severity::High => "High"@,
            Severity::Critical => "Critical"@,
        }
    }

    /// The name under which a severity is shown.
    pub fn to_text(&self) -> (r: String)
        ensures
            r@ == self.label(),
    {
        match self {
            Severity::Info => "Info".to_owned(),
            Severity::Low => "Low".to_owned(),
            Severity::Medium => "Medium".to_owned(),
            Severity::High => "High".to_owned(),
            Severity::Critical => "Critical".to_owned(),
        }
    }

    /// The severity that a label names. A label that names none stands for
    /// `Info`.
    pub open spec fn of_label(label: Seq<char>) -> Severity {
        if label == "Low"@ {
            Severity::Low
        } else if label == "Medium"@ {
            Severity::Medium
        } else if label == "High"@ {
            Severity::High
        } else if label == "Critical"@ {
            Severity::Critical
        } else {
            Severity::Info
        }
    }

    /// Reads a severity from its label. Anything that is not the label of a
    /// severity reads as `Info`.
    pub fn from_label(label: &String) -> (r: Severity)
        ensures
            r == Severity::of_label(label@),
    {
        if text_is(label, "Low") {
            Severity::Low
        } else if text_is(label, "Medium") {
            Severity::Medium
        } else if text_is(label, "High") {
            Severity::High
        } else if text_is(label, "Critical") {
            Severity::Critical
        } else {
            Severity::Info
        }
    }
}

impl Default for Severity {
    fn default() -> (r: Severity)
        ensures
            r == Severity::Info,
    {
        Severity::Info
    }
}

/// Every severity is read back from its own label.
pub proof fn lemma_label_names_its_severity(severity: Severity)
    ensures
        Severity::of_label(severity.label()) == severity,
        severity.label().len() > 0,
{
    reveal_strlit("Info");
    reveal_strlit("Low");
    reveal_strlit("Medium");
    reveal_strlit("High");
    reveal_strlit("Critical");
    match severity {
        Severity::Info => {
            assert("Info"@[0] == 'I');
        },
        Severity::Low => {},
        Severity::Medium => {
            assert("Medium"@[0] == 'M');
        },
        Severity::High => {
            assert("High"@[0] == 'H');
        },
        Severity::Critical => {
            assert("Critical"@[0] == 'C');
        },
    }
}

/// Why a text is not a report of the format it was read as.
#[derive(Debug, PartialEq, Eq)]
pub enum MalformedInput {
    /// The text is not a JSON document: the parser's message.
    Syntax(String),
    /// A member that the format requires is not there: its name.
    MissingField(String),
    /// A value is of a kind that the format does not accept in its place:
    /// the name of the member that holds it, or `$` for the document itself.
    /// For an item of an array the name is that of the array.
    UnexpectedValue(String),
}

/// What a [`MalformedInput`] says.
pub ghost enum MalformedInputModel {
    Syntax(Seq<char>),
    MissingField(Seq<char>),
    UnexpectedValue(Seq<char>),
}

impl View for MalformedInput {
    type V = MalformedInputModel;

    open spec fn view(&self) -> MalformedInputModel {
        match self {
            MalformedInput::Syntax(message) => MalformedInputModel::Syntax(message@),
            MalformedInput::MissingField(name) => MalformedInputModel::MissingField(name@),
            MalformedInput::UnexpectedValue(name) => MalformedInputModel::UnexpectedValue(name@),
        }
    }
}

impl MalformedInputModel {
    /// A sentence that states the fault.
    pub open spec fn sentence(self) -> Seq<char> {
        match self {
            MalformedInputModel::Syntax(message) => "not a JSON document: "@ + message,
            MalformedInputModel::MissingField(name) => "missing field: "@ + name,
            MalformedInputModel::UnexpectedValue(name) => "unexpected value in: "@ + name,
        }
    }
}

impl MalformedInput {
    /// A sentence that states the fault.
    pub fn to_text(&self) -> (r: String)
        ensures
            r@ == self@.sentence(),
    {
        match self {
            MalformedInput::Syntax(message) => "not a JSON document: ".to_owned().concat(
                message.as_str(),
            ),
            MalformedInput::MissingField(name) => "missing field: ".to_owned().concat(
                name.as_str(),
            ),
            MalformedInput::UnexpectedValue(name) => "unexpected value in: ".to_owned().concat(
                name.as_str(),
            ),
        }
    }
}

/// What a report format must be able to do: read a report from a text, and
/// render a report it has read, as one narrative document and as comments on
/// lines of code.
///
/// The three spec functions say what the three operations yield. Rendering
/// goes through a template engine, so it can in principle fail; what it
/// yields where it does not fail depends on the report alone.
pub trait ReportFormatHandler {
    type ReportFormat: View;

    /// The report that a text states, or why it states none.
    spec fn parsed(text: Seq<char>) -> Result<<Self::ReportFormat as View>::V, MalformedInputModel>;

    /// The narrative document for a report.
    spec fn narrative(report: <Self::ReportFormat as View>::V) -> Result<Seq<char>, Seq<char>>;

    /// The comments for a report: one for each finding that says where it
    /// is, in the order of the findings.
    spec fn line_comments(report: <Self::ReportFormat as View>::V) -> Result<
        Seq<DiffLineCommentModel>,
        Seq<char>,
    >;

    fn parse_to_struct(s: &str) -> (r: Result<Self::ReportFormat, MalformedInput>)
        ensures
            match r {
                Ok(report) => Self::parsed(s@) == Ok::<
                    <Self::ReportFormat as View>::V,
                    MalformedInputModel,
                >(report@),
                Err(fault) => Self::parsed(s@) == Err::<
                    <Self::ReportFormat as View>::V,
                    MalformedInputModel,
                >(fault@),
            },
    ;

    fn render_to_markdown(doc: &Self::ReportFormat) -> (r: Result<String, RenderFault>)
        ensures
            match r {
                Ok(text) => Self::narrative(doc@) == Ok::<Seq<char>, Seq<char>>(text@),
                Err(fault) => Self::narrative(doc@) == Err::<Seq<char>, Seq<char>>(fault@),
            },
    ;

    fn render_to_diff_line_comments(doc: &Self::ReportFormat) -> (r: Result<
        Vec<DiffLineComment>,
        RenderFault,
    >)
        ensures
            match r {
                Ok(comments) => Self::line_comments(doc@) == Ok::<
                    Seq<DiffLineCommentModel>,
                    Seq<char>,
                >(crate::poster::comments_view(comments@)),
                Err(fault) => Self::line_comments(doc@) == Err::<
                    Seq<DiffLineCommentModel>,
                    Seq<char>,
                >(fault@),
            },
    ;
}

/// The report formats that the library reads.
#[derive(Clone, Copy, Debug, PartialEq, Eq, Structural)]
pub enum Handlers {
    Sast,
}

} // verus!
