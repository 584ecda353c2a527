//! Static-analysis vulnerability reports.

use super::sast_reader::{read_report, report_of};
use super::sast_writer::{line_comments_of, narrative_of, render_line_comments, render_report};
use super::{MalformedInput, MalformedInputModel, ReportFormatHandler, Severity};
use crate::json::{json_document, parse_document};
use crate::poster::{DiffLineComment, DiffLineCommentModel};
use crate::template::RenderFault;
use crate::timestamp::Timestamp;
use vstd::prelude::*;

verus! {

/// The text that stands in for what a report leaves unsaid about a tool or
/// a scan.
pub open spec fn unspecified() -> Seq<char> {
    "unspecified"@
}

/// The scanner that reported a vulnerability.
#[derive(Debug, PartialEq, Eq)]
pub struct VulnerabilityScanner {
    pub id: String,
    pub name: String,
}

pub ghost struct VulnerabilityScannerModel {
    pub id: Seq<char>,
    pub name: Seq<char>,
}

impl View for VulnerabilityScanner {
    type V = VulnerabilityScannerModel;

    open spec fn view(&self) -> VulnerabilityScannerModel {
        VulnerabilityScannerModel { id: self.id@, name: self.name@ }
    }
}

impl VulnerabilityScannerModel {
    /// The scanner of a vulnerability that names none.
    pub open spec fn unspecified() -> VulnerabilityScannerModel {
        VulnerabilityScannerModel { id: unspecified(), name: unspecified() }
    }

    /// Neither text is empty.
    pub open spec fn wf(self) -> bool {
        self.id.len() > 0 && self.name.len() > 0
    }
}

impl Default for VulnerabilityScanner {
    fn default() -> (r: VulnerabilityScanner)
        ensures
            r@ == VulnerabilityScannerModel::unspecified(),
    {
        VulnerabilityScanner { id: "unspecified".to_owned(), name: "unspecified".to_owned() }
    }
}

/// Where in the code a vulnerability was found.
#[derive(Debug, PartialEq, Eq)]
pub struct VulnerabilityLocation {
    pub file: Option<String>,
    pub start_line: Option<u32>,
    pub end_line: Option<u32>,
}

pub ghost struct VulnerabilityLocationModel {
    pub file: Option<Seq<char>>,
    pub start_line: Option<u32>,
    pub end_line: Option<u32>,
}

impl View for VulnerabilityLocation {
    type V = VulnerabilityLocationModel;

    open spec fn view(&self) -> VulnerabilityLocationModel {
        VulnerabilityLocationModel {
            file: match self.file {
                Some(file) => Some(file@),
                None => None,
            },
            start_line: self.start_line,
            end_line: self.end_line,
        }
    }
}

impl VulnerabilityLocationModel {
    /// The location of a vulnerability that states none.
    pub open spec fn nowhere() -> VulnerabilityLocationModel {
        VulnerabilityLocationModel { file: None, start_line: None, end_line: None }
    }

    /// Whether the location names a line that a comment can be attached to:
    /// a file with a name, and a line counted from 1.
    pub open spec fn usable(self) -> bool {
        &&& self.file matches Some(file) && file.len() > 0
        &&& self.start_line matches Some(line) && line > 0
    }
}

impl Default for VulnerabilityLocation {
    fn default() -> (r: VulnerabilityLocation)
        ensures
            r@ == VulnerabilityLocationModel::nowhere(),
    {
        VulnerabilityLocation { file: None, start_line: None, end_line: None }
    }
}

impl VulnerabilityLocation {
    /// The file and line of a location that a comment can be attached to.
    pub fn anchor(&self) -> (r: Option<(&String, u32)>)
        ensures
            match r {
                Some((file, line)) => self@.usable() && self@.file == Some(file@)
                    && self@.start_line == Some(line),
                None => !self@.usable(),
            },
    {
        match (&self.file, self.start_line) {
            (Some(file), Some(line)) => {
                if file.as_str().is_empty() || line == 0 {
                    None
                } else {
                    Some((file, line))
                }
            },
            _ => None,
        }
    }
}

/// A reference to a vulnerability in a catalogue outside the report.
#[derive(Debug, PartialEq, Eq)]
pub struct VulnerabilityIdentifier {
    pub vulnerability_type: String,
    pub name: String,
    pub value: String,
    pub url: Option<String>,
}

pub ghost struct VulnerabilityIdentifierModel {
    pub vulnerability_type: Seq<char>,
    pub name: Seq<char>,
    pub value: Seq<char>,
    pub url: Option<Seq<char>>,
}

impl View for VulnerabilityIdentifier {
    type V = VulnerabilityIdentifierModel;

    open spec fn view(&self) -> VulnerabilityIdentifierModel {
        VulnerabilityIdentifierModel {
            vulnerability_type: self.vulnerability_type@,
            name: self.name@,
            value: self.value@,
            url: match self.url {
                Some(url) => Some(url@),
                None => None,
            },
        }
    }
}

/// What a list of identifiers says.
pub open spec fn identifiers_view(identifiers: Seq<VulnerabilityIdentifier>) -> Seq<
    VulnerabilityIdentifierModel,
> {
    Seq::new(identifiers.len(), |i: int| identifiers[i]@)
}

/// One finding of a report.
#[derive(Debug, PartialEq, Eq)]
pub struct Vulnerability {
    pub id: Option<String>,
    pub category: String,
    pub name: String,
    pub message: String,
    pub description: String,
    pub cve: String,
    pub severity: Severity,
    pub scanner: VulnerabilityScanner,
    pub location: VulnerabilityLocation,
    pub identifiers: Vec<VulnerabilityIdentifier>,
}

pub ghost struct VulnerabilityModel {
    pub id: Option<Seq<char>>,
    pub category: Seq<char>,
    pub name: Seq<char>,
    pub message: Seq<char>,
    pub description: Seq<char>,
    pub cve: Seq<char>,
    pub severity: Severity,
    pub scanner: VulnerabilityScannerModel,
    pub location: VulnerabilityLocationModel,
    pub identifiers: Seq<VulnerabilityIdentifierModel>,
}

impl View for Vulnerability {
    type V = VulnerabilityModel;

    open spec fn view(&self) -> VulnerabilityModel {
        VulnerabilityModel {
            id: match self.id {
                Some(id) => Some(id@),
                None => None,
            },
            category: self.category@,
            name: self.name@,
            message: self.message@,
            description: self.description@,
            cve: self.cve@,
            severity: self.severity,
            scanner: self.scanner@,
            location: self.location@,
            identifiers: identifiers_view(self.identifiers@),
        }
    }
}

/// What a list of vulnerabilities says.
pub open spec fn vulnerabilities_view(vulnerabilities: Seq<Vulnerability>) -> Seq<
    VulnerabilityModel,
> {
    Seq::new(vulnerabilities.len(), |i: int| vulnerabilities[i]@)
}

/// Who made a tool.
#[derive(Debug, PartialEq, Eq)]
pub struct SoftwareVendor {
    pub name: String,
}

pub ghost struct SoftwareVendorModel {
    pub name: Seq<char>,
}

impl View for SoftwareVendor {
    type V = SoftwareVendorModel;

    open spec fn view(&self) -> SoftwareVendorModel {
        SoftwareVendorModel { name: self.name@ }
    }
}

impl Default for SoftwareVendor {
    fn default() -> (r: SoftwareVendor)
        ensures
            r@ == (SoftwareVendorModel { name: unspecified() }),
    {
        SoftwareVendor { name: "unspecified".to_owned() }
    }
}

/// A tool that took part in a scan.
#[derive(Debug, PartialEq, Eq)]
pub struct Software {
    pub id: String,
    pub name: String,
    pub url: String,
    pub vendor: SoftwareVendor,
    pub version: String,
}

pub ghost struct SoftwareModel {
    pub id: Seq<char>,
    pub name: Seq<char>,
    pub url: Seq<char>,
    pub vendor: SoftwareVendorModel,
    pub version: Seq<char>,
}

impl View for Software {
    type V = SoftwareModel;

    open spec fn view(&self) -> SoftwareModel {
        SoftwareModel {
            id: self.id@,
            name: self.name@,
            url: self.url@,
            vendor: self.vendor@,
            version: self.version@,
        }
    }
}

impl SoftwareModel {
    /// The tool of which nothing is known.
    pub open spec fn unspecified() -> SoftwareModel {
        SoftwareModel {
            id: unspecified(),
            name: unspecified(),
            url: unspecified(),
            vendor: SoftwareVendorModel { name: unspecified() },
            version: unspecified(),
        }
    }

    /// None of the texts is empty.
    pub open spec fn wf(self) -> bool {
        &&& self.id.len() > 0
        &&& self.name.len() > 0
        &&& self.url.len() > 0
        &&& self.vendor.name.len() > 0
        &&& self.version.len() > 0
    }
}

impl Default for Software {
    fn default() -> (r: Software)
        ensures
            r@ == SoftwareModel::unspecified(),
    {
        Software {
            id: "unspecified".to_owned(),
            name: "unspecified".to_owned(),
            url: "unspecified".to_owned(),
            vendor: SoftwareVendor::default(),
            version: "unspecified".to_owned(),
        }
    }
}

/// What a report says of the scan that produced it.
#[derive(Debug, PartialEq, Eq)]
pub struct Scan {
    pub analyzer: Software,
    pub scanner: Software,
    pub scan_type: String,
    pub start_time: Timestamp,
    pub end_time: Timestamp,
    pub status: String,
}

pub ghost struct ScanModel {
    pub analyzer: SoftwareModel,
    pub scanner: SoftwareModel,
    pub scan_type: Seq<char>,
    pub start_time: Timestamp,
    pub end_time: Timestamp,
    pub status: Seq<char>,
}

impl View for Scan {
    type V = ScanModel;

    open spec fn view(&self) -> ScanModel {
        ScanModel {
            analyzer: self.analyzer@,
            scanner: self.scanner@,
            scan_type: self.scan_type@,
            start_time: self.start_time,
            end_time: self.end_time,
            status: self.status@,
        }
    }
}

impl ScanModel {
    /// The scan of a report that says nothing of its scan.
    pub open spec fn unspecified() -> ScanModel {
        ScanModel {
            analyzer: SoftwareModel::unspecified(),
            scanner: SoftwareModel::unspecified(),
            scan_type: unspecified(),
            start_time: Timestamp::spec_epoch(),
            end_time: Timestamp::spec_epoch(),
            status: unspecified(),
        }
    }
}

impl Default for Scan {
    fn default() -> (r: Scan)
        ensures
            r@ == ScanModel::unspecified(),
    {
        Scan {
            analyzer: Software::default(),
            scanner: Software::default(),
            scan_type: "unspecified".to_owned(),
            start_time: Timestamp::epoch(),
            end_time: Timestamp::epoch(),
            status: "unspecified".to_owned(),
        }
    }
}

/// A static-analysis report: its findings in the order in which the report
/// lists them, and what it says of the scan.
#[derive(Debug, PartialEq, Eq)]
pub struct SastReport {
    pub version: String,
    pub vulnerabilities: Vec<Vulnerability>,
    pub scan: Scan,
}

pub ghost struct SastReportModel {
    pub version: Seq<char>,
    pub vulnerabilities: Seq<VulnerabilityModel>,
    pub scan: ScanModel,
}

impl View for SastReport {
    type V = SastReportModel;

    open spec fn view(&self) -> SastReportModel {
        SastReportModel {
            version: self.version@,
            vulnerabilities: vulnerabilities_view(self.vulnerabilities@),
            scan: self.scan@,
        }
    }
}

impl SastReportModel {
    /// Every tool that the report names, for the scan or for a finding, has
    /// a text in each of its fields: what the report left out reads
    /// `unspecified`, and nothing reads as the empty text.
    pub open spec fn wf(self) -> bool {
        &&& self.scan.analyzer.wf()
        &&& self.scan.scanner.wf()
        &&& forall|i: int|
            0 <= i < self.vulnerabilities.len() ==> (#[trigger] self.vulnerabilities[i]).scanner.wf()
    }
}

/// The handler of static-analysis reports.
pub struct SastHandler;

/// The report that a text states: the text must be one JSON document, and
/// the document must be a report.
pub open spec fn report_of_text(text: Seq<char>) -> Result<SastReportModel, MalformedInputModel> {
    match json_document(text) {
        Err(message) => Err(MalformedInputModel::Syntax(message)),
        Ok(tree) => report_of(tree),
    }
}

impl ReportFormatHandler for SastHandler {
    type ReportFormat = SastReport;

    open spec fn parsed(text: Seq<char>) -> Result<SastReportModel, MalformedInputModel> {
        report_of_text(text)
    }

    open spec fn narrative(report: SastReportModel) -> Result<Seq<char>, Seq<char>> {
        narrative_of(report)
    }

    open spec fn line_comments(report: SastReportModel) -> Result<
        Seq<DiffLineCommentModel>,
        Seq<char>,
    > {
        line_comments_of(report)
    }

    fn parse_to_struct(s: &str) -> (r: Result<SastReport, MalformedInput>)
        ensures
            r matches Ok(report) ==> report@.wf(),
    {
        match parse_document(s) {
            Err(message) => Err(MalformedInput::Syntax(message)),
            Ok(document) => read_report(&document),
        }
    }

    fn render_to_markdown(doc: &SastReport) -> (r: Result<String, RenderFault>) {
        render_report(doc)
    }

    fn render_to_diff_line_comments(doc: &SastReport) -> (r: Result<
        Vec<DiffLineComment>,
        RenderFault,
    >) {
        render_line_comments(doc)
    }
}

} // verus!
