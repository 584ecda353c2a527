//! From a static-analysis report to text.
//!
//! A report is written in blocks, each from a template of its own: one block
//! for the report as a whole, then one for each finding, in the order of the
//! findings. The block of a finding is also the body of the comment that the
//! finding becomes on its line of code.

use super::sast::{
    identifiers_view, vulnerabilities_view, SastReport, SastReportModel, Vulnerability,
    VulnerabilityIdentifier, VulnerabilityIdentifierModel, VulnerabilityModel,
};
use crate::poster::{comments_view, DiffLineComment, DiffLineCommentModel};
use crate::sequence::{
    append_all, concat_all, lemma_filter_prefix, lemma_filter_step, lemma_try_map_fails_early,
    lemma_try_map_push, lemma_try_map_step, texts_view, try_map,
};
use crate::template::{
    fields_view, render_fragment, template_output, RenderFault, Template, FINDING_TEMPLATE,
    IDENTIFIER_TEMPLATE, REPORT_TEMPLATE,
};
use crate::text::{decimal, decimal_digits};
use vstd::prelude::*;

verus! {

/// A text that may be absent, as a field: the empty text stands for absence.
pub open spec fn text_or_empty(text: Option<Seq<char>>) -> Seq<char> {
    match text {
        Some(text) => text,
        None => Seq::empty(),
    }
}

/// A number that may be absent, as a field: its decimal numeral, and the
/// empty text for absence.
pub open spec fn numeral_or_empty(number: Option<u32>) -> Seq<char> {
    match number {
        Some(n) => decimal_digits(n as nat),
        None => Seq::empty(),
    }
}

/// The fields that [`IDENTIFIER_TEMPLATE`] is filled with.
pub open spec fn identifier_fields(identifier: VulnerabilityIdentifierModel) -> Seq<
    (Seq<char>, Seq<char>),
> {
    seq![
        ("type"@, identifier.vulnerability_type),
        ("name"@, identifier.name),
        ("value"@, identifier.value),
        ("url"@, text_or_empty(identifier.url)),
    ]
}

/// The fields that [`FINDING_TEMPLATE`] is filled with.
pub open spec fn finding_fields(finding: VulnerabilityModel) -> Seq<(Seq<char>, Seq<char>)> {
    seq![
        ("id"@, text_or_empty(finding.id)),
        ("category"@, finding.category),
        ("name"@, finding.name),
        ("message"@, finding.message),
        ("description"@, finding.description),
        ("cve"@, finding.cve),
        ("severity"@, finding.severity.label()),
        ("scanner_id"@, finding.scanner.id),
        ("scanner_name"@, finding.scanner.name),
        ("file"@, text_or_empty(finding.location.file)),
        ("start_line"@, numeral_or_empty(finding.location.start_line)),
        ("end_line"@, numeral_or_empty(finding.location.end_line)),
    ]
}

/// The fields that [`REPORT_TEMPLATE`] is filled with.
pub open spec fn report_fields(report: SastReportModel) -> Seq<(Seq<char>, Seq<char>)> {
    seq![
        ("version"@, report.version),
        ("scan_type"@, report.scan.scan_type),
        ("scan_status"@, report.scan.status),
        ("start_time"@, report.scan.start_time.label()),
        ("end_time"@, report.scan.end_time.label()),
        ("analyzer_id"@, report.scan.analyzer.id),
        ("analyzer_name"@, report.scan.analyzer.name),
        ("analyzer_url"@, report.scan.analyzer.url),
        ("analyzer_vendor"@, report.scan.analyzer.vendor.name),
        ("analyzer_version"@, report.scan.analyzer.version),
        ("scanner_id"@, report.scan.scanner.id),
        ("scanner_name"@, report.scan.scanner.name),
        ("scanner_url"@, report.scan.scanner.url),
        ("scanner_vendor"@, report.scan.scanner.vendor.name),
        ("scanner_version"@, report.scan.scanner.version),
        ("finding_count"@, decimal_digits(report.vulnerabilities.len())),
    ]
}

/// The line that an identifier is written as.
pub open spec fn identifier_line(identifier: VulnerabilityIdentifierModel) -> Result<
    Seq<char>,
    Seq<char>,
> {
    template_output(IDENTIFIER_TEMPLATE@, identifier_fields(identifier))
}

/// [`identifier_line`] as a function value.
pub open spec fn identifier_writer() -> spec_fn(VulnerabilityIdentifierModel) -> Result<
    Seq<char>,
    Seq<char>,
> {
    |identifier: VulnerabilityIdentifierModel| identifier_line(identifier)
}

/// The block that a finding is written as: what [`FINDING_TEMPLATE`] makes
/// of it, followed by the lines of its identifiers in their order.
pub open spec fn finding_block(finding: VulnerabilityModel) -> Result<Seq<char>, Seq<char>> {
    match template_output(FINDING_TEMPLATE@, finding_fields(finding)) {
        Err(message) => Err(message),
        Ok(head) => match try_map(finding.identifiers, identifier_writer()) {
            Err(message) => Err(message),
            Ok(lines) => Ok(head + concat_all(lines)),
        },
    }
}

/// [`finding_block`] as a function value.
pub open spec fn block_writer() -> spec_fn(VulnerabilityModel) -> Result<Seq<char>, Seq<char>> {
    |finding: VulnerabilityModel| finding_block(finding)
}

/// The narrative of a report: what [`REPORT_TEMPLATE`] makes of it, followed
/// by the blocks of its findings in their order.
pub open spec fn narrative_of(report: SastReportModel) -> Result<Seq<char>, Seq<char>> {
    match template_output(REPORT_TEMPLATE@, report_fields(report)) {
        Err(message) => Err(message),
        Ok(head) => match try_map(report.vulnerabilities, block_writer()) {
            Err(message) => Err(message),
            Ok(blocks) => Ok(head + concat_all(blocks)),
        },
    }
}

fn put(fields: &mut Vec<(String, String)>, name: &str, text: String)
    ensures
        fields_view(final(fields)@) == fields_view(old(fields)@).push((name@, text@)),
{
    fields.push((name.to_owned(), text));
    assert(fields_view(fields@) =~= fields_view(old(fields)@).push((name@, text@)));
}

fn owned_or_empty(text: &Option<String>) -> (r: String)
    ensures
        r@ == text_or_empty(
            match *text {
                Some(t) => Some(t@),
                None => None,
            },
        ),
{
    match text {
        Some(t) => t.clone(),
        None => String::new(),
    }
}

fn decimal_or_empty(number: Option<u32>) -> (r: String)
    ensures
        r@ == numeral_or_empty(number),
{
    match number {
        Some(n) => decimal(n as u64),
        None => String::new(),
    }
}

/// The fields of an identifier, as the template engine takes them.
pub fn fields_of_identifier(identifier: &VulnerabilityIdentifier) -> (r: Vec<(String, String)>)
    ensures
        fields_view(r@) == identifier_fields(identifier@),
{
    let mut fields: Vec<(String, String)> = Vec::new();
    assert(fields_view(fields@) =~= Seq::empty());
    put(&mut fields, "type", identifier.vulnerability_type.clone());
    put(&mut fields, "name", identifier.name.clone());
    put(&mut fields, "value", identifier.value.clone());
    put(&mut fields, "url", owned_or_empty(&identifier.url));
    assert(fields_view(fields@) =~= identifier_fields(identifier@));
    fields
}

/// The fields of a finding, as the template engine takes them.
pub fn fields_of_finding(finding: &Vulnerability) -> (r: Vec<(String, String)>)
    ensures
        fields_view(r@) == finding_fields(finding@),
{
    let mut fields: Vec<(String, String)> = Vec::new();
    assert(fields_view(fields@) =~= Seq::empty());
    put(&mut fields, "id", owned_or_empty(&finding.id));
    put(&mut fields, "category", finding.category.clone());
    put(&mut fields, "name", finding.name.clone());
    put(&mut fields, "message", finding.message.clone());
    put(&mut fields, "description", finding.description.clone());
    put(&mut fields, "cve", finding.cve.clone());
    put(&mut fields, "severity", finding.severity.to_text());
    put(&mut fields, "scanner_id", finding.scanner.id.clone());
    put(&mut fields, "scanner_name", finding.scanner.name.clone());
    put(&mut fields, "file", owned_or_empty(&finding.location.file));
    put(&mut fields, "start_line", decimal_or_empty(finding.location.start_line));
    put(&mut fields, "end_line", decimal_or_empty(finding.location.end_line));
    assert(fields_view(fields@) =~= finding_fields(finding@));
    fields
}

/// The fields of a report, as the template engine takes them.
pub fn fields_of_report(report: &SastReport) -> (r: Vec<(String, String)>)
    ensures
        fields_view(r@) == report_fields(report@),
{
    let mut fields: Vec<(String, String)> = Vec::new();
    assert(fields_view(fields@) =~= Seq::empty());
    put(&mut fields, "version", report.version.clone());
    put(&mut fields, "scan_type", report.scan.scan_type.clone());
    put(&mut fields, "scan_status", report.scan.status.clone());
    put(&mut fields, "start_time", report.scan.start_time.to_text());
    put(&mut fields, "end_time", report.scan.end_time.to_text());
    put(&mut fields, "analyzer_id", report.scan.analyzer.id.clone());
    put(&mut fields, "analyzer_name", report.scan.analyzer.name.clone());
    put(&mut fields, "analyzer_url", report.scan.analyzer.url.clone());
    put(&mut fields, "analyzer_vendor", report.scan.analyzer.vendor.name.clone());
    put(&mut fields, "analyzer_version", report.scan.analyzer.version.clone());
    put(&mut fields, "scanner_id", report.scan.scanner.id.clone());
    put(&mut fields, "scanner_name", report.scan.scanner.name.clone());
    put(&mut fields, "scanner_url", report.scan.scanner.url.clone());
    put(&mut fields, "scanner_vendor", report.scan.scanner.vendor.name.clone());
    put(&mut fields, "scanner_version", report.scan.scanner.version.clone());
    put(&mut fields, "finding_count", decimal(report.vulnerabilities.len() as u64));
    assert(fields_view(fields@) =~= report_fields(report@));
    fields
}

/// Writes the block of a finding.
pub fn render_finding(finding: &Vulnerability) -> (r: Result<String, RenderFault>)
    ensures
        match r {
            Ok(text) => finding_block(finding@) == Ok::<Seq<char>, Seq<char>>(text@),
            Err(fault) => finding_block(finding@) == Err::<Seq<char>, Seq<char>>(fault@),
        },
{
    let fields = fields_of_finding(finding);
    let head = render_fragment(Template::Finding, &fields)?;
    let ghost identifiers = identifiers_view(finding.identifiers@);
    let mut lines: Vec<String> = Vec::new();
    let mut i: usize = 0;
    assert(texts_view(lines@) =~= Seq::empty());
    while i < finding.identifiers.len()
        invariant
            i <= finding.identifiers.len(),
            identifiers == identifiers_view(finding.identifiers@),
            identifiers == finding@.identifiers,
            template_output(FINDING_TEMPLATE@, finding_fields(finding@)) == Ok::<
                Seq<char>,
                Seq<char>,
            >(head@),
            try_map(identifiers.take(i as int), identifier_writer()) == Ok::<
                Seq<Seq<char>>,
                Seq<char>,
            >(texts_view(lines@)),
        decreases finding.identifiers.len() - i,
    {
        proof {
            lemma_try_map_step(identifiers, identifier_writer(), i as int);
        }
        let fields = fields_of_identifier(&finding.identifiers[i]);
        match render_fragment(Template::Identifier, &fields) {
            Err(fault) => {
                proof {
                    lemma_try_map_fails_early(identifiers, identifier_writer(), i + 1);
                }
                return Err(fault);
            },
            Ok(line) => {
                let ghost before = texts_view(lines@);
                lines.push(line);
                assert(texts_view(lines@) =~= before.push(line@));
            },
        }
        i += 1;
    }
    assert(identifiers.take(i as int) =~= identifiers);
    Ok(append_all(head, &lines))
}

/// Writes the narrative of a report.
pub fn render_report(report: &SastReport) -> (r: Result<String, RenderFault>)
    ensures
        match r {
            Ok(text) => narrative_of(report@) == Ok::<Seq<char>, Seq<char>>(text@),
            Err(fault) => narrative_of(report@) == Err::<Seq<char>, Seq<char>>(fault@),
        },
{
    let fields = fields_of_report(report);
    let head = render_fragment(Template::Report, &fields)?;
    let ghost findings = vulnerabilities_view(report.vulnerabilities@);
    let mut blocks: Vec<String> = Vec::new();
    let mut i: usize = 0;
    assert(texts_view(blocks@) =~= Seq::empty());
    while i < report.vulnerabilities.len()
        invariant
            i <= report.vulnerabilities.len(),
            findings == vulnerabilities_view(report.vulnerabilities@),
            findings == report@.vulnerabilities,
            template_output(REPORT_TEMPLATE@, report_fields(report@)) == Ok::<
                Seq<char>,
                Seq<char>,
            >(head@),
            try_map(findings.take(i as int), block_writer()) == Ok::<Seq<Seq<char>>, Seq<char>>(
                texts_view(blocks@),
            ),
        decreases report.vulnerabilities.len() - i,
    {
        proof {
            lemma_try_map_step(findings, block_writer(), i as int);
        }
        match render_finding(&report.vulnerabilities[i]) {
            Err(fault) => {
                proof {
                    lemma_try_map_fails_early(findings, block_writer(), i + 1);
                }
                return Err(fault);
            },
            Ok(block) => {
                let ghost before = texts_view(blocks@);
                blocks.push(block);
                assert(texts_view(blocks@) =~= before.push(block@));
            },
        }
        i += 1;
    }
    assert(findings.take(i as int) =~= findings);
    Ok(append_all(head, &blocks))
}

/// Whether a finding says where it is, so that a comment can be attached
/// to its line.
pub open spec fn has_anchor() -> spec_fn(VulnerabilityModel) -> bool {
    |finding: VulnerabilityModel| finding.location.usable()
}

/// The findings that say where they are, in their order.
pub open spec fn located(findings: Seq<VulnerabilityModel>) -> Seq<VulnerabilityModel> {
    findings.filter(has_anchor())
}

/// The comment that a finding becomes: on the first line of its location,
/// with its block as the body. The last line of the location plays no part.
pub open spec fn comment_of(finding: VulnerabilityModel) -> Result<DiffLineCommentModel, Seq<char>> {
    match finding_block(finding) {
        Err(message) => Err(message),
        Ok(body) => Ok(
            DiffLineCommentModel {
                path: text_or_empty(finding.location.file),
                line: match finding.location.start_line {
                    Some(line) => line,
                    None => 0,
                },
                body,
            },
        ),
    }
}

/// [`comment_of`] as a function value.
pub open spec fn comment_writer() -> spec_fn(VulnerabilityModel) -> Result<
    DiffLineCommentModel,
    Seq<char>,
> {
    |finding: VulnerabilityModel| comment_of(finding)
}

/// The comments of a report: one for each finding that says where it is, in
/// the order of the findings. Two findings on one line make two comments.
pub open spec fn line_comments_of(report: SastReportModel) -> Result<
    Seq<DiffLineCommentModel>,
    Seq<char>,
> {
    try_map(located(report.vulnerabilities), comment_writer())
}

/// Writes the comments of a report.
pub fn render_line_comments(report: &SastReport) -> (r: Result<Vec<DiffLineComment>, RenderFault>)
    ensures
        match r {
            Ok(comments) => line_comments_of(report@) == Ok::<
                Seq<DiffLineCommentModel>,
                Seq<char>,
            >(comments_view(comments@)),
            Err(fault) => line_comments_of(report@) == Err::<
                Seq<DiffLineCommentModel>,
                Seq<char>,
            >(fault@),
        },
{
    let ghost findings = vulnerabilities_view(report.vulnerabilities@);
    let mut out: Vec<DiffLineComment> = Vec::new();
    let mut i: usize = 0;
    proof {
        reveal(Seq::filter);
        assert(findings.take(0).filter(has_anchor()) =~= Seq::empty());
        assert(comments_view(out@) =~= Seq::empty());
    }
    while i < report.vulnerabilities.len()
        invariant
            i <= report.vulnerabilities.len(),
            findings == vulnerabilities_view(report.vulnerabilities@),
            findings == report@.vulnerabilities,
            try_map(located(findings.take(i as int)), comment_writer()) == Ok::<
                Seq<DiffLineCommentModel>,
                Seq<char>,
            >(comments_view(out@)),
        decreases report.vulnerabilities.len() - i,
    {
        let finding = &report.vulnerabilities[i];
        proof {
            lemma_filter_step(findings, has_anchor(), i as int);
            lemma_try_map_push(
                located(findings.take(i as int)),
                comment_writer(),
                findings[i as int],
            );
        }
        match finding.location.anchor() {
            None => {},
            Some((file, line)) => {
                match render_finding(finding) {
                    Err(fault) => {
                        proof {
                            lemma_filter_prefix(findings, has_anchor(), i + 1);
                            lemma_try_map_fails_early(
                                located(findings),
                                comment_writer(),
                                located(findings.take(i + 1)).len() as int,
                            );
                        }
                        return Err(fault);
                    },
                    Ok(body) => {
                        let ghost before = comments_view(out@);
                        let comment = DiffLineComment { path: file.clone(), line, body };
                        out.push(comment);
                        assert(comments_view(out@) =~= before.push(comment@));
                    },
                }
            },
        }
        i += 1;
    }
    assert(findings.take(i as int) =~= findings);
    Ok(out)
}

} // verus!
