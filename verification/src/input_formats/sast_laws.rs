//! What holds of every static-analysis report, read or written.

use super::sast::{
    unspecified, SastReportModel, ScanModel, SoftwareModel, VulnerabilityLocationModel,
    VulnerabilityModel, VulnerabilityScannerModel,
};
use super::sast_reader::{
    location_of, report_of, scan_of, scanner_of, software_in, software_of, vulnerability_of,
    vulnerability_reader,
};
use super::sast_writer::{
    block_writer, comment_writer, finding_block, has_anchor, line_comments_of, located,
    narrative_of, report_fields,
};
use super::schema::nonempty_text_or;
use super::{MalformedInputModel, Severity};
use crate::json::{member, JsonTree};
use crate::poster::DiffLineCommentModel;
use crate::sequence::{concat_all, lemma_try_map_keeps_order, try_map};
use crate::template::{template_output, REPORT_TEMPLATE};
use crate::text::decimal_digits;
use crate::timestamp::Timestamp;
use vstd::prelude::*;

verus! {

/// A finding that states its category, its message and its description, and
/// nothing else, is read with every other field at its default: no id, no
/// name, no CVE, the severity `Info`, the unspecified scanner, no location
/// and no identifiers.
pub proof fn lemma_minimal_finding_takes_every_default(
    members: Seq<(Seq<char>, JsonTree)>,
    category: Seq<char>,
    message: Seq<char>,
    description: Seq<char>,
)
    requires
        member(members, "category"@) == Some(JsonTree::Text(category)),
        member(members, "message"@) == Some(JsonTree::Text(message)),
        member(members, "description"@) == Some(JsonTree::Text(description)),
        forall|key: Seq<char>|
            key != "category"@ && key != "message"@ && key != "description"@ ==> member(
                members,
                key,
            ) is None,
    ensures
        vulnerability_of(JsonTree::Object(members)) == Ok::<VulnerabilityModel, MalformedInputModel>(
            VulnerabilityModel {
                id: None,
                category,
                name: Seq::empty(),
                message,
                description,
                cve: Seq::empty(),
                severity: Severity::Info,
                scanner: VulnerabilityScannerModel::unspecified(),
                location: VulnerabilityLocationModel::nowhere(),
                identifiers: Seq::empty(),
            },
        ),
{
    reveal_strlit("category");
    reveal_strlit("message");
    reveal_strlit("description");
    reveal_strlit("id");
    reveal_strlit("name");
    reveal_strlit("cve");
    reveal_strlit("severity");
    reveal_strlit("scanner");
    reveal_strlit("location");
    reveal_strlit("identifiers");
    assert("category"@.len() == 8);
    assert("message"@.len() == 7);
    assert("description"@.len() == 11);
    assert("id"@.len() == 2);
    assert("name"@.len() == 4);
    assert("cve"@.len() == 3);
    assert("severity"@.len() == 8);
    assert("scanner"@.len() == 7);
    assert("location"@.len() == 8);
    assert("identifiers"@.len() == 11);
    assert("severity"@[0] != "category"@[0]);
    assert("location"@[0] != "category"@[0]);
    assert("scanner"@[0] != "message"@[0]);
    assert("identifiers"@[0] != "description"@[0]);
    assert(member(members, "id"@) is None);
    assert(member(members, "name"@) is None);
    assert(member(members, "cve"@) is None);
    assert(member(members, "severity"@) is None);
    assert(member(members, "scanner"@) is None);
    assert(member(members, "location"@) is None);
    assert(member(members, "identifiers"@) is None);
}

/// A location that states its file and its first line, and nothing else, is
/// read without a last line.
pub proof fn lemma_minimal_location_has_no_end_line(
    members: Seq<(Seq<char>, JsonTree)>,
    file: Seq<char>,
    line: u32,
)
    requires
        member(members, "file"@) == Some(JsonTree::Text(file)),
        member(members, "start_line"@) == Some(JsonTree::Number(Some(line as u64))),
        forall|key: Seq<char>|
            key != "file"@ && key != "start_line"@ ==> member(members, key) is None,
    ensures
        location_of(JsonTree::Object(members)) == Ok::<
            VulnerabilityLocationModel,
            MalformedInputModel,
        >(VulnerabilityLocationModel { file: Some(file), start_line: Some(line), end_line: None }),
{
    reveal_strlit("file");
    reveal_strlit("start_line");
    reveal_strlit("end_line");
    assert("file"@.len() == 4);
    assert("start_line"@.len() == 10);
    assert("end_line"@.len() == 8);
    assert(member(members, "end_line"@) is None);
}

/// A tool of which the report states nothing is read as the unspecified
/// tool, whether the report leaves the tool out or gives it without a member.
pub proof fn lemma_unstated_tool_is_unspecified(
    members: Seq<(Seq<char>, JsonTree)>,
    role: Seq<char>,
    inner: Seq<(Seq<char>, JsonTree)>,
)
    requires
        forall|key: Seq<char>| member(inner, key) is None,
    ensures
        member(members, role) is None ==> software_in(members, role) == Ok::<
            SoftwareModel,
            MalformedInputModel,
        >(SoftwareModel::unspecified()),
        software_of(JsonTree::Object(inner), role) == Ok::<SoftwareModel, MalformedInputModel>(
            SoftwareModel::unspecified(),
        ),
        scanner_of(JsonTree::Object(inner)) == Ok::<VulnerabilityScannerModel, MalformedInputModel>(
            VulnerabilityScannerModel::unspecified(),
        ),
{
    assert(member(inner, "id"@) is None);
    assert(member(inner, "name"@) is None);
    assert(member(inner, "url"@) is None);
    assert(member(inner, "vendor"@) is None);
    assert(member(inner, "version"@) is None);
}

/// A scan that states its type and its status, and nothing else, is read
/// with unspecified tools and with both times at the epoch.
pub proof fn lemma_minimal_scan_takes_every_default(
    members: Seq<(Seq<char>, JsonTree)>,
    scan_type: Seq<char>,
    status: Seq<char>,
)
    requires
        member(members, "type"@) == Some(JsonTree::Text(scan_type)),
        member(members, "status"@) == Some(JsonTree::Text(status)),
        forall|key: Seq<char>| key != "type"@ && key != "status"@ ==> member(members, key) is None,
    ensures
        scan_of(JsonTree::Object(members)) == Ok::<ScanModel, MalformedInputModel>(
            ScanModel {
                analyzer: SoftwareModel::unspecified(),
                scanner: SoftwareModel::unspecified(),
                scan_type,
                start_time: Timestamp::spec_epoch(),
                end_time: Timestamp::spec_epoch(),
                status,
            },
        ),
{
    reveal_strlit("type");
    reveal_strlit("status");
    reveal_strlit("analyzer");
    reveal_strlit("scanner");
    reveal_strlit("start_time");
    reveal_strlit("end_time");
    assert("type"@.len() == 4);
    assert("status"@.len() == 6);
    assert("analyzer"@.len() == 8);
    assert("scanner"@.len() == 7);
    assert("start_time"@.len() == 10);
    assert("end_time"@.len() == 8);
    assert(member(members, "analyzer"@) is None);
    assert(member(members, "scanner"@) is None);
    assert(member(members, "start_time"@) is None);
    assert(member(members, "end_time"@) is None);
}

/// A document that states its version and its findings, and nothing else,
/// is read as a report whenever each finding can be read; the report has
/// those findings in their order, and the unspecified scan.
pub proof fn lemma_minimal_report_takes_every_default(
    members: Seq<(Seq<char>, JsonTree)>,
    version: Seq<char>,
    items: Seq<JsonTree>,
    findings: Seq<VulnerabilityModel>,
)
    requires
        member(members, "version"@) == Some(JsonTree::Text(version)),
        member(members, "vulnerabilities"@) == Some(JsonTree::Array(items)),
        forall|key: Seq<char>|
            key != "version"@ && key != "vulnerabilities"@ ==> member(members, key) is None,
        try_map(items, vulnerability_reader()) == Ok::<Seq<VulnerabilityModel>, MalformedInputModel>(
            findings,
        ),
    ensures
        report_of(JsonTree::Object(members)) == Ok::<SastReportModel, MalformedInputModel>(
            SastReportModel { version, vulnerabilities: findings, scan: ScanModel::unspecified() },
        ),
        findings.len() == items.len(),
        forall|i: int|
            0 <= i < items.len() ==> vulnerability_of(#[trigger] items[i]) == Ok::<
                VulnerabilityModel,
                MalformedInputModel,
            >(findings[i]),
{
    reveal_strlit("version");
    reveal_strlit("vulnerabilities");
    reveal_strlit("scan");
    assert("version"@.len() == 7);
    assert("vulnerabilities"@.len() == 15);
    assert("scan"@.len() == 4);
    assert(member(members, "scan"@) is None);
    lemma_try_map_keeps_order(items, vulnerability_reader());
}

proof fn lemma_tool_text_is_not_empty(members: Seq<(Seq<char>, JsonTree)>, key: Seq<char>)
    ensures
        unspecified().len() > 0,
        nonempty_text_or(members, key, unspecified()) matches Ok(text) ==> text.len() > 0,
{
    reveal_strlit("unspecified");
}

proof fn lemma_software_is_wf(members: Seq<(Seq<char>, JsonTree)>, role: Seq<char>)
    ensures
        software_in(members, role) matches Ok(software) ==> software.wf(),
{
    reveal_strlit("unspecified");
    if let Some(JsonTree::Object(inner)) = member(members, role) {
        lemma_tool_text_is_not_empty(inner, "id"@);
        lemma_tool_text_is_not_empty(inner, "name"@);
        lemma_tool_text_is_not_empty(inner, "url"@);
        lemma_tool_text_is_not_empty(inner, "version"@);
        if let Some(JsonTree::Object(innermost)) = member(inner, "vendor"@) {
            lemma_tool_text_is_not_empty(innermost, "name"@);
        }
    }
}

/// In every report that is read, each tool has a text in each of its
/// fields: none is empty, and what the document left out reads
/// `unspecified`.
pub proof fn lemma_read_report_is_wf(tree: JsonTree)
    ensures
        report_of(tree) matches Ok(report) ==> report.wf(),
{
    if let Ok(report) = report_of(tree) {
        let members = tree->Object_0;
        reveal_strlit("unspecified");
        match member(members, "scan"@) {
            Some(JsonTree::Object(inner)) => {
                lemma_software_is_wf(inner, "analyzer"@);
                lemma_software_is_wf(inner, "scanner"@);
            },
            _ => {},
        }
        let items = member(members, "vulnerabilities"@)->Some_0->Array_0;
        lemma_try_map_keeps_order(items, vulnerability_reader());
        assert forall|i: int| 0 <= i < report.vulnerabilities.len() implies (
        #[trigger] report.vulnerabilities[i]).scanner.wf() by {
            assert(vulnerability_of(items[i]) == Ok::<VulnerabilityModel, MalformedInputModel>(
                report.vulnerabilities[i],
            ));
            let inner = items[i]->Object_0;
            if let Some(JsonTree::Object(tool)) = member(inner, "scanner"@) {
                lemma_tool_text_is_not_empty(tool, "id"@);
                lemma_tool_text_is_not_empty(tool, "name"@);
            }
        }
    }
}

/// The comments of a report are one for each finding that says where it is,
/// in the order of the findings: each is on the file and the first line of
/// its finding, and its body is the block of its finding.
pub proof fn lemma_one_comment_for_each_located_finding(report: SastReportModel)
    ensures
        line_comments_of(report) matches Ok(comments) ==> {
            let anchored = located(report.vulnerabilities);
            &&& comments.len() == anchored.len()
            &&& forall|k: int|
                0 <= k < comments.len() ==> {
                    &&& (#[trigger] anchored[k]).location.usable()
                    &&& anchored[k].location.file == Some(comments[k].path)
                    &&& anchored[k].location.start_line == Some(comments[k].line)
                    &&& finding_block(anchored[k]) == Ok::<Seq<char>, Seq<char>>(comments[k].body)
                }
        },
{
    let anchored = located(report.vulnerabilities);
    lemma_try_map_keeps_order(anchored, comment_writer());
    if let Ok(comments) = line_comments_of(report) {
        assert forall|k: int| 0 <= k < comments.len() implies {
            &&& (#[trigger] anchored[k]).location.usable()
            &&& anchored[k].location.file == Some(comments[k].path)
            &&& anchored[k].location.start_line == Some(comments[k].line)
            &&& finding_block(anchored[k]) == Ok::<Seq<char>, Seq<char>>(comments[k].body)
        } by {
            report.vulnerabilities.lemma_filter_pred(has_anchor(), k);
            assert(comment_writer()(anchored[k]) == Ok::<DiffLineCommentModel, Seq<char>>(
                comments[k],
            ));
        }
    }
}

/// A report with one finding has one comment where the finding says where
/// it is and its block can be written, and none where the finding does not
/// say where it is.
pub proof fn lemma_comment_of_a_single_finding(report: SastReportModel)
    requires
        report.vulnerabilities.len() == 1,
    ensures
        report.vulnerabilities[0].location.usable() ==> (line_comments_of(report) matches Ok(
            comments,
        ) ==> comments.len() == 1 && report.vulnerabilities[0].location.file == Some(
            comments[0].path,
        ) && report.vulnerabilities[0].location.start_line == Some(comments[0].line)),
        report.vulnerabilities[0].location.usable() ==> (line_comments_of(report) is Ok
            <==> finding_block(report.vulnerabilities[0]) is Ok),
        !report.vulnerabilities[0].location.usable() ==> line_comments_of(report) == Ok::<
            Seq<DiffLineCommentModel>,
            Seq<char>,
        >(Seq::empty()),
{
    let findings = report.vulnerabilities;
    reveal_with_fuel(Seq::filter, 2);
    assert(findings.drop_last().len() == 0);
    if findings[0].location.usable() {
        assert(located(findings) =~= seq![findings[0]]);
        assert(seq![findings[0]].drop_last() =~= Seq::<VulnerabilityModel>::empty());
        reveal_with_fuel(try_map, 2);
    } else {
        assert(located(findings) =~= Seq::empty());
    }
}

/// A report of which no finding says where it is has no comments.
pub proof fn lemma_unlocated_findings_get_no_comment(report: SastReportModel)
    requires
        forall|i: int|
            0 <= i < report.vulnerabilities.len() ==> !(
            #[trigger] report.vulnerabilities[i]).location.usable(),
    ensures
        line_comments_of(report) == Ok::<Seq<DiffLineCommentModel>, Seq<char>>(Seq::empty()),
{
    let findings = report.vulnerabilities;
    let anchored = located(findings);
    if anchored.len() > 0 {
        findings.lemma_filter_pred(has_anchor(), 0);
        assert(anchored.contains(anchored[0]));
        findings.lemma_filter_contains_rev(has_anchor(), anchored[0]);
    }
    assert(anchored =~= Seq::empty());
}

/// The narrative of a report is its head followed by the blocks of its
/// findings, one for each finding and in the order of the findings.
pub proof fn lemma_narrative_keeps_every_finding_in_order(report: SastReportModel)
    ensures
        narrative_of(report) matches Ok(text) ==> exists|head: Seq<char>, blocks: Seq<Seq<char>>|
            {
                &&& template_output(REPORT_TEMPLATE@, report_fields(report))
                    == Ok::<Seq<char>, Seq<char>>(head)
                &&& #[trigger] (head + concat_all(blocks)) == text
                &&& blocks.len() == report.vulnerabilities.len()
                &&& forall|i: int|
                    0 <= i < blocks.len() ==> finding_block(#[trigger] report.vulnerabilities[i])
                        == Ok::<Seq<char>, Seq<char>>(blocks[i])
            },
{
    if let Ok(text) = narrative_of(report) {
        let head = template_output(
            REPORT_TEMPLATE@,
            report_fields(report),
        )->Ok_0;
        let blocks = try_map(report.vulnerabilities, block_writer())->Ok_0;
        lemma_try_map_keeps_order(report.vulnerabilities, block_writer());
        assert(head + concat_all(blocks) == text);
    }
}

/// A report without findings is written as its head alone, in which the
/// count of findings reads `0`; no block of a finding follows, and there is
/// no comment.
pub proof fn lemma_report_without_findings_has_no_block(report: SastReportModel)
    requires
        report.vulnerabilities.len() == 0,
    ensures
        narrative_of(report) == template_output(REPORT_TEMPLATE@, report_fields(report)),
        report_fields(report)[15] == ("finding_count"@, seq!['0']),
        line_comments_of(report) == Ok::<Seq<DiffLineCommentModel>, Seq<char>>(Seq::empty()),
{
    lemma_unlocated_findings_get_no_comment(report);
    if let Ok(head) = template_output(REPORT_TEMPLATE@, report_fields(report)) {
        assert(concat_all(Seq::<Seq<char>>::empty()) =~= Seq::<char>::empty());
        assert(head + Seq::<char>::empty() =~= head);
    }
    assert(decimal_digits(0) =~= seq!['0']);
}

/// Writing a report is a function of the report: the same report is written
/// as the same narrative and as the same comments, every time.
pub proof fn lemma_rendering_is_repeatable(
    report: SastReportModel,
    again: SastReportModel,
)
    requires
        report == again,
    ensures
        narrative_of(report) == narrative_of(again),
        line_comments_of(report) == line_comments_of(again),
{
}

} // verus!
