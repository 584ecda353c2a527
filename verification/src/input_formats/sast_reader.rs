//! From a JSON document to a static-analysis report.
//!
//! Each `*_of` function says what a JSON value means as a part of a report,
//! or why it cannot be one; the function below it computes just that. The
//! members of an object are examined in the order in which the part's fields
//! are declared, and the first fault found is the one reported.

use super::sast::{
    identifiers_view, unspecified, vulnerabilities_view, SastReport, SastReportModel, Scan,
    ScanModel, Software, SoftwareModel, SoftwareVendor, SoftwareVendorModel, Vulnerability,
    VulnerabilityIdentifier, VulnerabilityIdentifierModel, VulnerabilityLocation,
    VulnerabilityLocationModel, VulnerabilityModel, VulnerabilityScanner,
    VulnerabilityScannerModel,
};
use super::sast_laws::lemma_read_report_is_wf;
use super::schema::{
    nonempty_text_or, optional_text, optional_u32, read_nonempty_text_or, read_optional_text,
    read_optional_u32, read_required_text, read_text_or, read_time_or_epoch, required_text,
    text_or, time_or_epoch,
};
use super::{MalformedInput, MalformedInputModel, Severity};
use crate::json::{
    find_member, find_present, items_view, member, members_view, present, Json, JsonTree,
};
use crate::sequence::{lemma_try_map_fails_early, lemma_try_map_step, try_map};
use vstd::prelude::*;

verus! {

/// The identifier that a JSON value states.
pub open spec fn identifier_of(tree: JsonTree) -> Result<
    VulnerabilityIdentifierModel,
    MalformedInputModel,
> {
    match tree {
        JsonTree::Object(members) => {
            let vulnerability_type = required_text(members, "type"@);
            let name = required_text(members, "name"@);
            let value = required_text(members, "value"@);
            let url = optional_text(members, "url"@);
            if vulnerability_type is Err {
                Err(vulnerability_type->Err_0)
            } else if name is Err {
                Err(name->Err_0)
            } else if value is Err {
                Err(value->Err_0)
            } else if url is Err {
                Err(url->Err_0)
            } else {
                Ok(
                    VulnerabilityIdentifierModel {
                        vulnerability_type: vulnerability_type->Ok_0,
                        name: name->Ok_0,
                        value: value->Ok_0,
                        url: url->Ok_0,
                    },
                )
            }
        },
        _ => Err(MalformedInputModel::UnexpectedValue("identifiers"@)),
    }
}

/// [`identifier_of`] as a function value.
pub open spec fn identifier_reader() -> spec_fn(JsonTree) -> Result<
    VulnerabilityIdentifierModel,
    MalformedInputModel,
> {
    |tree: JsonTree| identifier_of(tree)
}

/// The identifiers of a finding: those of the member `identifiers`, in its
/// order, and none where the member is absent.
pub open spec fn identifiers_in(members: Seq<(Seq<char>, JsonTree)>) -> Result<
    Seq<VulnerabilityIdentifierModel>,
    MalformedInputModel,
> {
    match member(members, "identifiers"@) {
        None => Ok(Seq::empty()),
        Some(JsonTree::Array(items)) => try_map(items, identifier_reader()),
        Some(_) => Err(MalformedInputModel::UnexpectedValue("identifiers"@)),
    }
}

/// The location that a JSON value states.
pub open spec fn location_of(tree: JsonTree) -> Result<
    VulnerabilityLocationModel,
    MalformedInputModel,
> {
    match tree {
        JsonTree::Object(members) => {
            let file = optional_text(members, "file"@);
            let start_line = optional_u32(members, "start_line"@);
            let end_line = optional_u32(members, "end_line"@);
            if file is Err {
                Err(file->Err_0)
            } else if start_line is Err {
                Err(start_line->Err_0)
            } else if end_line is Err {
                Err(end_line->Err_0)
            } else {
                Ok(
                    VulnerabilityLocationModel {
                        file: file->Ok_0,
                        start_line: start_line->Ok_0,
                        end_line: end_line->Ok_0,
                    },
                )
            }
        },
        _ => Err(MalformedInputModel::UnexpectedValue("location"@)),
    }
}

/// The location of a finding: that of the member `location`, and nowhere
/// where the member is absent.
pub open spec fn location_in(members: Seq<(Seq<char>, JsonTree)>) -> Result<
    VulnerabilityLocationModel,
    MalformedInputModel,
> {
    match member(members, "location"@) {
        None => Ok(VulnerabilityLocationModel::nowhere()),
        Some(tree) => location_of(tree),
    }
}

/// The scanner of a finding that a JSON value states. A text that is
/// absent or empty reads `unspecified`.
pub open spec fn scanner_of(tree: JsonTree) -> Result<
    VulnerabilityScannerModel,
    MalformedInputModel,
> {
    match tree {
        JsonTree::Object(members) => {
            let id = nonempty_text_or(members, "id"@, unspecified());
            let name = nonempty_text_or(members, "name"@, unspecified());
            if id is Err {
                Err(id->Err_0)
            } else if name is Err {
                Err(name->Err_0)
            } else {
                Ok(VulnerabilityScannerModel { id: id->Ok_0, name: name->Ok_0 })
            }
        },
        _ => Err(MalformedInputModel::UnexpectedValue("scanner"@)),
    }
}

/// The scanner of a finding: that of the member `scanner`, and the
/// unspecified one where the member is absent.
pub open spec fn scanner_in(members: Seq<(Seq<char>, JsonTree)>) -> Result<
    VulnerabilityScannerModel,
    MalformedInputModel,
> {
    match member(members, "scanner"@) {
        None => Ok(VulnerabilityScannerModel::unspecified()),
        Some(tree) => scanner_of(tree),
    }
}

/// The severity of a finding: the one that the member `severity` names, and
/// `Info` where the member is absent or names none.
pub open spec fn severity_in(members: Seq<(Seq<char>, JsonTree)>) -> Severity {
    match member(members, "severity"@) {
        Some(JsonTree::Text(label)) => Severity::of_label(label),
        _ => Severity::Info,
    }
}

/// The finding that a JSON value states.
pub open spec fn vulnerability_of(tree: JsonTree) -> Result<VulnerabilityModel, MalformedInputModel> {
    match tree {
        JsonTree::Object(members) => {
            let id = optional_text(members, "id"@);
            let category = required_text(members, "category"@);
            let name = text_or(members, "name"@, Seq::empty());
            let message = required_text(members, "message"@);
            let description = required_text(members, "description"@);
            let cve = text_or(members, "cve"@, Seq::empty());
            let scanner = scanner_in(members);
            let location = location_in(members);
            let identifiers = identifiers_in(members);
            if id is Err {
                Err(id->Err_0)
            } else if category is Err {
                Err(category->Err_0)
            } else if name is Err {
                Err(name->Err_0)
            } else if message is Err {
                Err(message->Err_0)
            } else if description is Err {
                Err(description->Err_0)
            } else if cve is Err {
                Err(cve->Err_0)
            } else if scanner is Err {
                Err(scanner->Err_0)
            } else if location is Err {
                Err(location->Err_0)
            } else if identifiers is Err {
                Err(identifiers->Err_0)
            } else {
                Ok(
                    VulnerabilityModel {
                        id: id->Ok_0,
                        category: category->Ok_0,
                        name: name->Ok_0,
                        message: message->Ok_0,
                        description: description->Ok_0,
                        cve: cve->Ok_0,
                        severity: severity_in(members),
                        scanner: scanner->Ok_0,
                        location: location->Ok_0,
                        identifiers: identifiers->Ok_0,
                    },
                )
            }
        },
        _ => Err(MalformedInputModel::UnexpectedValue("vulnerabilities"@)),
    }
}

/// [`vulnerability_of`] as a function value.
pub open spec fn vulnerability_reader() -> spec_fn(JsonTree) -> Result<
    VulnerabilityModel,
    MalformedInputModel,
> {
    |tree: JsonTree| vulnerability_of(tree)
}

/// The findings of a report: those of the member `vulnerabilities`, which
/// must be there, in its order.
pub open spec fn vulnerabilities_in(members: Seq<(Seq<char>, JsonTree)>) -> Result<
    Seq<VulnerabilityModel>,
    MalformedInputModel,
> {
    match member(members, "vulnerabilities"@) {
        None => Err(MalformedInputModel::MissingField("vulnerabilities"@)),
        Some(JsonTree::Array(items)) => try_map(items, vulnerability_reader()),
        Some(_) => Err(MalformedInputModel::UnexpectedValue("vulnerabilities"@)),
    }
}

/// The vendor that a JSON value states. A name that is absent or empty
/// reads `unspecified`.
pub open spec fn vendor_of(tree: JsonTree) -> Result<SoftwareVendorModel, MalformedInputModel> {
    match tree {
        JsonTree::Object(members) => match nonempty_text_or(members, "name"@, unspecified()) {
            Ok(name) => Ok(SoftwareVendorModel { name }),
            Err(fault) => Err(fault),
        },
        _ => Err(MalformedInputModel::UnexpectedValue("vendor"@)),
    }
}

/// The vendor of a tool: that of the member `vendor`, and the unspecified
/// one where the member is absent.
pub open spec fn vendor_in(members: Seq<(Seq<char>, JsonTree)>) -> Result<
    SoftwareVendorModel,
    MalformedInputModel,
> {
    match member(members, "vendor"@) {
        None => Ok(SoftwareVendorModel { name: unspecified() }),
        Some(tree) => vendor_of(tree),
    }
}

/// A tool of a scan; `role` is the name of the member that holds it.
pub open spec fn software_of(tree: JsonTree, role: Seq<char>) -> Result<
    SoftwareModel,
    MalformedInputModel,
> {
    match tree {
        JsonTree::Object(members) => {
            let id = nonempty_text_or(members, "id"@, unspecified());
            let name = nonempty_text_or(members, "name"@, unspecified());
            let url = nonempty_text_or(members, "url"@, unspecified());
            let vendor = vendor_in(members);
            let version = nonempty_text_or(members, "version"@, unspecified());
            if id is Err {
                Err(id->Err_0)
            } else if name is Err {
                Err(name->Err_0)
            } else if url is Err {
                Err(url->Err_0)
            } else if vendor is Err {
                Err(vendor->Err_0)
            } else if version is Err {
                Err(version->Err_0)
            } else {
                Ok(
                    SoftwareModel {
                        id: id->Ok_0,
                        name: name->Ok_0,
                        url: url->Ok_0,
                        vendor: vendor->Ok_0,
                        version: version->Ok_0,
                    },
                )
            }
        },
        _ => Err(MalformedInputModel::UnexpectedValue(role)),
    }
}

/// A tool of a scan: that of the member `role`, and the unspecified one
/// where the member is absent.
pub open spec fn software_in(members: Seq<(Seq<char>, JsonTree)>, role: Seq<char>) -> Result<
    SoftwareModel,
    MalformedInputModel,
> {
    match member(members, role) {
        None => Ok(SoftwareModel::unspecified()),
        Some(tree) => software_of(tree, role),
    }
}

/// The scan that a JSON value states.
pub open spec fn scan_of(tree: JsonTree) -> Result<ScanModel, MalformedInputModel> {
    match tree {
        JsonTree::Object(members) => {
            let analyzer = software_in(members, "analyzer"@);
            let scanner = software_in(members, "scanner"@);
            let scan_type = required_text(members, "type"@);
            let start_time = time_or_epoch(members, "start_time"@);
            let end_time = time_or_epoch(members, "end_time"@);
            let status = required_text(members, "status"@);
            if analyzer is Err {
                Err(analyzer->Err_0)
            } else if scanner is Err {
                Err(scanner->Err_0)
            } else if scan_type is Err {
                Err(scan_type->Err_0)
            } else if start_time is Err {
                Err(start_time->Err_0)
            } else if end_time is Err {
                Err(end_time->Err_0)
            } else if status is Err {
                Err(status->Err_0)
            } else {
                Ok(
                    ScanModel {
                        analyzer: analyzer->Ok_0,
                        scanner: scanner->Ok_0,
                        scan_type: scan_type->Ok_0,
                        start_time: start_time->Ok_0,
                        end_time: end_time->Ok_0,
                        status: status->Ok_0,
                    },
                )
            }
        },
        _ => Err(MalformedInputModel::UnexpectedValue("scan"@)),
    }
}

/// The scan of a report: that of the optional member `scan`, and the
/// unspecified one where the member is absent.
pub open spec fn scan_in(members: Seq<(Seq<char>, JsonTree)>) -> Result<
    ScanModel,
    MalformedInputModel,
> {
    match present(member(members, "scan"@)) {
        None => Ok(ScanModel::unspecified()),
        Some(tree) => scan_of(tree),
    }
}

/// The report that a JSON document states. Members that the format does
/// not name, `dependency_files` among them, are passed over.
pub open spec fn report_of(tree: JsonTree) -> Result<SastReportModel, MalformedInputModel> {
    match tree {
        JsonTree::Object(members) => {
            let version = required_text(members, "version"@);
            let vulnerabilities = vulnerabilities_in(members);
            let scan = scan_in(members);
            if version is Err {
                Err(version->Err_0)
            } else if vulnerabilities is Err {
                Err(vulnerabilities->Err_0)
            } else if scan is Err {
                Err(scan->Err_0)
            } else {
                Ok(
                    SastReportModel {
                        version: version->Ok_0,
                        vulnerabilities: vulnerabilities->Ok_0,
                        scan: scan->Ok_0,
                    },
                )
            }
        },
        _ => Err(MalformedInputModel::UnexpectedValue("$"@)),
    }
}

/// Reads an identifier.
pub fn read_identifier(value: &Json) -> (r: Result<VulnerabilityIdentifier, MalformedInput>)
    ensures
        match r {
            Ok(identifier) => identifier_of(value@) == Ok::<
                VulnerabilityIdentifierModel,
                MalformedInputModel,
            >(identifier@),
            Err(fault) => identifier_of(value@) == Err::<
                VulnerabilityIdentifierModel,
                MalformedInputModel,
            >(fault@),
        },
{
    match value.as_members() {
        None => Err(MalformedInput::UnexpectedValue("identifiers".to_owned())),
        Some(members) => {
            let vulnerability_type = read_required_text(members, "type")?;
            let name = read_required_text(members, "name")?;
            let value = read_required_text(members, "value")?;
            let url = read_optional_text(members, "url")?;
            Ok(VulnerabilityIdentifier { vulnerability_type, name, value, url })
        },
    }
}

/// Reads the identifiers of a finding from its members.
pub fn read_identifiers(members: &Vec<(String, Json)>) -> (r: Result<
    Vec<VulnerabilityIdentifier>,
    MalformedInput,
>)
    ensures
        match r {
            Ok(identifiers) => identifiers_in(members_view(members@)) == Ok::<
                Seq<VulnerabilityIdentifierModel>,
                MalformedInputModel,
            >(identifiers_view(identifiers@)),
            Err(fault) => identifiers_in(members_view(members@)) == Err::<
                Seq<VulnerabilityIdentifierModel>,
                MalformedInputModel,
            >(fault@),
        },
{
    match find_member(members, "identifiers") {
        None => {
            let out: Vec<VulnerabilityIdentifier> = Vec::new();
            assert(identifiers_view(out@) =~= Seq::empty());
            Ok(out)
        },
        Some(value) => match value.as_items() {
            None => Err(MalformedInput::UnexpectedValue("identifiers".to_owned())),
            Some(items) => {
                let ghost trees = items_view(items@);
                let mut out: Vec<VulnerabilityIdentifier> = Vec::new();
                let mut i: usize = 0;
                assert(identifiers_view(out@) =~= Seq::empty());
                while i < items.len()
                    invariant
                        i <= items.len(),
                        trees == items_view(items@),
                        identifiers_in(members_view(members@)) == try_map(
                            trees,
                            identifier_reader(),
                        ),
                        try_map(trees.take(i as int), identifier_reader()) == Ok::<
                            Seq<VulnerabilityIdentifierModel>,
                            MalformedInputModel,
                        >(identifiers_view(out@)),
                    decreases items.len() - i,
                {
                    proof {
                        lemma_try_map_step(trees, identifier_reader(), i as int);
                    }
                    match read_identifier(&items[i]) {
                        Err(fault) => {
                            proof {
                                lemma_try_map_fails_early(trees, identifier_reader(), i + 1);
                            }
                            return Err(fault);
                        },
                        Ok(identifier) => {
                            let ghost before = identifiers_view(out@);
                            out.push(identifier);
                            assert(identifiers_view(out@) =~= before.push(identifier@));
                        },
                    }
                    i += 1;
                }
                assert(trees.take(i as int) =~= trees);
                Ok(out)
            },
        },
    }
}

/// Reads the location of a finding from its members.
pub fn read_location(members: &Vec<(String, Json)>) -> (r: Result<
    VulnerabilityLocation,
    MalformedInput,
>)
    ensures
        match r {
            Ok(location) => location_in(members_view(members@)) == Ok::<
                VulnerabilityLocationModel,
                MalformedInputModel,
            >(location@),
            Err(fault) => location_in(members_view(members@)) == Err::<
                VulnerabilityLocationModel,
                MalformedInputModel,
            >(fault@),
        },
{
    match find_member(members, "location") {
        None => Ok(VulnerabilityLocation::default()),
        Some(value) => match value.as_members() {
            None => Err(MalformedInput::UnexpectedValue("location".to_owned())),
            Some(inner) => {
                let file = read_optional_text(inner, "file")?;
                let start_line = read_optional_u32(inner, "start_line")?;
                let end_line = read_optional_u32(inner, "end_line")?;
                Ok(VulnerabilityLocation { file, start_line, end_line })
            },
        },
    }
}

/// Reads the scanner of a finding from its members.
pub fn read_scanner(members: &Vec<(String, Json)>) -> (r: Result<
    VulnerabilityScanner,
    MalformedInput,
>)
    ensures
        match r {
            Ok(scanner) => scanner_in(members_view(members@)) == Ok::<
                VulnerabilityScannerModel,
                MalformedInputModel,
            >(scanner@),
            Err(fault) => scanner_in(members_view(members@)) == Err::<
                VulnerabilityScannerModel,
                MalformedInputModel,
            >(fault@),
        },
{
    match find_member(members, "scanner") {
        None => Ok(VulnerabilityScanner::default()),
        Some(value) => match value.as_members() {
            None => Err(MalformedInput::UnexpectedValue("scanner".to_owned())),
            Some(inner) => {
                let id = read_nonempty_text_or(inner, "id", "unspecified")?;
                let name = read_nonempty_text_or(inner, "name", "unspecified")?;
                Ok(VulnerabilityScanner { id, name })
            },
        },
    }
}

/// Reads the severity of a finding from its members.
pub fn read_severity(members: &Vec<(String, Json)>) -> (r: Severity)
    ensures
        r == severity_in(members_view(members@)),
{
    match find_member(members, "severity") {
        None => Severity::Info,
        Some(value) => match value.as_text() {
            Some(label) => Severity::from_label(label),
            None => Severity::Info,
        },
    }
}

/// Reads a finding.
pub fn read_vulnerability(value: &Json) -> (r: Result<Vulnerability, MalformedInput>)
    ensures
        match r {
            Ok(vulnerability) => vulnerability_of(value@) == Ok::<
                VulnerabilityModel,
                MalformedInputModel,
            >(vulnerability@),
            Err(fault) => vulnerability_of(value@) == Err::<
                VulnerabilityModel,
                MalformedInputModel,
            >(fault@),
        },
{
    match value.as_members() {
        None => Err(MalformedInput::UnexpectedValue("vulnerabilities".to_owned())),
        Some(members) => {
            let id = read_optional_text(members, "id")?;
            let category = read_required_text(members, "category")?;
            let name = read_text_or(members, "name", "")?;
            let message = read_required_text(members, "message")?;
            let description = read_required_text(members, "description")?;
            let cve = read_text_or(members, "cve", "")?;
            let severity = read_severity(members);
            let scanner = read_scanner(members)?;
            let location = read_location(members)?;
            let identifiers = read_identifiers(members)?;
            proof {
                reveal_strlit("");
                assert(""@ =~= Seq::<char>::empty());
            }
            Ok(
                Vulnerability {
                    id,
                    category,
                    name,
                    message,
                    description,
                    cve,
                    severity,
                    scanner,
                    location,
                    identifiers,
                },
            )
        },
    }
}

/// Reads the findings of a report from its members.
pub fn read_vulnerabilities(members: &Vec<(String, Json)>) -> (r: Result<
    Vec<Vulnerability>,
    MalformedInput,
>)
    ensures
        match r {
            Ok(vulnerabilities) => vulnerabilities_in(members_view(members@)) == Ok::<
                Seq<VulnerabilityModel>,
                MalformedInputModel,
            >(vulnerabilities_view(vulnerabilities@)),
            Err(fault) => vulnerabilities_in(members_view(members@)) == Err::<
                Seq<VulnerabilityModel>,
                MalformedInputModel,
            >(fault@),
        },
{
    match find_member(members, "vulnerabilities") {
        None => Err(MalformedInput::MissingField("vulnerabilities".to_owned())),
        Some(value) => match value.as_items() {
            None => Err(MalformedInput::UnexpectedValue("vulnerabilities".to_owned())),
            Some(items) => {
                let ghost trees = items_view(items@);
                let mut out: Vec<Vulnerability> = Vec::new();
                let mut i: usize = 0;
                assert(vulnerabilities_view(out@) =~= Seq::empty());
                while i < items.len()
                    invariant
                        i <= items.len(),
                        trees == items_view(items@),
                        vulnerabilities_in(members_view(members@)) == try_map(
                            trees,
                            vulnerability_reader(),
                        ),
                        try_map(trees.take(i as int), vulnerability_reader()) == Ok::<
                            Seq<VulnerabilityModel>,
                            MalformedInputModel,
                        >(vulnerabilities_view(out@)),
                    decreases items.len() - i,
                {
                    proof {
                        lemma_try_map_step(trees, vulnerability_reader(), i as int);
                    }
                    match read_vulnerability(&items[i]) {
                        Err(fault) => {
                            proof {
                                lemma_try_map_fails_early(trees, vulnerability_reader(), i + 1);
                            }
                            return Err(fault);
                        },
                        Ok(vulnerability) => {
                            let ghost before = vulnerabilities_view(out@);
                            out.push(vulnerability);
                            assert(vulnerabilities_view(out@) =~= before.push(vulnerability@));
                        },
                    }
                    i += 1;
                }
                assert(trees.take(i as int) =~= trees);
                Ok(out)
            },
        },
    }
}

/// Reads the vendor of a tool from its members.
pub fn read_vendor(members: &Vec<(String, Json)>) -> (r: Result<SoftwareVendor, MalformedInput>)
    ensures
        match r {
            Ok(vendor) => vendor_in(members_view(members@)) == Ok::<
                SoftwareVendorModel,
                MalformedInputModel,
            >(vendor@),
            Err(fault) => vendor_in(members_view(members@)) == Err::<
                SoftwareVendorModel,
                MalformedInputModel,
            >(fault@),
        },
{
    match find_member(members, "vendor") {
        None => Ok(SoftwareVendor::default()),
        Some(value) => match value.as_members() {
            None => Err(MalformedInput::UnexpectedValue("vendor".to_owned())),
            Some(inner) => {
                let name = read_nonempty_text_or(inner, "name", "unspecified")?;
                Ok(SoftwareVendor { name })
            },
        },
    }
}

/// Reads a tool of a scan from the scan's members.
pub fn read_software(members: &Vec<(String, Json)>, role: &str) -> (r: Result<
    Software,
    MalformedInput,
>)
    ensures
        match r {
            Ok(software) => software_in(members_view(members@), role@) == Ok::<
                SoftwareModel,
                MalformedInputModel,
            >(software@),
            Err(fault) => software_in(members_view(members@), role@) == Err::<
                SoftwareModel,
                MalformedInputModel,
            >(fault@),
        },
{
    match find_member(members, role) {
        None => Ok(Software::default()),
        Some(value) => match value.as_members() {
            None => Err(MalformedInput::UnexpectedValue(role.to_owned())),
            Some(inner) => {
                let id = read_nonempty_text_or(inner, "id", "unspecified")?;
                let name = read_nonempty_text_or(inner, "name", "unspecified")?;
                let url = read_nonempty_text_or(inner, "url", "unspecified")?;
                let vendor = read_vendor(inner)?;
                let version = read_nonempty_text_or(inner, "version", "unspecified")?;
                Ok(Software { id, name, url, vendor, version })
            },
        },
    }
}

/// Reads the scan of a report from its members.
pub fn read_scan(members: &Vec<(String, Json)>) -> (r: Result<Scan, MalformedInput>)
    ensures
        match r {
            Ok(scan) => scan_in(members_view(members@)) == Ok::<ScanModel, MalformedInputModel>(
                scan@,
            ),
            Err(fault) => scan_in(members_view(members@)) == Err::<
                ScanModel,
                MalformedInputModel,
            >(fault@),
        },
{
    match find_present(members, "scan") {
        None => Ok(Scan::default()),
        Some(value) => match value.as_members() {
            None => Err(MalformedInput::UnexpectedValue("scan".to_owned())),
            Some(inner) => {
                let analyzer = read_software(inner, "analyzer")?;
                let scanner = read_software(inner, "scanner")?;
                let scan_type = read_required_text(inner, "type")?;
                let start_time = read_time_or_epoch(inner, "start_time")?;
                let end_time = read_time_or_epoch(inner, "end_time")?;
                let status = read_required_text(inner, "status")?;
                Ok(Scan { analyzer, scanner, scan_type, start_time, end_time, status })
            },
        },
    }
}

/// Reads a report from a JSON document.
pub fn read_report(document: &Json) -> (r: Result<SastReport, MalformedInput>)
    ensures
        match r {
            Ok(report) => report_of(document@) == Ok::<SastReportModel, MalformedInputModel>(
                report@,
            ),
            Err(fault) => report_of(document@) == Err::<SastReportModel, MalformedInputModel>(
                fault@,
            ),
        },
        r matches Ok(report) ==> report@.wf(),
{
    proof {
        lemma_read_report_is_wf(document@);
    }
    match document.as_members() {
        None => Err(MalformedInput::UnexpectedValue("$".to_owned())),
        Some(members) => {
            let version = read_required_text(members, "version")?;
            let vulnerabilities = read_vulnerabilities(members)?;
            let scan = read_scan(members)?;
            Ok(SastReport { version, vulnerabilities, scan })
        },
    }
}

} // verus!
