use report_commenter::input_formats::sast::{SastHandler, SastReport};
use report_commenter::input_formats::sast_writer::{
    fields_of_finding, fields_of_identifier, fields_of_report, render_finding,
};
use report_commenter::input_formats::{MalformedInput, ReportFormatHandler};
use report_commenter::poster::DiffLineComment;
use report_commenter::template::{
    render_fragment, RenderFault, Template, FINDING_TEMPLATE, IDENTIFIER_TEMPLATE, REPORT_TEMPLATE,
};
use report_commenter::{render_to_comment, render_to_diffs, Handlers, ReportError};

const EMPTY_REPORT: &str = r#"{"version":"1","vulnerabilities":[]}"#;

const FULL_REPORT: &str = r#"{"version":"15.0.4","vulnerabilities":[{
    "id":"abc","category":"sast","name":"SQL <injection>","message":"Injection in query",
    "description":"User input reaches a query & more.","cve":"CVE-2020-1","severity":"High",
    "scanner":{"id":"semgrep","name":"Semgrep"},
    "location":{"file":"app/db.py","start_line":12,"end_line":14},
    "identifiers":[
        {"type":"cwe","name":"CWE-89","value":"89","url":"https://cwe.example/89"},
        {"type":"rule","name":"sqli","value":"python.sqli"}
    ]},{"category":"c","message":"m","description":"d"}],
    "scan":{"type":"sast","status":"success","start_time":"2020-01-28T03:26:02"}}"#;

const FULL_HEAD: &str = "# Vulnerability report\n\n- **Report version:** 15.0.4\n- **Scan:** sast, status success, from 2020-01-28T03:26:02 to 1970-01-01T00:00:00\n- **Analyzer:** unspecified unspecified (unspecified, unspecified) by unspecified\n- **Scanner:** unspecified unspecified (unspecified, unspecified) by unspecified\n- **Findings:** 2\n";

const FIRST_BLOCK: &str = "\n### High: SQL &lt;injection&gt;\n\nUser input reaches a query &amp; more.\n\n- **Severity:** High\n- **Category:** sast\n- **Message:** Injection in query\n- **CVE:** CVE-2020-1\n- **Location:** `app/db.py`, line 12 to 14\n- **Reported by:** Semgrep (semgrep)\n- **Id:** abc\n- **cwe:** [CWE-89](https://cwe.example/89) (89)\n- **rule:** sqli (python.sqli)\n";

const SECOND_BLOCK: &str = "\n### Info: m\n\nd\n\n- **Severity:** Info\n- **Category:** c\n- **Message:** m\n- **Reported by:** unspecified (unspecified)\n";

fn parse(text: &str) -> SastReport {
    SastHandler::parse_to_struct(text).unwrap()
}

fn report_with_findings(findings: &str) -> String {
    format!(r#"{{"version":"1","vulnerabilities":[{}]}}"#, findings)
}

fn finding_at(message: &str, location: &str) -> String {
    format!(
        r#"{{"category":"c","message":"{}","description":"d","location":{}}}"#,
        message, location
    )
}

#[test]
fn empty_report_mentions_zero_findings() {
    let narrative = render_to_comment(Handlers::Sast, EMPTY_REPORT).unwrap();
    assert!(narrative.contains("- **Findings:** 0\n"), "{}", narrative);
    assert!(!narrative.contains("###"));
    assert_eq!(render_to_diffs(Handlers::Sast, EMPTY_REPORT).unwrap(), vec![]);
}

#[test]
fn narrative_is_the_head_followed_by_the_blocks() {
    let narrative = render_to_comment(Handlers::Sast, FULL_REPORT).unwrap();
    assert_eq!(narrative, format!("{}{}{}", FULL_HEAD, FIRST_BLOCK, SECOND_BLOCK));
}

#[test]
fn handler_renders_what_the_pipeline_renders() {
    let report = parse(FULL_REPORT);
    assert_eq!(
        SastHandler::render_to_markdown(&report).unwrap(),
        render_to_comment(Handlers::Sast, FULL_REPORT).unwrap()
    );
    assert_eq!(
        SastHandler::render_to_diff_line_comments(&report).unwrap(),
        render_to_diffs(Handlers::Sast, FULL_REPORT).unwrap()
    );
}

#[test]
fn finding_with_location_becomes_one_comment() {
    let text = report_with_findings(&finding_at("m", r#"{"file":"a.py","start_line":10}"#));
    let comments = render_to_diffs(Handlers::Sast, &text).unwrap();
    assert_eq!(comments.len(), 1);
    assert_eq!(comments[0].path, "a.py");
    assert_eq!(comments[0].line, 10);
    let block = render_finding(&parse(&text).vulnerabilities[0]).unwrap();
    assert_eq!(comments[0].body, block);
    assert!(comments[0].body.contains("- **Location:** `a.py`, line 10\n"));
}

#[test]
fn comment_addresses_the_first_line_only() {
    let comments = render_to_diffs(Handlers::Sast, FULL_REPORT).unwrap();
    assert_eq!(
        comments,
        vec![DiffLineComment { path: "app/db.py".to_string(), line: 12, body: FIRST_BLOCK.to_string() }]
    );
}

#[test]
fn comment_body_is_the_block_of_the_narrative() {
    let narrative = render_to_comment(Handlers::Sast, FULL_REPORT).unwrap();
    for comment in render_to_diffs(Handlers::Sast, FULL_REPORT).unwrap() {
        assert!(narrative.contains(&comment.body));
    }
}

#[test]
fn findings_without_a_usable_location_get_no_comment() {
    let findings = [
        r#"{"category":"c","message":"none","description":"d"}"#.to_string(),
        finding_at("no line", r#"{"file":"a.py"}"#),
        finding_at("no file", r#"{"start_line":3}"#),
        finding_at("empty file", r#"{"file":"","start_line":3}"#),
        finding_at("line zero", r#"{"file":"a.py","start_line":0}"#),
        finding_at("only end", r#"{"file":"a.py","end_line":3}"#),
    ];
    let text = report_with_findings(&findings.join(","));
    assert_eq!(render_to_diffs(Handlers::Sast, &text).unwrap(), vec![]);
    let narrative = render_to_comment(Handlers::Sast, &text).unwrap();
    for message in ["none", "no line", "no file", "empty file", "line zero", "only end"] {
        assert!(narrative.contains(&format!("### Info: {}\n", message)), "{}", message);
    }
    assert!(narrative.contains("- **Findings:** 6\n"));
}

#[test]
fn findings_on_one_line_are_not_merged() {
    let findings = [
        finding_at("first", r#"{"file":"a.py","start_line":10}"#),
        finding_at("second", r#"{"file":"a.py","start_line":10}"#),
    ];
    let comments = render_to_diffs(Handlers::Sast, &report_with_findings(&findings.join(","))).unwrap();
    assert_eq!(comments.len(), 2);
    assert_eq!((comments[0].path.as_str(), comments[0].line), ("a.py", 10));
    assert_eq!((comments[1].path.as_str(), comments[1].line), ("a.py", 10));
    assert!(comments[0].body.contains("first"));
    assert!(comments[1].body.contains("second"));
}

#[test]
fn both_forms_keep_the_order_of_the_findings() {
    let findings = [
        finding_at("zulu", r#"{"file":"z.py","start_line":3}"#),
        r#"{"category":"c","message":"mike","description":"d","severity":"Critical"}"#.to_string(),
        finding_at("alpha", r#"{"file":"a.py","start_line":1}"#),
    ];
    let text = report_with_findings(&findings.join(","));
    let narrative = render_to_comment(Handlers::Sast, &text).unwrap();
    let zulu = narrative.find("zulu").unwrap();
    let mike = narrative.find("mike").unwrap();
    let alpha = narrative.find("alpha").unwrap();
    assert!(zulu < mike && mike < alpha);
    let comments = render_to_diffs(Handlers::Sast, &text).unwrap();
    let paths: Vec<&str> = comments.iter().map(|c| c.path.as_str()).collect();
    assert_eq!(paths, vec!["z.py", "a.py"]);
}

#[test]
fn omitted_severity_is_shown_as_info() {
    let text = report_with_findings(r#"{"category":"c","message":"m","description":"d"}"#);
    assert_eq!(parse(&text).vulnerabilities[0].severity.to_text(), "Info");
    let narrative = render_to_comment(Handlers::Sast, &text).unwrap();
    assert!(narrative.contains("### Info: m\n"));
    assert!(narrative.contains("- **Severity:** Info\n"));
}

#[test]
fn stated_severity_is_shown_under_its_label() {
    let text = report_with_findings(
        r#"{"category":"c","message":"m","description":"d","severity":"Critical"}"#,
    );
    let narrative = render_to_comment(Handlers::Sast, &text).unwrap();
    assert!(narrative.contains("- **Severity:** Critical\n"));
}

#[test]
fn empty_input_is_refused_before_anything_else() {
    assert_eq!(render_to_comment(Handlers::Sast, ""), Err(ReportError::EmptyInput));
    assert_eq!(render_to_diffs(Handlers::Sast, ""), Err(ReportError::EmptyInput));
}

#[test]
fn blank_input_is_malformed_not_empty() {
    assert!(matches!(
        render_to_comment(Handlers::Sast, " "),
        Err(ReportError::MalformedInput(MalformedInput::Syntax(_)))
    ));
}

#[test]
fn malformed_input_is_refused_before_rendering() {
    assert_eq!(
        render_to_comment(Handlers::Sast, r#"{"version":"1"}"#),
        Err(ReportError::MalformedInput(MalformedInput::MissingField("vulnerabilities".to_string())))
    );
    assert_eq!(
        render_to_diffs(Handlers::Sast, "[]"),
        Err(ReportError::MalformedInput(MalformedInput::UnexpectedValue("$".to_string())))
    );
}

#[test]
fn rendering_twice_gives_the_same_bytes() {
    let report = parse(FULL_REPORT);
    let first = SastHandler::render_to_markdown(&report).unwrap();
    let second = SastHandler::render_to_markdown(&report).unwrap();
    assert_eq!(first.as_bytes(), second.as_bytes());
    assert_eq!(
        SastHandler::render_to_diff_line_comments(&report).unwrap(),
        SastHandler::render_to_diff_line_comments(&report).unwrap()
    );
}

#[test]
fn fields_of_a_finding_are_named_texts() {
    let report = parse(FULL_REPORT);
    let fields = fields_of_finding(&report.vulnerabilities[0]);
    let expected: Vec<(String, String)> = [
        ("id", "abc"),
        ("category", "sast"),
        ("name", "SQL <injection>"),
        ("message", "Injection in query"),
        ("description", "User input reaches a query & more."),
        ("cve", "CVE-2020-1"),
        ("severity", "High"),
        ("scanner_id", "semgrep"),
        ("scanner_name", "Semgrep"),
        ("file", "app/db.py"),
        ("start_line", "12"),
        ("end_line", "14"),
    ].iter().map(|(k, v)| (k.to_string(), v.to_string())).collect();
    assert_eq!(fields, expected);
    let bare = fields_of_finding(&report.vulnerabilities[1]);
    let texts: Vec<&str> = bare.iter().map(|f| f.1.as_str()).collect();
    assert_eq!(texts, vec!["", "c", "", "m", "d", "", "Info", "unspecified", "unspecified", "", "", ""]);
}

#[test]
fn fields_of_an_identifier_are_named_texts() {
    let report = parse(FULL_REPORT);
    let identifiers = &report.vulnerabilities[0].identifiers;
    let with_url: Vec<(String, String)> = [
        ("type", "cwe"), ("name", "CWE-89"), ("value", "89"), ("url", "https://cwe.example/89"),
    ].iter().map(|(k, v)| (k.to_string(), v.to_string())).collect();
    assert_eq!(fields_of_identifier(&identifiers[0]), with_url);
    assert_eq!(fields_of_identifier(&identifiers[1])[3], ("url".to_string(), String::new()));
}

#[test]
fn fields_of_a_report_are_named_texts() {
    let fields = fields_of_report(&parse(FULL_REPORT));
    let names: Vec<&str> = fields.iter().map(|f| f.0.as_str()).collect();
    assert_eq!(
        names,
        vec![
            "version", "scan_type", "scan_status", "start_time", "end_time", "analyzer_id",
            "analyzer_name", "analyzer_url", "analyzer_vendor", "analyzer_version", "scanner_id",
            "scanner_name", "scanner_url", "scanner_vendor", "scanner_version", "finding_count",
        ]
    );
    assert_eq!(fields[0].1, "15.0.4");
    assert_eq!(fields[3].1, "2020-01-28T03:26:02");
    assert_eq!(fields[4].1, "1970-01-01T00:00:00");
    assert_eq!(fields[15].1, "2");
}

fn fields(pairs: &[(&str, &str)]) -> Vec<(String, String)> {
    pairs.iter().map(|(k, v)| (k.to_string(), v.to_string())).collect()
}

#[test]
fn template_is_filled_with_its_fields() {
    let with_url = fields(&[("type", "cwe"), ("name", "<CWE-89>"), ("value", "89"), ("url", "u")]);
    assert_eq!(
        render_fragment(Template::Identifier, &with_url).unwrap(),
        "- **cwe:** [&lt;CWE-89&gt;](u) (89)\n"
    );
    let without_url = fields(&[("type", "cwe"), ("name", "n"), ("value", "89"), ("url", "")]);
    assert_eq!(render_fragment(Template::Identifier, &without_url).unwrap(), "- **cwe:** n (89)\n");
}

#[test]
fn field_that_is_not_given_is_left_blank() {
    assert_eq!(render_fragment(Template::Identifier, &vec![]).unwrap(), "- **:**  ()\n");
}

#[test]
fn last_text_under_a_name_is_the_one_rendered() {
    let twice = fields(&[("type", "first"), ("name", "n"), ("value", "v"), ("type", "last")]);
    assert_eq!(render_fragment(Template::Identifier, &twice).unwrap(), "- **last:** n (v)\n");
}

#[test]
fn each_template_has_its_text() {
    assert_eq!(Template::Report.text(), REPORT_TEMPLATE);
    assert_eq!(Template::Finding.text(), FINDING_TEMPLATE);
    assert_eq!(Template::Identifier.text(), IDENTIFIER_TEMPLATE);
    for template in [REPORT_TEMPLATE, FINDING_TEMPLATE, IDENTIFIER_TEMPLATE] {
        assert!(!template.contains("{{>"));
        assert!(!template.contains("{{#*"));
    }
}

#[test]
fn render_fault_is_stated_with_its_message() {
    let error = ReportError::Rendering(RenderFault { message: "no such helper".to_string() });
    assert_eq!(error.to_text(), "rendering failed: no such helper");
}

#[test]
fn faults_are_stated_in_sentences() {
    assert_eq!(ReportError::EmptyInput.to_text(), "the input is empty");
    assert_eq!(
        MalformedInput::MissingField("status".to_string()).to_text(),
        "missing field: status"
    );
    assert_eq!(
        MalformedInput::UnexpectedValue("scan".to_string()).to_text(),
        "unexpected value in: scan"
    );
    assert_eq!(
        ReportError::MalformedInput(MalformedInput::Syntax("expected value at line 1 column 1".to_string())).to_text(),
        "not a JSON document: expected value at line 1 column 1"
    );
}
