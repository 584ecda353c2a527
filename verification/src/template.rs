//! Text from templates.
//!
//! A template is a Handlebars template; the data that it is filled with is a
//! flat list of named texts, so that a template never meets a value that
//! is missing or is not text. The templates are those of this module and no
//! others: each is plain text with fields and `if` blocks, and includes no
//! partial, so the engine is through with it after one pass over its text.

use vstd::prelude::*;

verus! {

/// Heads the narrative: the report, its scan and the tools that ran it.
pub const REPORT_TEMPLATE: &'static str =
    "# Vulnerability report\n\n- **Report version:** {{version}}\n- **Scan:** {{scan_type}}, status {{scan_status}}, from {{start_time}} to {{end_time}}\n- **Analyzer:** {{analyzer_name}} {{analyzer_version}} ({{analyzer_id}}, {{analyzer_url}}) by {{analyzer_vendor}}\n- **Scanner:** {{scanner_name}} {{scanner_version}} ({{scanner_id}}, {{scanner_url}}) by {{scanner_vendor}}\n- **Findings:** {{finding_count}}\n";

/// Writes one finding, but for its identifiers.
pub const FINDING_TEMPLATE: &'static str =
    "\n### {{severity}}: {{#if name}}{{name}}{{else}}{{message}}{{/if}}\n\n{{description}}\n\n- **Severity:** {{severity}}\n- **Category:** {{category}}\n- **Message:** {{message}}\n{{#if cve}}- **CVE:** {{cve}}\n{{/if}}{{#if file}}- **Location:** `{{file}}`{{#if start_line}}, line {{start_line}}{{#if end_line}} to {{end_line}}{{/if}}{{/if}}\n{{/if}}- **Reported by:** {{scanner_name}} ({{scanner_id}})\n{{#if id}}- **Id:** {{id}}\n{{/if}}";

/// Writes one identifier of a finding.
pub const IDENTIFIER_TEMPLATE: &'static str =
    "- **{{type}}:** {{#if url}}[{{name}}]({{url}}){{else}}{{name}}{{/if}} ({{value}})\n";

/// The templates that the library renders.
#[derive(Clone, Copy, Debug, PartialEq, Eq, Structural)]
pub enum Template {
    /// [`REPORT_TEMPLATE`].
    Report,
    /// [`FINDING_TEMPLATE`].
    Finding,
    /// [`IDENTIFIER_TEMPLATE`].
    Identifier,
}

impl Template {
    /// The text of the template.
    pub open spec fn source(self) -> Seq<char> {
        match self {
            Template::Report => REPORT_TEMPLATE@,
            Template::Finding => FINDING_TEMPLATE@,
            Template::Identifier => IDENTIFIER_TEMPLATE@,
        }
    }

    /// The text of the template.
    pub fn text(&self) -> (r: &'static str)
        ensures
            r@ == self.source(),
    {
        match self {
            Template::Report => REPORT_TEMPLATE,
            Template::Finding => FINDING_TEMPLATE,
            Template::Identifier => IDENTIFIER_TEMPLATE,
        }
    }
}

/// Whether a text is one of the library's templates.
pub open spec fn is_library_template(text: Seq<char>) -> bool {
    exists|template: Template| text == #[trigger] template.source()
}

/// A failure of the template engine: the message it gave.
#[derive(Debug, PartialEq, Eq)]
pub struct RenderFault {
    pub message: String,
}

impl View for RenderFault {
    type V = Seq<char>;

    open spec fn view(&self) -> Seq<char> {
        self.message@
    }
}

/// The named texts of a list of fields.
pub open spec fn fields_view(fields: Seq<(String, String)>) -> Seq<(Seq<char>, Seq<char>)> {
    Seq::new(fields.len(), |i: int| (fields[i].0@, fields[i].1@))
}

/// What Handlebars makes of a template and a list of named texts: the
/// rendered text, or the engine's message where it fails. Where a name
/// occurs more than once in the list, the engine sees the last text given
/// under it.
pub uninterp spec fn template_output(
    template: Seq<char>,
    fields: Seq<(Seq<char>, Seq<char>)>,
) -> Result<Seq<char>, Seq<char>>;

/// Renders with `handlebars::Handlebars::render_template`, on a registry
/// fresh from `Handlebars::new`, with the fields as a map from name to text.
/// It takes the library's own templates only: on a template that includes a
/// partial the engine need not return, since one that includes itself is
/// expanded without end. Claims only that the outcome depends on the
/// template and the fields alone; an error is handed on as the message it
/// displays.
#[verifier::external_body]
fn render_with_handlebars(template: &str, fields: &Vec<(String, String)>) -> (r: Result<
    String,
    String,
>)
    requires
        is_library_template(template@),
    ensures
        match r {
            Ok(text) => template_output(template@, fields_view(fields@)) == Ok::<
                Seq<char>,
                Seq<char>,
            >(text@),
            Err(message) => template_output(template@, fields_view(fields@)) == Err::<
                Seq<char>,
                Seq<char>,
            >(message@),
        },
{
    let data: std::collections::BTreeMap<&str, &str> = fields.iter().map(
        |f| (f.0.as_str(), f.1.as_str()),
    ).collect();
    handlebars::Handlebars::new().render_template(template, &data).map_err(|e| e.to_string())
}

/// Fills one of the library's templates with a list of named texts.
pub fn render_fragment(template: Template, fields: &Vec<(String, String)>) -> (r: Result<
    String,
    RenderFault,
>)
    ensures
        match r {
            Ok(text) => template_output(template.source(), fields_view(fields@)) == Ok::<
                Seq<char>,
                Seq<char>,
            >(text@),
            Err(fault) => template_output(template.source(), fields_view(fields@)) == Err::<
                Seq<char>,
                Seq<char>,
            >(fault@),
        },
{
    match render_with_handlebars(template.text(), fields) {
        Ok(text) => Ok(text),
        Err(message) => Err(RenderFault { message }),
    }
}

} // verus!
