//! Outcome reports: a kind, a title, a description and named fields. How a
//! report is drawn on the chat platform is up to the caller.

use vstd::prelude::*;

verus! {

/// The kind of a report.
#[derive(Clone, Copy, Debug, PartialEq, Eq, Structural)]
pub enum EmbedKind {
    /// Something went as asked.
    Success,
    /// Something to know.
    Info,
    /// Something went wrong, but the work goes on.
    Warn,
    /// Something went wrong.
    Error,
}

/// The colour of a report of the given kind, as `0xRRGGBB`.
pub open spec fn kind_color(kind: EmbedKind) -> u32 {
    match kind {
        EmbedKind::Success => 0x57_F2_87,
        EmbedKind::Info => 0x58_65_F2,
        EmbedKind::Warn => 0xFE_E7_5C,
        EmbedKind::Error => 0xED_42_45,
    }
}

impl EmbedKind {
    /// The colour of reports of this kind, as `0xRRGGBB`.
    pub fn get_color(&self) -> (r: u32)
        ensures
            r == kind_color(*self),
    {
        match self {
            EmbedKind::Success => 0x57_F2_87,
            EmbedKind::Info => 0x58_65_F2,
            EmbedKind::Warn => 0xFE_E7_5C,
            EmbedKind::Error => 0xED_42_45,
        }
    }
}

/// A named value shown with a report.
pub struct ReportField {
    pub name: String,
    pub value: String,
    /// Whether the field may share a line with its neighbours.
    pub inline: bool,
}

/// A report of an outcome.
pub struct Report {
    pub kind: EmbedKind,
    pub title: String,
    pub description: String,
    pub fields: Vec<ReportField>,
}

/// A [`ReportField`] as character sequences.
pub struct FieldView {
    pub name: Seq<char>,
    pub value: Seq<char>,
    pub inline: bool,
}

/// A [`Report`] as character sequences.
pub struct ReportView {
    pub kind: EmbedKind,
    pub title: Seq<char>,
    pub description: Seq<char>,
    pub fields: Seq<FieldView>,
}

impl View for ReportField {
    type V = FieldView;

    open spec fn view(&self) -> FieldView {
        FieldView { name: self.name@, value: self.value@, inline: self.inline }
    }
}

impl View for Report {
    type V = ReportView;

    open spec fn view(&self) -> ReportView {
        ReportView {
            kind: self.kind,
            title: self.title@,
            description: self.description@,
            fields: self.fields@.map_values(|f: ReportField| f@),
        }
    }
}

/// A report without fields.
pub open spec fn plain_report(kind: EmbedKind, title: Seq<char>, description: Seq<char>) -> ReportView {
    ReportView { kind, title, description, fields: seq![] }
}

/// A report with one more field.
pub open spec fn add_field(r: ReportView, name: Seq<char>, value: Seq<char>, inline: bool) -> ReportView {
    ReportView { fields: r.fields.push(FieldView { name, value, inline }), ..r }
}

/// An error report: the title says so, the description is the error, and a
/// field gives its cause.
pub open spec fn error_report(error: Seq<char>, cause: Seq<char>) -> ReportView {
    add_field(plain_report(EmbedKind::Error, "Error!"@, error), "Cause"@, cause, false)
}

/// A report of the given kind, without fields.
pub fn embed_template(title: String, description: String, kind: EmbedKind) -> (r: Report)
    ensures
        r@ == plain_report(kind, title@, description@),
{
    let r = Report { kind, title, description, fields: Vec::new() };
    assert(r@.fields =~= Seq::<FieldView>::empty());
    r
}

/// A success report.
pub fn create_success_embed(title: String, description: String) -> (r: Report)
    ensures
        r@ == plain_report(EmbedKind::Success, title@, description@),
{
    embed_template(title, description, EmbedKind::Success)
}

/// An information report.
pub fn create_info_embed(title: String, description: String) -> (r: Report)
    ensures
        r@ == plain_report(EmbedKind::Info, title@, description@),
{
    embed_template(title, description, EmbedKind::Info)
}

/// A warning report.
pub fn create_warning_embed(title: String, warning: String) -> (r: Report)
    ensures
        r@ == plain_report(EmbedKind::Warn, title@, warning@),
{
    embed_template(title, warning, EmbedKind::Warn)
}

/// An error report, with the cause of the error and, if given, a hint.
pub fn create_error_embed(error: String, cause: String, hint: Option<String>) -> (r: Report)
    ensures
        r@ == match hint {
            None => error_report(error@, cause@),
            Some(h) => add_field(error_report(error@, cause@), "Hint"@, h@, false),
        },
{
    let r = embed_template(String::from_str("Error!"), error, EmbedKind::Error).with_field(
        String::from_str("Cause"),
        cause,
        false,
    );
    match hint {
        None => r,
        Some(h) => r.with_field(String::from_str("Hint"), h, false),
    }
}

impl Report {
    /// This report with one more field.
    pub fn with_field(self, name: String, value: String, inline: bool) -> (r: Report)
        ensures
            r@ == add_field(self@, name@, value@, inline),
    {
        let mut fields = self.fields;
        let ghost before = fields@;
        fields.push(ReportField { name, value, inline });
        let r = Report { kind: self.kind, title: self.title, description: self.description, fields };
        assert(r@.fields =~= before.map_values(|f: ReportField| f@).push(FieldView { name: name@, value: value@, inline }));
        r
    }
}

} // verus!
