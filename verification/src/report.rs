//! Deterministic assembly of extracted header data into an ordered
//! report model: a fixed sequence of typed blocks (heading, key/value
//! table, paragraph, styled-run paragraph) plus a fixed page-margin
//! configuration. Rendering the model to a document file is left to an
//! external collaborator.

use vstd::prelude::*;
use crate::headers::{FieldModel, HeaderMap, lookup_or_na};
use crate::derived::{attachment_count, attachment_summary, domain_of, sender_domain_of};
use crate::textutil::{ascii_lowercase, dec_rep, decimal_string, lower_seq, trim, trimmed};

verus! {

/// Font size of the two centered headings, in half-points.
pub const HEADING_SIZE: u32 = 36;

/// Font size of the side headings, in half-points.
pub const SIDE_HEAD_SIZE: u32 = 28;

/// Font size of regular text, in half-points.
pub const REGULAR_SIZE: u32 = 22;

/// The three-value color palette of the report: dark blue for headings
/// and labels, black for body text, red for redaction markers and
/// links.
#[derive(Debug, Clone, Copy, PartialEq, Eq, Structural)]
pub enum TextColor {
    DarkBlue,
    Black,
    Red,
}

impl TextColor {
    /// The RGB hex code a renderer should reproduce for this color.
    pub fn hex_code(&self) -> (r: &'static str)
        ensures
            *self == TextColor::DarkBlue ==> r@ == "#1D076D"@,
            *self == TextColor::Black ==> r@ == "#000000"@,
            *self == TextColor::Red ==> r@ == "#FF0000"@,
    {
        match self {
            TextColor::DarkBlue => "#1D076D",
            TextColor::Black => "#000000",
            TextColor::Red => "#FF0000",
        }
    }
}

/// Mathematical model of one styled run of text.
#[verifier::ext_equal]
pub struct RunModel {
    pub text: Seq<char>,
    pub color: TextColor,
    pub size: u32,
}

/// Mathematical model of one table row: a label and a value cell.
#[verifier::ext_equal]
pub struct RowModel {
    pub label: Seq<char>,
    pub value: Seq<char>,
}

/// Mathematical model of one report block.
#[verifier::ext_equal]
pub enum BlockModel {
    Heading(RunModel),
    Table(Seq<RowModel>),
    Paragraph(RunModel),
    Rich(Seq<RunModel>),
}

/// A run of text with its color and font size (in half-points).
#[derive(Debug, PartialEq)]
pub struct StyledRun {
    pub text: String,
    pub color: TextColor,
    pub size: u32,
}

impl View for StyledRun {
    type V = RunModel;

    open spec fn view(&self) -> RunModel {
        RunModel { text: self.text@, color: self.color, size: self.size }
    }
}

impl DeepView for StyledRun {
    type V = RunModel;

    open spec fn deep_view(&self) -> RunModel {
        self@
    }
}

/// One row of the key/value table.
#[derive(Debug, PartialEq)]
pub struct LabeledValue {
    pub label: String,
    pub value: String,
}

impl View for LabeledValue {
    type V = RowModel;

    open spec fn view(&self) -> RowModel {
        RowModel { label: self.label@, value: self.value@ }
    }
}

impl DeepView for LabeledValue {
    type V = RowModel;

    open spec fn deep_view(&self) -> RowModel {
        self@
    }
}

/// One typed block of the report: a centered heading, a borderless
/// key/value table, a single-run paragraph, or a paragraph of several
/// styled runs.
#[derive(Debug, PartialEq)]
pub enum ReportBlock {
    Heading(StyledRun),
    Table(Vec<LabeledValue>),
    Paragraph(StyledRun),
    Rich(Vec<StyledRun>),
}

impl View for ReportBlock {
    type V = BlockModel;

    open spec fn view(&self) -> BlockModel {
        match self {
            ReportBlock::Heading(r) => BlockModel::Heading(r@),
            ReportBlock::Table(rows) => BlockModel::Table(rows.deep_view()),
            ReportBlock::Paragraph(r) => BlockModel::Paragraph(r@),
            ReportBlock::Rich(runs) => BlockModel::Rich(runs.deep_view()),
        }
    }
}

impl DeepView for ReportBlock {
    type V = BlockModel;

    open spec fn deep_view(&self) -> BlockModel {
        self@
    }
}

/// Page margins in twentieths of a point.
#[derive(Debug, Clone, Copy, PartialEq, Eq, Structural)]
pub struct PageMargins {
    pub top: u32,
    pub left: u32,
    pub bottom: u32,
    pub right: u32,
    pub header: u32,
    pub footer: u32,
    pub gutter: u32,
}

/// Mathematical model of a whole report.
#[verifier::ext_equal]
pub struct ReportModelView {
    pub blocks: Seq<BlockModel>,
    pub margins: PageMargins,
}

/// The ordered report: a sequence of blocks plus the page margins.
/// Built once by the assembler, then handed to a renderer by value.
#[derive(Debug, PartialEq)]
pub struct ReportModel {
    pub blocks: Vec<ReportBlock>,
    pub margins: PageMargins,
}

impl View for ReportModel {
    type V = ReportModelView;

    open spec fn view(&self) -> ReportModelView {
        ReportModelView { blocks: self.blocks.deep_view(), margins: self.margins }
    }
}

/// Shorthand for a run model.
pub open spec fn run_of(text: Seq<char>, color: TextColor, size: u32) -> RunModel {
    RunModel { text, color, size }
}

/// Shorthand for a single-run paragraph block.
pub open spec fn para_of(text: Seq<char>, color: TextColor, size: u32) -> BlockModel {
    BlockModel::Paragraph(run_of(text, color, size))
}

/// Shorthand for a table row: the value cell carries the fixed
/// `":\t"` separator prefix.
pub open spec fn row_of(label: Seq<char>, value: Seq<char>) -> RowModel {
    RowModel { label, value: ":\t"@ + value }
}

/// The fixed page margins: one inch (1440 twentieths of a point) on
/// every side, and no gutter.
pub open spec fn report_margins() -> PageMargins {
    PageMargins {
        top: 1440,
        left: 1440,
        bottom: 1440,
        right: 1440,
        header: 1440,
        footer: 1440,
        gutter: 0,
    }
}

/// The stringified form of one header map's fields, in stored order:
/// `{name: value}` for each field.
pub open spec fn dump_fields(fields: Seq<FieldModel>) -> Seq<char>
    decreases fields.len(),
{
    if fields.len() == 0 {
        Seq::<char>::empty()
    } else {
        dump_fields(fields.drop_last()) + "{"@ + fields.last().name + ": "@
            + fields.last().value + "}"@
    }
}

/// The stringified form of the per-part header-map list, in part
/// order: each map's fields inside `[` and `]`.
pub open spec fn dump_parts(parts: Seq<Seq<FieldModel>>) -> Seq<char>
    decreases parts.len(),
{
    if parts.len() == 0 {
        Seq::<char>::empty()
    } else {
        dump_parts(parts.drop_last()) + "["@ + dump_fields(parts.last()) + "]"@
    }
}

/// Renders the raw debug dump of the per-part header-map list.
pub fn header_dump(part_headers: &Vec<HeaderMap>) -> (r: String)
    ensures
        r@ == dump_parts(part_headers.deep_view()),
{
    let ghost dv = part_headers.deep_view();
    let mut out = String::new();
    let mut i: usize = 0;
    proof {
        assert(dump_parts(dv.take(0)) =~= Seq::<char>::empty());
    }
    while i < part_headers.len()
        invariant
            i <= part_headers.len(),
            dv == part_headers.deep_view(),
            dv.len() == part_headers@.len(),
            out@ == dump_parts(dv.take(i as int)),
        decreases part_headers.len() - i,
    {
        proof {
            assert(dv[i as int] == part_headers@[i as int]@);
        }
        out.append("[");
        let entries = part_headers[i].entries();
        let ghost ev = entries.deep_view();
        let mut j: usize = 0;
        proof {
            assert(dump_fields(ev.take(0)) =~= Seq::<char>::empty());
            assert(out@ =~= dump_parts(dv.take(i as int)) + "["@ + dump_fields(ev.take(0)));
        }
        while j < entries.len()
            invariant
                j <= entries.len(),
                ev == entries.deep_view(),
                ev.len() == entries@.len(),
                ev == dv[i as int],
                i < dv.len(),
                dv == part_headers.deep_view(),
                out@ == dump_parts(dv.take(i as int)) + "["@ + dump_fields(ev.take(j as int)),
            decreases entries.len() - j,
        {
            proof {
                assert(ev[j as int] == entries@[j as int]@);
            }
            out.append("{");
            out.append(entries[j].name.as_str());
            out.append(": ");
            out.append(entries[j].value.as_str());
            out.append("}");
            proof {
                assert(ev.take(j as int + 1).drop_last() =~= ev.take(j as int));
                assert(ev.take(j as int + 1).last() == ev[j as int]);
                assert(out@ =~= dump_parts(dv.take(i as int)) + "["@
                    + dump_fields(ev.take(j as int + 1)));
            }
            j += 1;
        }
        out.append("]");
        proof {
            assert(ev.take(ev.len() as int) =~= ev);
            assert(dv.take(i as int + 1).drop_last() =~= dv.take(i as int));
            assert(dv.take(i as int + 1).last() == dv[i as int]);
            assert(out@ =~= dump_parts(dv.take(i as int + 1)));
        }
        i += 1;
    }
    proof {
        assert(dv.take(dv.len() as int) =~= dv);
    }
    out
}

/// The full fixed-order block sequence of the report, as a function of
/// the incident number, the top-level header map and the per-part
/// header maps. Every fixed display string, color and size here is
/// part of the external contract.
pub open spec fn report_blocks(
    incident: Seq<char>,
    headers: Seq<FieldModel>,
    parts: Seq<Seq<FieldModel>>,
) -> Seq<BlockModel> {
    let from = lookup_or_na(headers, "From"@);
    let domain = sender_domain_of(from);
    let count = attachment_count(parts);
    let count_text = if count == 0 { "no"@ } else { dec_rep(count) };
    let attachments = if count != 0 { "Yes"@ } else { "No"@ };
    let lower_domain = lower_seq(domain);
    seq![
        BlockModel::Heading(run_of("INCIDENT "@ + incident, TextColor::DarkBlue, HEADING_SIZE)),
        para_of("Please find the following initial analysis details."@, TextColor::DarkBlue, REGULAR_SIZE),
        BlockModel::Table(seq![
            row_of("1. Date"@, lookup_or_na(headers, "Date"@)),
            row_of("2. Subject"@, lookup_or_na(headers, "Subject"@)),
            row_of("3. Sender Id"@, from),
            row_of("4. Recipient Id"@, lookup_or_na(headers, "To"@)),
            row_of("5. Domain"@, domain),
            row_of("6. Blacklisted(Y/N)"@, "No"@),
            row_of("7. Email Gateway"@, "Delivered"@),
            row_of("8. Attachments"@, attachments),
            row_of("9. Attachments (Malicious)"@, "****"@),
            row_of("10. URL(S)"@, "****"@),
            row_of("11. URL (Malicious)"@, "****"@),
        ]),
        para_of(""@, TextColor::Black, REGULAR_SIZE),
        para_of("Ref: "@, TextColor::DarkBlue, SIDE_HEAD_SIZE),
        para_of("*****"@, TextColor::Red, REGULAR_SIZE),
        para_of("Domain Analysis"@, TextColor::DarkBlue, SIDE_HEAD_SIZE),
        para_of("*****"@, TextColor::Red, REGULAR_SIZE),
        para_of("Analysis"@, TextColor::DarkBlue, SIDE_HEAD_SIZE),
        BlockModel::Rich(seq![
            run_of("User received a mail from "@, TextColor::Black, REGULAR_SIZE),
            run_of(from, TextColor::Red, REGULAR_SIZE),
            run_of(" which was detected as a ***-suspicious mail. As per the initial analysis we gathered that the mail came from "@, TextColor::Black, REGULAR_SIZE),
            run_of(domain, TextColor::Red, REGULAR_SIZE),
            run_of("."@, TextColor::Black, REGULAR_SIZE),
        ]),
        BlockModel::Rich(seq![
            run_of("We also observed that there are *** URL(s) and "@, TextColor::Black, REGULAR_SIZE),
            run_of(count_text, TextColor::Black, REGULAR_SIZE),
            run_of(" Attachment(s) in this email body."@, TextColor::Black, REGULAR_SIZE),
        ]),
        para_of("The Domain is clean as per virus total, Kaspersky and URL void."@, TextColor::Black, REGULAR_SIZE),
        BlockModel::Rich(seq![
            run_of("Ref: "@, TextColor::Red, REGULAR_SIZE),
            run_of("https://www.urlvoid.com/scan/"@, TextColor::Black, REGULAR_SIZE),
            run_of(lower_domain, TextColor::Black, REGULAR_SIZE),
        ]),
        BlockModel::Rich(seq![
            run_of("Ref: "@, TextColor::Red, REGULAR_SIZE),
            run_of("https://www.virustotal.com/gui/domain/"@, TextColor::Black, REGULAR_SIZE),
            run_of(lower_domain, TextColor::Black, REGULAR_SIZE),
        ]),
        BlockModel::Rich(seq![
            run_of("Ref: "@, TextColor::Red, REGULAR_SIZE),
            run_of("https://talosintelligence.com/reputation_center/lookup?search="@, TextColor::Black, REGULAR_SIZE),
            run_of(lower_domain, TextColor::Black, REGULAR_SIZE),
        ]),
        para_of("As per the analysis we observed that, there is ******** Attached file is an html document and is trying to get the credentials of the user. Intention of the mail is credential harvesting."@, TextColor::DarkBlue, REGULAR_SIZE),
        para_of("Security Team verdict"@, TextColor::DarkBlue, SIDE_HEAD_SIZE),
        BlockModel::Rich(seq![
            run_of("\tAs per our Analysis, we have reached a verdict that the attached email is "@, TextColor::Black, REGULAR_SIZE),
            run_of("***** "@, TextColor::Red, REGULAR_SIZE),
            run_of("Mail."@, TextColor::Black, REGULAR_SIZE),
        ]),
        para_of("Screenshots:"@, TextColor::DarkBlue, SIDE_HEAD_SIZE),
        para_of(""@, TextColor::Black, REGULAR_SIZE),
        para_of(""@, TextColor::Black, REGULAR_SIZE),
        BlockModel::Heading(run_of("Mail - Headers"@, TextColor::DarkBlue, HEADING_SIZE)),
        para_of("Authentication-Results"@, TextColor::DarkBlue, SIDE_HEAD_SIZE),
        para_of(lookup_or_na(headers, "Authentication-Results"@), TextColor::Black, REGULAR_SIZE),
        para_of("Return-Path"@, TextColor::DarkBlue, SIDE_HEAD_SIZE),
        para_of(trim(lookup_or_na(headers, "Return-Path"@)), TextColor::Black, REGULAR_SIZE),
        para_of("Received-Spf"@, TextColor::DarkBlue, SIDE_HEAD_SIZE),
        para_of(lookup_or_na(headers, "Received-Spf"@), TextColor::Black, REGULAR_SIZE),
        para_of("Content-Type"@, TextColor::DarkBlue, SIDE_HEAD_SIZE),
        para_of(lookup_or_na(headers, "Content-Type"@), TextColor::Black, REGULAR_SIZE),
        para_of("Body Content-Type"@, TextColor::DarkBlue, SIDE_HEAD_SIZE),
        para_of(dump_parts(parts), TextColor::Black, REGULAR_SIZE),
    ]
}

/// Two assemblies from identical input data yield structurally
/// identical block sequences: the report is a pure function of the
/// incident number and the extracted header data, with no hidden
/// state.
pub proof fn lemma_assembly_deterministic(
    incident: Seq<char>,
    headers: Seq<FieldModel>,
    parts: Seq<Seq<FieldModel>>,
    first: Seq<BlockModel>,
    second: Seq<BlockModel>,
)
    requires
        first == report_blocks(incident, headers, parts),
        second == report_blocks(incident, headers, parts),
    ensures
        first == second,
{
}

/// The report assembler: holds the output path the caller wants the
/// rendered document written to, and the incident number shown in the
/// report heading.
pub struct NewDocx {
    docx_path: String,
    i_number: String,
}

impl View for NewDocx {
    type V = (Seq<char>, Seq<char>);

    closed spec fn view(&self) -> (Seq<char>, Seq<char>) {
        (self.docx_path@, self.i_number@)
    }
}

impl NewDocx {
    /// Creates an assembler for the given output path and incident
    /// number.
    pub fn new(path: String, incident_number: String) -> (r: NewDocx)
        ensures
            r@ == (path@, incident_number@),
    {
        NewDocx { docx_path: path, i_number: incident_number }
    }

    /// The output path this assembler was created with.
    pub fn path(&self) -> (r: &String)
        ensures
            r@ == self@.0,
    {
        &self.docx_path
    }

    /// The stored value for `key`, or the `"NA"` sentinel if absent.
    pub fn get_values(key: &str, map: &HeaderMap) -> (r: String)
        ensures
            r@ == lookup_or_na(map@, key@),
    {
        map.get(key)
    }

    /// A styled run of text.
    pub fn build_run(text: &str, color: TextColor, size: u32) -> (r: StyledRun)
        ensures
            r@ == run_of(text@, color, size),
    {
        StyledRun { text: text.to_owned(), color, size }
    }

    /// A centered heading block.
    pub fn head(text: &str, color: TextColor, size: u32) -> (r: ReportBlock)
        ensures
            r@ == BlockModel::Heading(run_of(text@, color, size)),
    {
        ReportBlock::Heading(Self::build_run(text, color, size))
    }

    /// A single-run paragraph block.
    pub fn build_paragraph(text: &str, color: TextColor, size: u32) -> (r: ReportBlock)
        ensures
            r@ == para_of(text@, color, size),
    {
        ReportBlock::Paragraph(Self::build_run(text, color, size))
    }

    /// A table row; the value cell carries the fixed `":\t"` prefix.
    pub fn table_row(side_head: &str, main_data: &str) -> (r: LabeledValue)
        ensures
            r@ == row_of(side_head@, main_data@),
    {
        let mut value: String = ":\t".to_owned();
        value.append(main_data);
        LabeledValue { label: side_head.to_owned(), value }
    }

    /// Assembles the whole report from the top-level header map and
    /// the per-part header maps. Assembly never fails: absent fields
    /// degrade to the `"NA"` sentinel and malformed addresses degrade
    /// to the fixed fallback text. The result is exactly
    /// [`report_blocks`] applied to the incident number and the header
    /// data, with the fixed page margins.
    #[verifier::rlimit(100)]
    pub fn generate_content(&self, headers: HeaderMap, b_headers: Vec<HeaderMap>) -> (r: ReportModel)
        ensures
            r@.blocks == report_blocks(self@.1, headers@, b_headers.deep_view()),
            r@.margins == report_margins(),
    {
        let from_address = Self::get_values("From", &headers);
        let sender_domain_text = domain_of(from_address.as_str());
        let summary = attachment_summary(&b_headers);
        let count = summary.1;
        let attachments: &str = if summary.0 { "Yes" } else { "No" };
        let count_text: String = if count == 0 {
            "no".to_owned()
        } else {
            decimal_string(count as u64)
        };
        let lower_domain = ascii_lowercase(sender_domain_text.as_str());
        let date = Self::get_values("Date", &headers);
        let subject = Self::get_values("Subject", &headers);
        let to = Self::get_values("To", &headers);
        let return_path = Self::get_values("Return-Path", &headers);
        let h_content_type = Self::get_values("Content-Type", &headers);
        let spf = Self::get_values("Received-Spf", &headers);
        let auth_result = Self::get_values("Authentication-Results", &headers);
        let return_path_trimmed = trimmed(return_path.as_str());
        let dump = header_dump(&b_headers);
        let mut heading_text: String = "INCIDENT ".to_owned();
        heading_text.append(self.i_number.as_str());

        let mut rows: Vec<LabeledValue> = Vec::new();
        rows.push(Self::table_row("1. Date", date.as_str()));
        rows.push(Self::table_row("2. Subject", subject.as_str()));
        rows.push(Self::table_row("3. Sender Id", from_address.as_str()));
        rows.push(Self::table_row("4. Recipient Id", to.as_str()));
        rows.push(Self::table_row("5. Domain", sender_domain_text.as_str()));
        rows.push(Self::table_row("6. Blacklisted(Y/N)", "No"));
        rows.push(Self::table_row("7. Email Gateway", "Delivered"));
        rows.push(Self::table_row("8. Attachments", attachments));
        rows.push(Self::table_row("9. Attachments (Malicious)", "****"));
        rows.push(Self::table_row("10. URL(S)", "****"));
        rows.push(Self::table_row("11. URL (Malicious)", "****"));

        let mut analysis_runs: Vec<StyledRun> = Vec::new();
        analysis_runs.push(Self::build_run("User received a mail from ", TextColor::Black, REGULAR_SIZE));
        analysis_runs.push(Self::build_run(from_address.as_str(), TextColor::Red, REGULAR_SIZE));
        analysis_runs.push(Self::build_run(" which was detected as a ***-suspicious mail. As per the initial analysis we gathered that the mail came from ", TextColor::Black, REGULAR_SIZE));
        analysis_runs.push(Self::build_run(sender_domain_text.as_str(), TextColor::Red, REGULAR_SIZE));
        analysis_runs.push(Self::build_run(".", TextColor::Black, REGULAR_SIZE));

        let mut count_runs: Vec<StyledRun> = Vec::new();
        count_runs.push(Self::build_run("We also observed that there are *** URL(s) and ", TextColor::Black, REGULAR_SIZE));
        count_runs.push(Self::build_run(count_text.as_str(), TextColor::Black, REGULAR_SIZE));
        count_runs.push(Self::build_run(" Attachment(s) in this email body.", TextColor::Black, REGULAR_SIZE));

        let mut urlvoid_runs: Vec<StyledRun> = Vec::new();
        urlvoid_runs.push(Self::build_run("Ref: ", TextColor::Red, REGULAR_SIZE));
        urlvoid_runs.push(Self::build_run("https://www.urlvoid.com/scan/", TextColor::Black, REGULAR_SIZE));
        urlvoid_runs.push(Self::build_run(lower_domain.as_str(), TextColor::Black, REGULAR_SIZE));

        let mut virustotal_runs: Vec<StyledRun> = Vec::new();
        virustotal_runs.push(Self::build_run("Ref: ", TextColor::Red, REGULAR_SIZE));
        virustotal_runs.push(Self::build_run("https://www.virustotal.com/gui/domain/", TextColor::Black, REGULAR_SIZE));
        virustotal_runs.push(Self::build_run(lower_domain.as_str(), TextColor::Black, REGULAR_SIZE));

        let mut talos_runs: Vec<StyledRun> = Vec::new();
        talos_runs.push(Self::build_run("Ref: ", TextColor::Red, REGULAR_SIZE));
        talos_runs.push(Self::build_run("https://talosintelligence.com/reputation_center/lookup?search=", TextColor::Black, REGULAR_SIZE));
        talos_runs.push(Self::build_run(lower_domain.as_str(), TextColor::Black, REGULAR_SIZE));

        let mut verdict_runs: Vec<StyledRun> = Vec::new();
        verdict_runs.push(Self::build_run("\tAs per our Analysis, we have reached a verdict that the attached email is ", TextColor::Black, REGULAR_SIZE));
        verdict_runs.push(Self::build_run("***** ", TextColor::Red, REGULAR_SIZE));
        verdict_runs.push(Self::build_run("Mail.", TextColor::Black, REGULAR_SIZE));

        let mut blocks: Vec<ReportBlock> = Vec::new();
        blocks.push(Self::head(heading_text.as_str(), TextColor::DarkBlue, HEADING_SIZE));
        blocks.push(Self::build_paragraph("Please find the following initial analysis details.", TextColor::DarkBlue, REGULAR_SIZE));
        blocks.push(ReportBlock::Table(rows));
        blocks.push(Self::build_paragraph("", TextColor::Black, REGULAR_SIZE));
        blocks.push(Self::build_paragraph("Ref: ", TextColor::DarkBlue, SIDE_HEAD_SIZE));
        blocks.push(Self::build_paragraph("*****", TextColor::Red, REGULAR_SIZE));
        blocks.push(Self::build_paragraph("Domain Analysis", TextColor::DarkBlue, SIDE_HEAD_SIZE));
        blocks.push(Self::build_paragraph("*****", TextColor::Red, REGULAR_SIZE));
        blocks.push(Self::build_paragraph("Analysis", TextColor::DarkBlue, SIDE_HEAD_SIZE));
        blocks.push(ReportBlock::Rich(analysis_runs));
        blocks.push(ReportBlock::Rich(count_runs));
        blocks.push(Self::build_paragraph("The Domain is clean as per virus total, Kaspersky and URL void.", TextColor::Black, REGULAR_SIZE));
        blocks.push(ReportBlock::Rich(urlvoid_runs));
        blocks.push(ReportBlock::Rich(virustotal_runs));
        blocks.push(ReportBlock::Rich(talos_runs));
        blocks.push(Self::build_paragraph("As per the analysis we observed that, there is ******** Attached file is an html document and is trying to get the credentials of the user. Intention of the mail is credential harvesting.", TextColor::DarkBlue, REGULAR_SIZE));
        blocks.push(Self::build_paragraph("Security Team verdict", TextColor::DarkBlue, SIDE_HEAD_SIZE));
        blocks.push(ReportBlock::Rich(verdict_runs));
        blocks.push(Self::build_paragraph("Screenshots:", TextColor::DarkBlue, SIDE_HEAD_SIZE));
        blocks.push(Self::build_paragraph("", TextColor::Black, REGULAR_SIZE));
        blocks.push(Self::build_paragraph("", TextColor::Black, REGULAR_SIZE));
        blocks.push(Self::head("Mail - Headers", TextColor::DarkBlue, HEADING_SIZE));
        blocks.push(Self::build_paragraph("Authentication-Results", TextColor::DarkBlue, SIDE_HEAD_SIZE));
        blocks.push(Self::build_paragraph(auth_result.as_str(), TextColor::Black, REGULAR_SIZE));
        blocks.push(Self::build_paragraph("Return-Path", TextColor::DarkBlue, SIDE_HEAD_SIZE));
        blocks.push(Self::build_paragraph(return_path_trimmed.as_str(), TextColor::Black, REGULAR_SIZE));
        blocks.push(Self::build_paragraph("Received-Spf", TextColor::DarkBlue, SIDE_HEAD_SIZE));
        blocks.push(Self::build_paragraph(spf.as_str(), TextColor::Black, REGULAR_SIZE));
        blocks.push(Self::build_paragraph("Content-Type", TextColor::DarkBlue, SIDE_HEAD_SIZE));
        blocks.push(Self::build_paragraph(h_content_type.as_str(), TextColor::Black, REGULAR_SIZE));
        blocks.push(Self::build_paragraph("Body Content-Type", TextColor::DarkBlue, SIDE_HEAD_SIZE));
        blocks.push(Self::build_paragraph(dump.as_str(), TextColor::Black, REGULAR_SIZE));

        let margins = PageMargins {
            top: 1440,
            left: 1440,
            bottom: 1440,
            right: 1440,
            header: 1440,
            footer: 1440,
            gutter: 0,
        };
        let r = ReportModel { blocks, margins };
        proof {
            assert(r@.blocks =~~= report_blocks(self@.1, headers@, b_headers.deep_view()));
        }
        r
    }
}

} // verus!
