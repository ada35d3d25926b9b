use mail_report::headers::HeaderMap;
use mail_report::report::{NewDocx, PageMargins, ReportBlock, TextColor};

fn sample_headers() -> HeaderMap {
    let mut map = HeaderMap::new();
    map.insert("From".to_string(), "\"A\" <a@CORP.example>".to_string());
    map.insert("Date".to_string(), "Mon, 1 Jan 2024 00:00:00 +0000".to_string());
    map.insert("Subject".to_string(), "urgent".to_string());
    map.insert("To".to_string(), "victim@corp.example".to_string());
    map.insert("Return-Path".to_string(), " <a@CORP.example> ".to_string());
    map
}

fn sample_parts() -> Vec<HeaderMap> {
    let mut plain = HeaderMap::new();
    plain.insert("Content-Type".to_string(), "text/plain".to_string());
    let mut attached = HeaderMap::new();
    attached.insert("Content-Disposition".to_string(), "attachment".to_string());
    vec![plain, attached]
}

fn expect_paragraph(block: &ReportBlock) -> (&str, TextColor, u32) {
    match block {
        ReportBlock::Paragraph(run) => (run.text.as_str(), run.color, run.size),
        other => panic!("expected a paragraph block, got {:?}", other),
    }
}

#[test]
fn heading_carries_incident_number() {
    let assembler = NewDocx::new("out.docx".to_string(), "77".to_string());
    let report = assembler.generate_content(sample_headers(), sample_parts());
    match &report.blocks[0] {
        ReportBlock::Heading(run) => {
            assert_eq!(run.text, "INCIDENT 77");
            assert_eq!(run.color, TextColor::DarkBlue);
            assert_eq!(run.size, 36);
        },
        other => panic!("expected a heading block, got {:?}", other),
    }
}

#[test]
fn report_has_the_fixed_block_count_and_margins() {
    let assembler = NewDocx::new("out.docx".to_string(), "1".to_string());
    let report = assembler.generate_content(sample_headers(), sample_parts());
    assert_eq!(report.blocks.len(), 32);
    let expected = PageMargins {
        top: 1440,
        left: 1440,
        bottom: 1440,
        right: 1440,
        header: 1440,
        footer: 1440,
        gutter: 0,
    };
    assert_eq!(report.margins, expected);
}

#[test]
fn table_rows_are_fixed_and_prefixed() {
    let assembler = NewDocx::new("out.docx".to_string(), "1".to_string());
    let report = assembler.generate_content(sample_headers(), sample_parts());
    let rows = match &report.blocks[2] {
        ReportBlock::Table(rows) => rows,
        other => panic!("expected the table block, got {:?}", other),
    };
    assert_eq!(rows.len(), 11);
    assert_eq!(rows[0].label, "1. Date");
    assert_eq!(rows[0].value, ":\tMon, 1 Jan 2024 00:00:00 +0000");
    assert_eq!(rows[2].label, "3. Sender Id");
    assert_eq!(rows[2].value, ":\t\"A\" <a@CORP.example>");
    assert_eq!(rows[4].value, ":\tCORP.example");
    assert_eq!(rows[5].value, ":\tNo");
    assert_eq!(rows[6].value, ":\tDelivered");
    assert_eq!(rows[7].value, ":\tYes");
    assert_eq!(rows[8].value, ":\t****");
    assert_eq!(rows[10].label, "11. URL (Malicious)");
    assert_eq!(rows[10].value, ":\t****");
}

#[test]
fn missing_fields_degrade_to_na_in_the_table() {
    let assembler = NewDocx::new("out.docx".to_string(), "1".to_string());
    let report = assembler.generate_content(HeaderMap::new(), Vec::new());
    let rows = match &report.blocks[2] {
        ReportBlock::Table(rows) => rows,
        other => panic!("expected the table block, got {:?}", other),
    };
    assert_eq!(rows[0].value, ":\tNA");
    assert_eq!(rows[2].value, ":\tNA");
    assert_eq!(rows[4].value, ":\tNot able to extract domain");
    assert_eq!(rows[7].value, ":\tNo");
}

#[test]
fn narrative_substitutes_sender_and_domain() {
    let assembler = NewDocx::new("out.docx".to_string(), "1".to_string());
    let report = assembler.generate_content(sample_headers(), sample_parts());
    let runs = match &report.blocks[9] {
        ReportBlock::Rich(runs) => runs,
        other => panic!("expected the analysis block, got {:?}", other),
    };
    assert_eq!(runs.len(), 5);
    assert_eq!(runs[0].text, "User received a mail from ");
    assert_eq!(runs[1].text, "\"A\" <a@CORP.example>");
    assert_eq!(runs[1].color, TextColor::Red);
    assert_eq!(runs[3].text, "CORP.example");
    assert_eq!(runs[4].text, ".");
}

#[test]
fn attachment_count_renders_as_word_no_when_zero() {
    let assembler = NewDocx::new("out.docx".to_string(), "1".to_string());
    let report = assembler.generate_content(sample_headers(), Vec::new());
    let runs = match &report.blocks[10] {
        ReportBlock::Rich(runs) => runs,
        other => panic!("expected the count block, got {:?}", other),
    };
    assert_eq!(runs[1].text, "no");
}

#[test]
fn attachment_count_renders_in_decimal_when_nonzero() {
    let assembler = NewDocx::new("out.docx".to_string(), "1".to_string());
    let report = assembler.generate_content(sample_headers(), sample_parts());
    let runs = match &report.blocks[10] {
        ReportBlock::Rich(runs) => runs,
        other => panic!("expected the count block, got {:?}", other),
    };
    assert_eq!(runs[1].text, "1");
}

#[test]
fn reputation_links_use_the_lowercased_domain() {
    let assembler = NewDocx::new("out.docx".to_string(), "1".to_string());
    let report = assembler.generate_content(sample_headers(), sample_parts());
    let expected_bases = [
        "https://www.urlvoid.com/scan/",
        "https://www.virustotal.com/gui/domain/",
        "https://talosintelligence.com/reputation_center/lookup?search=",
    ];
    for (i, base) in expected_bases.iter().enumerate() {
        let runs = match &report.blocks[12 + i] {
            ReportBlock::Rich(runs) => runs,
            other => panic!("expected a reputation block, got {:?}", other),
        };
        assert_eq!(runs[0].text, "Ref: ");
        assert_eq!(runs[0].color, TextColor::Red);
        assert_eq!(runs[1].text, *base);
        assert_eq!(runs[2].text, "corp.example");
    }
}

#[test]
fn headers_appendix_echoes_and_trims() {
    let assembler = NewDocx::new("out.docx".to_string(), "1".to_string());
    let report = assembler.generate_content(sample_headers(), sample_parts());
    assert_eq!(expect_paragraph(&report.blocks[22]).0, "Authentication-Results");
    assert_eq!(expect_paragraph(&report.blocks[23]).0, "NA");
    assert_eq!(expect_paragraph(&report.blocks[24]).0, "Return-Path");
    assert_eq!(expect_paragraph(&report.blocks[25]).0, "<a@CORP.example>");
    assert_eq!(expect_paragraph(&report.blocks[30]).0, "Body Content-Type");
    assert_eq!(
        expect_paragraph(&report.blocks[31]).0,
        "[{Content-Type: text/plain}][{Content-Disposition: attachment}]"
    );
}

#[test]
fn verdict_block_embeds_the_redaction_marker() {
    let assembler = NewDocx::new("out.docx".to_string(), "1".to_string());
    let report = assembler.generate_content(sample_headers(), sample_parts());
    assert_eq!(expect_paragraph(&report.blocks[16]).0, "Security Team verdict");
    let runs = match &report.blocks[17] {
        ReportBlock::Rich(runs) => runs,
        other => panic!("expected the verdict block, got {:?}", other),
    };
    assert_eq!(runs[1].text, "***** ");
    assert_eq!(runs[1].color, TextColor::Red);
}

#[test]
fn assembling_twice_yields_identical_reports() {
    let first = NewDocx::new("out.docx".to_string(), "9".to_string())
        .generate_content(sample_headers(), sample_parts());
    let second = NewDocx::new("out.docx".to_string(), "9".to_string())
        .generate_content(sample_headers(), sample_parts());
    assert_eq!(first, second);
}

#[test]
fn color_hex_codes_match_the_palette() {
    assert_eq!(TextColor::DarkBlue.hex_code(), "#1D076D");
    assert_eq!(TextColor::Black.hex_code(), "#000000");
    assert_eq!(TextColor::Red.hex_code(), "#FF0000");
}
