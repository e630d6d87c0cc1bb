use sammy_lib::sources::{
    csv_lines, docx_text_from_events, lines, sanitize_fts_phrase, CsvExtractor, DocxExtractor, Extractor, JsonExtractor,
    MarkdownExtractor, PdfExtractor, SourceKind, TextExtractor, UnsupportedExtractor, XmlEvent,
};
use std::io::{Cursor, Write};

#[test]
fn text_extractor_round_trip() {
    let r = TextExtractor.extract(b"hello world").unwrap();
    assert_eq!(r.text, "hello world");
    assert_eq!(r.derivation, "original");
}

#[test]
fn text_extractor_replaces_invalid_bytes() {
    let r = TextExtractor.extract(&[b'a', 0xff, b'b']).unwrap();
    assert_eq!(r.text, "a\u{FFFD}b");
}

#[test]
fn markdown_extractor_counts_lines() {
    let r = MarkdownExtractor.extract(b"# Title\nbody\nmore").unwrap();
    assert!(r.locations[0].contains("1-3"), "got: {}", r.locations[0]);
}

#[test]
fn csv_extractor_counts_rows_cols() {
    let r = CsvExtractor.extract(b"a,b,c\n1,2,3").unwrap();
    assert!(r.locations[0].contains("rows:2"));
    assert!(r.locations[0].contains("cols:3"));
    assert_eq!(r.locations[0], "rows:2,cols:3");
}

#[test]
fn csv_lines_handles_quoted_commas() {
    let rows = csv_lines("\"a,b\",c\nd,e");
    assert_eq!(rows.len(), 2);
    assert_eq!(rows[0], vec!["a,b".to_string(), "c".into()]);
}

#[test]
fn lines_split_like_str_lines() {
    let ls: Vec<String> = lines("a\r\nb\n\nc\n").into_iter().map(|l| l.into_iter().collect()).collect();
    assert_eq!(ls, vec!["a", "b", "", "c"]);
    assert!(lines("").is_empty());
}

fn pdf_extract(bytes: &[u8]) -> Result<sammy_lib::sources::ExtractedText, sammy_lib::error::AppError> {
    PdfExtractor::from_pdf_text(pdf_extract::extract_text_from_mem(bytes).ok())
}

fn docx_with_body(xml: &[u8]) -> Vec<u8> {
    let mut bytes = Vec::new();
    {
        let mut zip = zip::ZipWriter::new(Cursor::new(&mut bytes));
        zip.start_file::<_, ()>("word/document.xml", zip::write::SimpleFileOptions::default()).unwrap();
        zip.write_all(xml).unwrap();
        zip.finish().unwrap();
    }
    bytes
}

#[test]
fn docx_extractor_reads_document_text_without_embedded_content() {
    let bytes = docx_with_body(
        br#"<w:document xmlns:w="http://schemas.openxmlformats.org/wordprocessingml/2006/main"><w:body><w:p><w:r><w:t>Hello &amp; safe</w:t></w:r></w:p><w:p><w:r><w:t>Second paragraph</w:t></w:r></w:p></w:body></w:document>"#,
    );
    let result = DocxExtractor.extract(&bytes).unwrap();
    assert_eq!(result.text, "Hello & safe\nSecond paragraph");
    assert_eq!(result.locations, vec!["paragraphs:2"]);
    assert_eq!(result.derivation, "extracted");
}

#[test]
fn invalid_docx_and_pdf_fail_instead_of_indexing_binary_data() {
    assert!(DocxExtractor.extract(b"not a zip").is_err());
    assert!(pdf_extract(b"not a pdf").is_err());
    assert!(UnsupportedExtractor.extract(b"binary").is_err());
}

#[test]
fn docx_errors_name_the_failing_step() {
    let msg = |r: Result<sammy_lib::sources::ExtractedText, sammy_lib::error::AppError>| match r {
        Err(sammy_lib::error::AppError::InvalidArgument(m)) => m,
        other => panic!("unexpected: {:?}", other.map(|t| t.text)),
    };
    assert_eq!(msg(DocxExtractor.extract(b"not a zip")), "invalid DOCX package");
    let mut other = Vec::new();
    {
        let mut zip = zip::ZipWriter::new(Cursor::new(&mut other));
        zip.start_file::<_, ()>("word/styles.xml", zip::write::SimpleFileOptions::default()).unwrap();
        zip.write_all(b"<styles/>").unwrap();
        zip.finish().unwrap();
    }
    assert_eq!(msg(DocxExtractor.extract(&other)), "DOCX has no document body");
    assert_eq!(msg(DocxExtractor.extract(&docx_with_body(&[0xff, 0xfe, 0x00]))), "DOCX document XML is invalid");
    assert_eq!(msg(DocxExtractor.extract(&docx_with_body(b"<w:p><w:r></w:r></w:p>"))), "DOCX contains no text");
    assert_eq!(msg(DocxExtractor.extract(&docx_with_body(b"<w:t>a</w:x>"))), "DOCX XML is invalid");
}

#[test]
fn docx_tabs_breaks_and_trailing_space() {
    let bytes = docx_with_body(b"<w:p><w:r><w:t>a</w:t><w:t><w:tab/></w:t></w:r></w:p><w:p><w:r><w:t>b<w:br/>c  </w:t></w:r></w:p>");
    let r = DocxExtractor.extract(&bytes).unwrap();
    assert_eq!(r.locations, vec!["paragraphs:2"]);
    assert_eq!(r.text, "a\nbc");
}

#[test]
fn pdf_text_is_paged_by_form_feeds() {
    let r = PdfExtractor::from_pdf_text(Some("one\u{000c}two\u{000c}three".to_string())).unwrap();
    assert_eq!(r.locations, vec!["page:1", "page:2", "page:3"]);
    assert_eq!(r.derivation, "extracted");
    assert_eq!(r.text, "one\u{000c}two\u{000c}three");
    match PdfExtractor::from_pdf_text(Some(" \n\t".to_string())) {
        Err(sammy_lib::error::AppError::InvalidArgument(m)) => {
            assert_eq!(m, "PDF contains no extractable text; scanned pages require OCR")
        }
        _ => panic!("blank text must be refused"),
    }
    match PdfExtractor::from_pdf_text(None) {
        Err(sammy_lib::error::AppError::InvalidArgument(m)) => assert_eq!(m, "unable to extract text from PDF"),
        _ => panic!("a failed parse must be refused"),
    }
}

#[test]
fn kind_classification_from_extension() {
    assert_eq!(SourceKind::from_extension("txt"), SourceKind::Text);
    assert_eq!(SourceKind::from_extension("MD"), SourceKind::Markdown);
    assert_eq!(SourceKind::from_extension("pdf"), SourceKind::Pdf);
    assert_eq!(SourceKind::from_extension("png"), SourceKind::Image);
    assert_eq!(SourceKind::from_extension("weird"), SourceKind::Unknown);
    assert_eq!(SourceKind::from_extension("JPEG").as_str(), "image");
}

#[test]
fn fts_phrase_quotes_and_escapes() {
    assert_eq!(sanitize_fts_phrase("eagle"), "\"eagle\"");
    assert_eq!(sanitize_fts_phrase("a \"b\" OR c*"), "\"a \"\"b\"\" OR c*\"");
}

#[test]
fn json_extractor_pretty_prints() {
    let e = JsonExtractor;
    let r = e.extract(br#"{"a":1}"#).unwrap();
    assert!(r.text.contains("\"a\": 1"));
    assert!(r.locations[0].contains("object"));
}

#[test]
fn json_extractor_rejects_invalid() {
    let e = JsonExtractor;
    assert!(e.extract(b"not json").is_err());
}

#[test]
fn json_extractor_names_each_root_kind() {
    let r = JsonExtractor.extract(b"[1, 2]").unwrap();
    assert_eq!(r.locations, vec!["json_root:array".to_string()]);
    assert_eq!(r.derivation, "original");
    assert_eq!(r.text, "[\n  1,\n  2\n]");
    let r = JsonExtractor.extract(b"42").unwrap();
    assert_eq!(r.locations, vec!["json_root:scalar".to_string()]);
    match JsonExtractor.extract(b"{") {
        Err(sammy_lib::error::AppError::InvalidArgument(m)) => assert!(m.starts_with("invalid JSON: ")),
        other => panic!("unexpected: {:?}", other.map(|t| t.text)),
    }
}

fn start(n: &str) -> XmlEvent {
    XmlEvent::Start(n.as_bytes().to_vec())
}

fn end(n: &str) -> XmlEvent {
    XmlEvent::End(n.as_bytes().to_vec())
}

fn text(t: &str) -> XmlEvent {
    XmlEvent::Text(Some(t.to_string()))
}

#[test]
fn docx_events_give_paragraph_text() {
    let events = vec![
        start("document"),
        start("body"),
        start("p"),
        start("r"),
        start("t"),
        text("Hello & safe"),
        end("t"),
        end("r"),
        end("p"),
        start("p"),
        start("r"),
        start("t"),
        text("Second"),
        start("tab"),
        text("paragraph"),
        end("t"),
        end("r"),
        end("p"),
        end("body"),
        end("document"),
        XmlEvent::Eof,
    ];
    let r = docx_text_from_events(&events).unwrap();
    assert_eq!(r.text, "Hello & safe\nSecond\tparagraph");
    assert_eq!(r.locations, vec!["paragraphs:2".to_string()]);
    assert_eq!(r.derivation, "extracted");
}

#[test]
fn docx_events_outside_text_runs_are_ignored() {
    let events = vec![start("p"), text("not in a run"), start("tab"), end("p"), XmlEvent::Eof];
    match docx_text_from_events(&events) {
        Err(sammy_lib::error::AppError::InvalidArgument(m)) => assert_eq!(m, "DOCX contains no text"),
        other => panic!("unexpected: {:?}", other.map(|t| t.text)),
    }
    let bad = vec![start("t"), XmlEvent::Text(None), XmlEvent::Eof];
    match docx_text_from_events(&bad) {
        Err(sammy_lib::error::AppError::InvalidArgument(m)) => assert_eq!(m, "DOCX text is invalid"),
        other => panic!("unexpected: {:?}", other.map(|t| t.text)),
    }
    let broken = vec![start("t"), text("partial"), XmlEvent::Invalid];
    match docx_text_from_events(&broken) {
        Err(sammy_lib::error::AppError::InvalidArgument(m)) => assert_eq!(m, "DOCX XML is invalid"),
        other => panic!("unexpected: {:?}", other.map(|t| t.text)),
    }
}
