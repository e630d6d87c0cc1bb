//! Source ingestion: classifying the files the owner picks, and the
//! extractors that turn their bytes into text without ever running active
//! content. Storage, indexing and the extractors that need an outside
//! runtime live with the caller.

use vstd::prelude::*;
use vstd::utf8::{decode_utf8, valid_utf8};
use crate::error::AppError;
use crate::text::{chars_of, decimal, decimal_string, push_char, push_str, string_from_chars, trim_chars, trim_spec};

verus! {
/// The kind of a source, classified from its file extension.
#[derive(Debug, Clone, Copy, PartialEq, Eq, Structural)]
pub enum SourceKind {
    Text,
    Markdown,
    Json,
    Csv,
    Pdf,
    Docx,
    Image,
    Unknown,
}

/// The stable string form of each [`SourceKind`].
pub open spec fn source_kind_name(x: SourceKind) -> Seq<char> {
    match x {
        SourceKind::Text => "text"@,
        SourceKind::Markdown => "markdown"@,
        SourceKind::Json => "json"@,
        SourceKind::Csv => "csv"@,
        SourceKind::Pdf => "pdf"@,
        SourceKind::Docx => "docx"@,
        SourceKind::Image => "image"@,
        SourceKind::Unknown => "unknown"@,
    }
}

impl SourceKind {
    /// The stable string form.
    pub fn as_str(self) -> (s: &'static str)
        ensures
            s@ == source_kind_name(self),
    {
        match self {
            SourceKind::Text => "text",
            SourceKind::Markdown => "markdown",
            SourceKind::Json => "json",
            SourceKind::Csv => "csv",
            SourceKind::Pdf => "pdf",
            SourceKind::Docx => "docx",
            SourceKind::Image => "image",
            SourceKind::Unknown => "unknown",
        }
    }
}

/// The kind of a source with the given (lowercased) extension.
pub open spec fn kind_for_extension(ext: Seq<char>) -> SourceKind {
    if ext == "txt"@ {
        SourceKind::Text
    } else if ext == "md"@ || ext == "markdown"@ {
        SourceKind::Markdown
    } else if ext == "json"@ {
        SourceKind::Json
    } else if ext == "csv"@ {
        SourceKind::Csv
    } else if ext == "pdf"@ {
        SourceKind::Pdf
    } else if ext == "docx"@ {
        SourceKind::Docx
    } else if ext == "png"@ || ext == "jpg"@ || ext == "jpeg"@ || ext == "webp"@ {
        SourceKind::Image
    } else {
        SourceKind::Unknown
    }
}

fn eq_lit(a: &Vec<char>, b: &str) -> (r: bool)
    ensures
        r == (a@ == b@),
{
    crate::text::chars_eq(a, &chars_of(b))
}

impl SourceKind {
    /// Classify a file extension, ignoring ASCII case.
    pub fn from_extension(ext: &str) -> (k: Self)
        ensures
            k == kind_for_extension(crate::text::ascii_lower_seq(ext@)),
    {
        let e = crate::text::lower_ascii_chars(&chars_of(ext));
        if eq_lit(&e, "txt") {
            SourceKind::Text
        } else if eq_lit(&e, "md") || eq_lit(&e, "markdown") {
            SourceKind::Markdown
        } else if eq_lit(&e, "json") {
            SourceKind::Json
        } else if eq_lit(&e, "csv") {
            SourceKind::Csv
        } else if eq_lit(&e, "pdf") {
            SourceKind::Pdf
        } else if eq_lit(&e, "docx") {
            SourceKind::Docx
        } else if eq_lit(&e, "png") || eq_lit(&e, "jpg") || eq_lit(&e, "jpeg") || eq_lit(&e, "webp") {
            SourceKind::Image
        } else {
            SourceKind::Unknown
        }
    }
}

/// The output of extraction.
#[derive(Debug, Clone)]
pub struct ExtractedText {
    pub text: String,
    /// Structure hints such as `page:1` or `lines:1-3`.
    pub locations: Vec<String>,
    /// `original` for plain text, `extracted` or `ocr` for derived text.
    pub derivation: String,
}

/// A replaceable extraction adapter: bytes in, sanitized text out, no
/// active content ever executed.
pub trait Extractor {
    fn extract(&self, bytes: &[u8]) -> Result<ExtractedText, AppError>;
}

/// What `String::from_utf8_lossy` makes of a byte string.
pub uninterp spec fn utf8_lossy_text(bytes: Seq<u8>) -> Seq<char>;

/// `String::from_utf8_lossy(bytes).into_owned()`. The std documentation
/// promises that valid UTF-8 is decoded unchanged; what invalid sequences
/// become (replacement characters) is named, not described.
#[verifier::external_body]
fn utf8_lossy(bytes: &[u8]) -> (s: String)
    ensures
        s@ == utf8_lossy_text(bytes@),
        valid_utf8(bytes@) ==> s@ == decode_utf8(bytes@),
{
    String::from_utf8_lossy(bytes).into_owned()
}

/// A line without the `\r` of a `\r\n` ending.
pub open spec fn strip_cr(line: Seq<char>) -> Seq<char> {
    if line.len() > 0 && line.last() == '\r' {
        line.drop_last()
    } else {
        line
    }
}

/// The finished lines and the line in progress after reading `s`.
pub open spec fn lines_state(s: Seq<char>) -> (Seq<Seq<char>>, Seq<char>)
    decreases s.len(),
{
    if s.len() == 0 {
        (Seq::empty(), Seq::empty())
    } else {
        let (done, cur) = lines_state(s.drop_last());
        if s.last() == '\n' {
            (done.push(strip_cr(cur)), Seq::empty())
        } else {
            (done, cur.push(s.last()))
        }
    }
}

/// `str::lines`: the text split at `\n` (or `\r\n`) endings, the final
/// ending optional.
pub open spec fn lines_of(s: Seq<char>) -> Seq<Seq<char>> {
    let (done, cur) = lines_state(s);
    if cur.len() > 0 {
        done.push(cur)
    } else {
        done
    }
}

fn strip_cr_chars(line: Vec<char>) -> (r: Vec<char>)
    ensures
        r@ == strip_cr(line@),
{
    let mut line = line;
    if line.len() > 0 && line[line.len() - 1] == '\r' {
        line.pop();
    }
    line
}

/// The lines of a text, as `str::lines` splits them.
pub fn lines(text: &str) -> (r: Vec<Vec<char>>)
    ensures
        r@.len() == lines_of(text@).len(),
        forall|i: int| 0 <= i < r@.len() ==> (#[trigger] r@[i])@ == lines_of(text@)[i],
{
    let cs = chars_of(text);
    let mut done: Vec<Vec<char>> = Vec::new();
    let mut cur: Vec<char> = Vec::new();
    let mut i: usize = 0;
    while i < cs.len()
        invariant
            i <= cs@.len(),
            cs@ == text@,
            done@.len() == lines_state(cs@.take(i as int)).0.len(),
            forall|k: int| 0 <= k < done@.len() ==> (#[trigger] done@[k])@ == lines_state(cs@.take(i as int)).0[k],
            cur@ == lines_state(cs@.take(i as int)).1,
        decreases cs@.len() - i,
    {
        proof {
            assert(cs@.take(i + 1).drop_last() =~= cs@.take(i as int));
        }
        let c = cs[i];
        if c == '\n' {
            let finished = strip_cr_chars(cur);
            done.push(finished);
            cur = Vec::new();
        } else {
            cur.push(c);
        }
        i = i + 1;
    }
    proof {
        assert(cs@.take(cs@.len() as int) =~= cs@);
    }
    if cur.len() > 0 {
        done.push(cur);
    }
    done
}

/// The fields finished so far, the field in progress and whether a quote is
/// open, after reading `line`.
pub open spec fn csv_state(line: Seq<char>) -> (Seq<Seq<char>>, Seq<char>, bool)
    decreases line.len(),
{
    if line.len() == 0 {
        (Seq::empty(), Seq::empty(), false)
    } else {
        let (fields, cur, quoted) = csv_state(line.drop_last());
        let c = line.last();
        if c == '"' {
            (fields, cur, !quoted)
        } else if c == ',' && !quoted {
            (fields.push(cur), Seq::empty(), quoted)
        } else {
            (fields, cur.push(c), quoted)
        }
    }
}

/// The fields of one CSV line: split at commas outside quotes, quotes
/// dropped.
pub open spec fn csv_row(line: Seq<char>) -> Seq<Seq<char>> {
    let (fields, cur, _) = csv_state(line);
    fields.push(cur)
}

fn csv_row_of(line: &Vec<char>) -> (r: Vec<String>)
    ensures
        r@.len() == csv_row(line@).len(),
        forall|i: int| 0 <= i < r@.len() ==> (#[trigger] r@[i])@ == csv_row(line@)[i],
{
    let mut row: Vec<String> = Vec::new();
    let mut cur = String::new();
    let mut in_quotes = false;
    let mut i: usize = 0;
    while i < line.len()
        invariant
            i <= line@.len(),
            row@.len() == csv_state(line@.take(i as int)).0.len(),
            forall|k: int| 0 <= k < row@.len() ==> (#[trigger] row@[k])@ == csv_state(line@.take(i as int)).0[k],
            cur@ == csv_state(line@.take(i as int)).1,
            in_quotes == csv_state(line@.take(i as int)).2,
        decreases line@.len() - i,
    {
        proof {
            assert(line@.take(i + 1).drop_last() =~= line@.take(i as int));
        }
        let ch = line[i];
        if ch == '"' {
            in_quotes = !in_quotes;
        } else if ch == ',' && !in_quotes {
            row.push(cur);
            cur = String::new();
        } else {
            push_char(&mut cur, ch);
        }
        i = i + 1;
    }
    proof {
        assert(line@.take(line@.len() as int) =~= line@);
    }
    row.push(cur);
    row
}

/// A minimal CSV splitter: each line of the input becomes a row of fields.
pub fn csv_lines(input: &str) -> (rows: Vec<Vec<String>>)
    ensures
        rows@.len() == lines_of(input@).len(),
        forall|i: int| 0 <= i < rows@.len() ==> {
            &&& (#[trigger] rows@[i])@.len() == csv_row(lines_of(input@)[i]).len()
            &&& forall|j: int| 0 <= j < rows@[i]@.len() ==> (#[trigger] rows@[i]@[j])@ == csv_row(lines_of(input@)[i])[j]
        },
{
    let ls = lines(input);
    let mut out: Vec<Vec<String>> = Vec::new();
    let mut i: usize = 0;
    while i < ls.len()
        invariant
            i <= ls@.len(),
            ls@.len() == lines_of(input@).len(),
            forall|k: int| 0 <= k < ls@.len() ==> (#[trigger] ls@[k])@ == lines_of(input@)[k],
            out@.len() == i,
            forall|k: int| 0 <= k < i ==> {
                &&& (#[trigger] out@[k])@.len() == csv_row(lines_of(input@)[k]).len()
                &&& forall|j: int| 0 <= j < out@[k]@.len() ==> (#[trigger] out@[k]@[j])@ == csv_row(lines_of(input@)[k])[j]
            },
        decreases ls@.len() - i,
    {
        let row = csv_row_of(&ls[i]);
        out.push(row);
        i = i + 1;
    }
    out
}

/// Plain text: decoded as UTF-8 (invalid bytes replaced), nothing run.
pub struct TextExtractor;

/// Markdown: stored as-is, with its line count.
pub struct MarkdownExtractor;

/// CSV: stored as-is, with its row and column counts.
pub struct CsvExtractor;

/// PDF: the text `pdf-extract` finds in memory, checked and paged; no
/// temporary file is written.
pub struct PdfExtractor;

/// Any format without an extractor.
pub struct UnsupportedExtractor;

/// JSON, pretty-printed by `serde_json`.
pub struct JsonExtractor;

/// DOCX: the paragraph text of the package's document body only.
pub struct DocxExtractor;

/// Local OCR through Tesseract, run elsewhere.
pub struct TesseractOcrExtractor;

fn one_string(s: String) -> (v: Vec<String>)
    ensures
        v@.len() == 1,
        v@[0] == s,
{
    let mut v: Vec<String> = Vec::new();
    v.push(s);
    v
}

impl Extractor for TextExtractor {
    fn extract(&self, bytes: &[u8]) -> (r: Result<ExtractedText, AppError>)
        ensures
            r matches Ok(t) && t.text@ == utf8_lossy_text(bytes@) && t.locations@.len() == 0
                && t.derivation@ == "original"@,
    {
        Ok(ExtractedText { text: utf8_lossy(bytes), locations: Vec::new(), derivation: "original".to_owned() })
    }
}

impl Extractor for MarkdownExtractor {
    fn extract(&self, bytes: &[u8]) -> (r: Result<ExtractedText, AppError>)
        ensures
            r matches Ok(t) && t.text@ == utf8_lossy_text(bytes@) && t.locations@.len() == 1
                && t.locations@[0]@ == "lines:1-"@ + decimal(lines_of(t.text@).len())
                && t.derivation@ == "original"@,
    {
        let text = utf8_lossy(bytes);
        let n = lines(text.as_str()).len();
        let mut loc = "lines:1-".to_owned();
        let digits = decimal_string(n);
        push_str(&mut loc, digits.as_str());
        Ok(ExtractedText { text, locations: one_string(loc), derivation: "original".to_owned() })
    }
}

/// The widest row of a table, or 0 for none.
pub open spec fn max_row_len(rows: Seq<Seq<Seq<char>>>) -> nat
    decreases rows.len(),
{
    if rows.len() == 0 {
        0
    } else {
        let m = max_row_len(rows.drop_last());
        if rows.last().len() > m { rows.last().len() } else { m }
    }
}

/// The widest-row count is the width of the widest row: no row is wider,
/// some row is exactly that wide, and it is 0 for no rows.
pub proof fn lemma_max_row_len_is_widest(rows: Seq<Seq<Seq<char>>>)
    ensures
        forall|k: int| 0 <= k < rows.len() ==> (#[trigger] rows[k]).len() <= max_row_len(rows),
        rows.len() == 0 ==> max_row_len(rows) == 0,
        rows.len() > 0 ==> exists|k: int| 0 <= k < rows.len() && (#[trigger] rows[k]).len() == max_row_len(rows),
    decreases rows.len(),
{
    if rows.len() > 0 {
        let init = rows.drop_last();
        lemma_max_row_len_is_widest(init);
        assert forall|k: int| 0 <= k < rows.len() implies (#[trigger] rows[k]).len() <= max_row_len(rows) by {
            if k < rows.len() - 1 {
                assert(rows[k] == init[k]);
            }
        }
        if rows.last().len() > max_row_len(init) || init.len() == 0 {
            assert(rows[rows.len() - 1].len() == max_row_len(rows));
        } else {
            let k = choose|k: int| 0 <= k < init.len() && (#[trigger] init[k]).len() == max_row_len(init);
            assert(rows[k] == init[k]);
        }
    }
}

/// The rows of a CSV text, each split into fields.
pub open spec fn csv_table(text: Seq<char>) -> Seq<Seq<Seq<char>>> {
    lines_of(text).map_values(|l: Seq<char>| csv_row(l))
}

impl Extractor for CsvExtractor {
    fn extract(&self, bytes: &[u8]) -> (r: Result<ExtractedText, AppError>)
        ensures
            r matches Ok(t) && t.text@ == utf8_lossy_text(bytes@) && t.locations@.len() == 1
                && t.locations@[0]@ == "rows:"@ + decimal(lines_of(t.text@).len()) + ",cols:"@
                    + decimal(max_row_len(csv_table(t.text@)))
                && t.derivation@ == "original"@,
    {
        let raw = utf8_lossy(bytes);
        let table = csv_lines(raw.as_str());
        let ghost spec_table = csv_table(raw@);
        let mut cols: usize = 0;
        let mut i: usize = 0;
        while i < table.len()
            invariant
                i <= table@.len(),
                table@.len() == lines_of(raw@).len(),
                spec_table == csv_table(raw@),
                forall|k: int| 0 <= k < table@.len() ==> (#[trigger] table@[k])@.len() == csv_row(lines_of(raw@)[k]).len(),
                cols == max_row_len(spec_table.take(i as int)),
            decreases table@.len() - i,
        {
            proof {
                assert(spec_table.take(i + 1).drop_last() =~= spec_table.take(i as int));
                assert(spec_table[i as int] == csv_row(lines_of(raw@)[i as int]));
            }
            let w = table[i].len();
            if w > cols {
                cols = w;
            }
            i = i + 1;
        }
        proof {
            assert(spec_table.take(table@.len() as int) =~= spec_table);
        }
        let mut loc = "rows:".to_owned();
        push_str(&mut loc, decimal_string(table.len()).as_str());
        push_str(&mut loc, ",cols:");
        push_str(&mut loc, decimal_string(cols).as_str());
        Ok(ExtractedText { text: raw, locations: one_string(loc), derivation: "original".to_owned() })
    }
}

/// The number of form feeds (page breaks) in a text.
pub open spec fn form_feeds(s: Seq<char>) -> nat
    decreases s.len(),
{
    if s.len() == 0 {
        0
    } else {
        form_feeds(s.drop_last()) + if s.last() == '\x0C' { 1nat } else { 0nat }
    }
}

/// Pages in extracted PDF text: one more than its page breaks (saturating
/// at the largest `usize`).
pub open spec fn page_count(text: Seq<char>) -> nat {
    if form_feeds(text) + 1 <= usize::MAX {
        form_feeds(text) + 1
    } else {
        usize::MAX as nat
    }
}

/// CSV extraction counts every row and reports as its column count the
/// field count of its widest row: no row of the text has more fields, and
/// some row (if there is one) has exactly that many.
pub proof fn lemma_csv_columns_are_the_widest_row(text: Seq<char>)
    ensures
        csv_table(text).len() == lines_of(text).len(),
        forall|k: int| 0 <= k < lines_of(text).len() ==> (#[trigger] csv_row(lines_of(text)[k])).len()
            <= max_row_len(csv_table(text)),
        lines_of(text).len() > 0 ==> exists|k: int| 0 <= k < lines_of(text).len()
            && (#[trigger] csv_row(lines_of(text)[k])).len() == max_row_len(csv_table(text)),
        lines_of(text).len() == 0 ==> max_row_len(csv_table(text)) == 0,
{
    let t = csv_table(text);
    lemma_max_row_len_is_widest(t);
    assert forall|k: int| 0 <= k < lines_of(text).len() implies (#[trigger] csv_row(lines_of(text)[k])).len()
        <= max_row_len(t) by {
        assert(t[k] == csv_row(lines_of(text)[k]));
    }
    if lines_of(text).len() > 0 {
        let k = choose|k: int| 0 <= k < t.len() && (#[trigger] t[k]).len() == max_row_len(t);
        assert(t[k] == csv_row(lines_of(text)[k]));
    }
}

impl PdfExtractor {
    /// Extraction from what `pdf-extract` made of a PDF held in memory: its
    /// text, or `None` where it reported an error or gave up on the document.
    /// Text without anything but whitespace is refused as needing OCR; other
    /// text is kept whole, with one `page:N` location per page (page breaks
    /// are form feeds).
    pub fn from_pdf_text(pdf_text: Option<String>) -> (r: Result<ExtractedText, AppError>)
        ensures
            match pdf_text {
                None => r matches Err(AppError::InvalidArgument(m)) && m@ == "unable to extract text from PDF"@,
                Some(t) => if trim_spec(t@).len() == 0 {
                    r matches Err(AppError::InvalidArgument(m))
                        && m@ == "PDF contains no extractable text; scanned pages require OCR"@
                } else {
                    r matches Ok(x) && x.text@ == t@ && x.derivation@ == "extracted"@
                        && x.locations@.len() == page_count(t@)
                        && forall|i: int| 0 <= i < x.locations@.len() ==>
                            (#[trigger] x.locations@[i])@ == "page:"@ + decimal((i + 1) as nat)
                },
            },
    {
        let text = match pdf_text {
            Some(t) => t,
            None => return Err(AppError::InvalidArgument("unable to extract text from PDF".to_owned())),
        };
        let cs = chars_of(text.as_str());
        if trim_chars(&cs).len() == 0 {
            return Err(AppError::InvalidArgument(
                "PDF contains no extractable text; scanned pages require OCR".to_owned(),
            ));
        }
        let mut feeds: usize = 0;
        let mut i: usize = 0;
        while i < cs.len()
            invariant
                i <= cs@.len(),
                feeds == form_feeds(cs@.take(i as int)),
                feeds <= i,
            decreases cs@.len() - i,
        {
            proof {
                assert(cs@.take(i + 1).drop_last() =~= cs@.take(i as int));
            }
            if cs[i] == '\x0C' {
                feeds = feeds + 1;
            }
            i = i + 1;
        }
        proof {
            assert(cs@.take(cs@.len() as int) =~= cs@);
        }
        let pages = feeds.saturating_add(1);
        let mut locations: Vec<String> = Vec::new();
        let mut k: usize = 0;
        while k < pages
            invariant
                k <= pages,
                pages == page_count(text@),
                locations@.len() == k,
                forall|m: int| 0 <= m < locations@.len() ==>
                    (#[trigger] locations@[m])@ == "page:"@ + decimal((m + 1) as nat),
            decreases pages - k,
        {
            let mut loc = "page:".to_owned();
            push_str(&mut loc, decimal_string(k + 1).as_str());
            locations.push(loc);
            k = k + 1;
        }
        Ok(ExtractedText { text, locations, derivation: "extracted".to_owned() })
    }
}

/// The kind of value at the top of a JSON document.
#[derive(Debug, Clone, Copy, PartialEq, Eq, Structural)]
pub enum JsonRoot {
    Null,
    Bool,
    Number,
    Text,
    Array,
    Object,
}

/// What `serde_json` makes of a byte string: the pretty-printed document
/// and the kind of its top-level value; or `Err((true, m))` when the bytes
/// are not JSON, `m` the parser's message; or `Err((false, m))` when the
/// parsed value cannot be printed.
pub uninterp spec fn json_reading(bytes: Seq<u8>) -> Result<(Seq<char>, JsonRoot), (bool, Seq<char>)>;

/// `serde_json::from_slice` into a `serde_json::Value`, handed back as its
/// `serde_json::to_string_pretty` text and the variant of the value; errors
/// as their messages. The contract names the outcome and says no more of it.
#[verifier::external_body]
fn read_json(bytes: &[u8]) -> (r: Result<(String, JsonRoot), (bool, String)>)
    ensures
        match r {
            Ok((text, root)) => json_reading(bytes@) == Ok::<(Seq<char>, JsonRoot), (bool, Seq<char>)>((text@, root)),
            Err((parse, m)) => json_reading(bytes@) == Err::<(Seq<char>, JsonRoot), (bool, Seq<char>)>((parse, m@)),
        },
{
    let value: serde_json::Value = serde_json::from_slice(bytes).map_err(|e| (true, e.to_string()))?;
    let root = match &value {
        serde_json::Value::Null => JsonRoot::Null,
        serde_json::Value::Bool(_) => JsonRoot::Bool,
        serde_json::Value::Number(_) => JsonRoot::Number,
        serde_json::Value::String(_) => JsonRoot::Text,
        serde_json::Value::Array(_) => JsonRoot::Array,
        serde_json::Value::Object(_) => JsonRoot::Object,
    };
    match serde_json::to_string_pretty(&value) {
        Ok(text) => Ok((text, root)),
        Err(e) => Err((false, e.to_string())),
    }
}

/// How a top-level kind is named in a JSON source's location hint.
pub open spec fn json_root_label(root: JsonRoot) -> Seq<char> {
    match root {
        JsonRoot::Object => "object"@,
        JsonRoot::Array => "array"@,
        _ => "scalar"@,
    }
}

impl Extractor for JsonExtractor {
    fn extract(&self, bytes: &[u8]) -> (r: Result<ExtractedText, AppError>)
        ensures
            match json_reading(bytes@) {
                Ok((text, root)) => r matches Ok(t) && t.text@ == text && t.derivation@ == "original"@
                    && t.locations@.len() == 1 && t.locations@[0]@ == "json_root:"@ + json_root_label(root),
                Err((true, m)) => r matches Err(AppError::InvalidArgument(e)) && e@ == "invalid JSON: "@ + m,
                Err((false, m)) => r matches Err(AppError::Serde(e)) && e@ == m,
            },
    {
        match read_json(bytes) {
            Err((parse, m)) => {
                if parse {
                    let mut e = "invalid JSON: ".to_owned();
                    push_str(&mut e, m.as_str());
                    Err(AppError::InvalidArgument(e))
                } else {
                    Err(AppError::Serde(m))
                }
            },
            Ok((text, root)) => {
                let label = match root {
                    JsonRoot::Object => "object",
                    JsonRoot::Array => "array",
                    _ => "scalar",
                };
                let mut loc = "json_root:".to_owned();
                push_str(&mut loc, label);
                let mut locations: Vec<String> = Vec::new();
                locations.push(loc);
                Ok(ExtractedText { text, locations, derivation: "original".to_owned() })
            },
        }
    }
}

/// One event of an XML reader, as DOCX text extraction sees it.
#[derive(Debug, Clone)]
pub enum XmlEvent {
    /// A start tag, by its local name.
    Start(Vec<u8>),
    /// An end tag, by its local name.
    End(Vec<u8>),
    /// Character data, unescaped; `None` when it does not unescape.
    Text(Option<String>),
    /// The end of the document.
    Eof,
    /// The reader failed.
    Invalid,
    /// Any other event (empty elements, comments, declarations).
    Other,
}

/// The local names the extractor acts on: `t` (a text run), `tab`, `br`
/// and `p` (a paragraph).
pub open spec fn name_t() -> Seq<u8> { seq![116u8] }
pub open spec fn name_tab() -> Seq<u8> { seq![116u8, 97u8, 98u8] }
pub open spec fn name_br() -> Seq<u8> { seq![98u8, 114u8] }
pub open spec fn name_p() -> Seq<u8> { seq![112u8] }

/// The effect of one event on (inside a text run, text so far, paragraphs
/// closed so far).
pub open spec fn docx_step(e: XmlEvent, in_text: bool, text: Seq<char>, paras: nat) -> Result<(bool, Seq<char>, nat), Seq<char>> {
    match e {
        XmlEvent::Start(n) => if n@ == name_t() {
            Ok((true, text, paras))
        } else if n@ == name_tab() && in_text {
            Ok((in_text, text.push('\t'), paras))
        } else if n@ == name_br() && in_text {
            Ok((in_text, text.push('\n'), paras))
        } else {
            Ok((in_text, text, paras))
        },
        XmlEvent::Text(t) => if in_text {
            match t {
                Some(s) => Ok((in_text, text + s@, paras)),
                None => Err("DOCX text is invalid"@),
            }
        } else {
            Ok((in_text, text, paras))
        },
        XmlEvent::End(n) => if n@ == name_t() {
            Ok((false, text, paras))
        } else if n@ == name_p() {
            Ok((in_text, text.push('\n'), paras + 1))
        } else {
            Ok((in_text, text, paras))
        },
        XmlEvent::Invalid => Err("DOCX XML is invalid"@),
        _ => Ok((in_text, text, paras)),
    }
}

/// The text and paragraph count that events from `i` on make, from the given
/// state, up to the end of the document.
pub open spec fn docx_scan(events: Seq<XmlEvent>, i: int, in_text: bool, text: Seq<char>, paras: nat) -> Result<(Seq<char>, nat), Seq<char>>
    decreases events.len() - i,
{
    if i < 0 || i >= events.len() || events[i] is Eof {
        Ok((text, paras))
    } else {
        match docx_step(events[i], in_text, text, paras) {
            Err(m) => Err(m),
            Ok((a, b, c)) => docx_scan(events, i + 1, a, b, c),
        }
    }
}

/// What DOCX extraction gives for the events of a document body.
pub open spec fn docx_outcome(events: Seq<XmlEvent>, r: Result<ExtractedText, AppError>) -> bool {
    match docx_scan(events, 0, false, Seq::empty(), 0) {
        Err(m) => r matches Err(AppError::InvalidArgument(e)) && e@ == m,
        Ok((text, paras)) => if trim_spec(text).len() == 0 {
            r matches Err(AppError::InvalidArgument(e)) && e@ == "DOCX contains no text"@
        } else {
            r matches Ok(t) && t.text@ == crate::text::trim_end_spec(text) && t.derivation@ == "extracted"@
                && t.locations@.len() == 1 && t.locations@[0]@ == "paragraphs:"@ + decimal(paras)
        },
    }
}

fn name_is(n: &Vec<u8>, want: &[u8]) -> (r: bool)
    ensures
        r == (n@ == want@),
{
    if n.len() != want.len() {
        return false;
    }
    let mut i: usize = 0;
    while i < n.len()
        invariant
            i <= n@.len(),
            n@.len() == want@.len(),
            forall|k: int| 0 <= k < i ==> n@[k] == want@[k],
        decreases n@.len() - i,
    {
        if n[i] != want[i] {
            return false;
        }
        i = i + 1;
    }
    proof {
        assert(n@ =~= want@);
    }
    true
}

/// DOCX text from the events of its document body: the characters of text
/// runs, a tab or line break for those elements inside a run, and a newline
/// after each paragraph; trailing whitespace is dropped, and a document
/// without text is refused.
pub fn docx_text_from_events(events: &Vec<XmlEvent>) -> (r: Result<ExtractedText, AppError>)
    ensures
        docx_outcome(events@, r),
{
    let t_name: [u8; 1] = [116u8];
    let tab_name: [u8; 3] = [116u8, 97u8, 98u8];
    let br_name: [u8; 2] = [98u8, 114u8];
    let p_name: [u8; 1] = [112u8];
    assert(t_name@ == name_t());
    assert(tab_name@ == name_tab());
    assert(br_name@ == name_br());
    assert(p_name@ == name_p());
    let mut text = String::new();
    let mut in_text = false;
    let mut paras: usize = 0;
    let mut i: usize = 0;
    while i < events.len()
        invariant
            i <= events@.len(),
            paras <= i,
            t_name@ == name_t(),
            tab_name@ == name_tab(),
            br_name@ == name_br(),
            p_name@ == name_p(),
            docx_scan(events@, 0, false, Seq::empty(), 0) == docx_scan(events@, i as int, in_text, text@, paras as nat),
        ensures
            paras <= events@.len(),
            docx_scan(events@, 0, false, Seq::empty(), 0) == Ok::<(Seq<char>, nat), Seq<char>>((text@, paras as nat)),
        decreases events@.len() - i,
    {
        match &events[i] {
            XmlEvent::Eof => {
                break;
            },
            XmlEvent::Invalid => {
                return Err(AppError::InvalidArgument("DOCX XML is invalid".to_owned()));
            },
            XmlEvent::Start(n) => {
                if name_is(n, &t_name) {
                    in_text = true;
                } else if name_is(n, &tab_name) && in_text {
                    push_char(&mut text, '\t');
                } else if name_is(n, &br_name) && in_text {
                    push_char(&mut text, '\n');
                }
            },
            XmlEvent::Text(t) => {
                if in_text {
                    match t {
                        Some(s) => push_str(&mut text, s.as_str()),
                        None => {
                            return Err(AppError::InvalidArgument("DOCX text is invalid".to_owned()));
                        },
                    }
                }
            },
            XmlEvent::End(n) => {
                if name_is(n, &t_name) {
                    in_text = false;
                } else if name_is(n, &p_name) {
                    paras = paras + 1;
                    push_char(&mut text, '\n');
                }
            },
            XmlEvent::Other => {},
        }
        i = i + 1;
    }
    let cs = chars_of(text.as_str());
    if trim_chars(&cs).len() == 0 {
        return Err(AppError::InvalidArgument("DOCX contains no text".to_owned()));
    }
    let kept = string_from_chars(&crate::text::trim_end_chars(&cs));
    let mut loc = "paragraphs:".to_owned();
    push_str(&mut loc, decimal_string(paras).as_str());
    let mut locations: Vec<String> = Vec::new();
    locations.push(loc);
    Ok(ExtractedText { text: kept, locations, derivation: "extracted".to_owned() })
}

/// The step at which reading a DOCX package's document body failed.
#[derive(Debug, Clone, Copy, PartialEq, Eq, Structural)]
pub enum DocxOpenError {
    /// The bytes are not a ZIP archive.
    Package,
    /// The archive has no `word/document.xml`.
    NoBody,
    /// The document body is not UTF-8 text.
    BodyUnreadable,
}

/// The text of `word/document.xml` in a DOCX package as `zip` reads it from
/// memory, or the step at which that failed.
pub uninterp spec fn docx_document_xml(bytes: Seq<u8>) -> Result<Seq<char>, DocxOpenError>;

/// `zip::ZipArchive::new` on the bytes, `by_name("word/document.xml")` and
/// `read_to_string`, each failure reported as its step.
#[verifier::external_body]
fn docx_document(bytes: &[u8]) -> (r: Result<String, DocxOpenError>)
    ensures
        match r {
            Ok(xml) => docx_document_xml(bytes@) == Ok::<Seq<char>, DocxOpenError>(xml@),
            Err(e) => docx_document_xml(bytes@) == Err::<Seq<char>, DocxOpenError>(e),
        },
{
    let mut archive = match zip::ZipArchive::new(std::io::Cursor::new(bytes)) {
        Ok(a) => a,
        Err(_) => return Err(DocxOpenError::Package),
    };
    let mut document = match archive.by_name("word/document.xml") {
        Ok(d) => d,
        Err(_) => return Err(DocxOpenError::NoBody),
    };
    let mut xml = String::new();
    match std::io::Read::read_to_string(&mut document, &mut xml) {
        Ok(_) => Ok(xml),
        Err(_) => Err(DocxOpenError::BodyUnreadable),
    }
}

#[verifier::external_type_specification]
#[verifier::external_body]
#[verifier::reject_recursive_types(R)]
pub struct ExXmlReader<R>(quick_xml::Reader<R>);

/// An event after which a reader yields nothing more of use: the end of the
/// document, or an error.
pub open spec fn ends_reading(e: XmlEvent) -> bool {
    e is Eof || e is Invalid
}

/// The events that `quick-xml` reads from a text, in order, up to and
/// including the first end of document or error.
pub uninterp spec fn xml_events_of(xml: Seq<char>) -> Seq<XmlEvent>;

/// The events a `quick-xml` reader has yet to yield, up to and including
/// the first end of document or error.
pub uninterp spec fn xml_pending(reader: quick_xml::Reader<&[u8]>) -> Seq<XmlEvent>;

/// A non-empty run of events that ends, and only ends, at an end of document
/// or error.
pub open spec fn closed_run(events: Seq<XmlEvent>) -> bool {
    &&& events.len() > 0
    &&& forall|i: int| 0 <= i < events.len() ==> (ends_reading(#[trigger] events[i]) <==> i == events.len() - 1)
}

/// `quick_xml::Reader::from_str`, with text kept untrimmed.
#[verifier::external_body]
fn xml_reader(xml: &str) -> (r: quick_xml::Reader<&[u8]>)
    ensures
        xml_pending(r) == xml_events_of(xml@),
        closed_run(xml_pending(r)),
{
    let mut reader = quick_xml::Reader::from_str(xml);
    reader.config_mut().trim_text(false);
    reader
}

/// `quick_xml::Reader::read_event`, its event turned into an `XmlEvent`.
#[verifier::external_body]
fn next_xml_event(reader: &mut quick_xml::Reader<&[u8]>) -> (e: XmlEvent)
    ensures
        xml_pending(*old(reader)).len() > 0 ==> e == xml_pending(*old(reader))[0]
            && xml_pending(*final(reader)) == xml_pending(*old(reader)).drop_first(),
{
    match reader.read_event() {
        Ok(quick_xml::events::Event::Start(s)) => XmlEvent::Start(s.local_name().as_ref().to_vec()),
        Ok(quick_xml::events::Event::End(s)) => XmlEvent::End(s.local_name().as_ref().to_vec()),
        Ok(quick_xml::events::Event::Text(t)) => XmlEvent::Text(t.unescape().ok().map(std::borrow::Cow::into_owned)),
        Ok(quick_xml::events::Event::Eof) => XmlEvent::Eof,
        Ok(_) => XmlEvent::Other,
        Err(_) => XmlEvent::Invalid,
    }
}

/// The events of a text, read to the end of the document or the first error.
fn read_xml_events(xml: &str) -> (events: Vec<XmlEvent>)
    ensures
        events@ == xml_events_of(xml@),
{
    let mut reader = xml_reader(xml);
    let mut events: Vec<XmlEvent> = Vec::new();
    loop
        invariant_except_break
            events@ + xml_pending(reader) == xml_events_of(xml@),
            closed_run(xml_pending(reader)),
        ensures
            events@ == xml_events_of(xml@),
        decreases xml_pending(reader).len(),
    {
        let ghost before = xml_pending(reader);
        let e = next_xml_event(&mut reader);
        let stop = match e {
            XmlEvent::Eof => true,
            XmlEvent::Invalid => true,
            _ => false,
        };
        proof {
            assert(ends_reading(before[0]) == stop);
        }
        events.push(e);
        if stop {
            proof {
                assert(before.len() == 1);
                assert(events@ =~= xml_events_of(xml@));
            }
            break;
        }
        proof {
            let after = xml_pending(reader);
            assert(after =~= before.drop_first());
            assert(events@ + after =~= xml_events_of(xml@)) by {
                assert(events@ + after =~= (events@.drop_last() + before));
            }
            assert forall|i: int| 0 <= i < after.len() implies (ends_reading(#[trigger] after[i]) <==> i == after.len() - 1) by {
                assert(after[i] == before[i + 1]);
            }
        }
    }
    events
}

impl Extractor for DocxExtractor {
    fn extract(&self, bytes: &[u8]) -> (r: Result<ExtractedText, AppError>)
        ensures
            match docx_document_xml(bytes@) {
                Err(DocxOpenError::Package) => r matches Err(AppError::InvalidArgument(m)) && m@ == "invalid DOCX package"@,
                Err(DocxOpenError::NoBody) => r matches Err(AppError::InvalidArgument(m)) && m@ == "DOCX has no document body"@,
                Err(DocxOpenError::BodyUnreadable) => r matches Err(AppError::InvalidArgument(m))
                    && m@ == "DOCX document XML is invalid"@,
                Ok(xml) => docx_outcome(xml_events_of(xml), r),
            },
    {
        let xml = match docx_document(bytes) {
            Ok(x) => x,
            Err(DocxOpenError::Package) => return Err(AppError::InvalidArgument("invalid DOCX package".to_owned())),
            Err(DocxOpenError::NoBody) => return Err(AppError::InvalidArgument("DOCX has no document body".to_owned())),
            Err(DocxOpenError::BodyUnreadable) => {
                return Err(AppError::InvalidArgument("DOCX document XML is invalid".to_owned()))
            },
        };
        let events = read_xml_events(xml.as_str());
        docx_text_from_events(&events)
    }
}

impl Extractor for UnsupportedExtractor {
    fn extract(&self, bytes: &[u8]) -> (r: Result<ExtractedText, AppError>)
        ensures
            r matches Err(AppError::InvalidArgument(m)) && m@ == "unsupported source format"@,
    {
        Err(AppError::InvalidArgument("unsupported source format".to_owned()))
    }
}

/// A stored source's metadata row.
#[derive(Debug, Clone)]
pub struct SourceRecord {
    pub source_id: String,
    pub kind: String,
    pub name: String,
    pub checksum: String,
    pub imported_at: String,
    pub status: String,
    pub bytes_len: u64,
}

/// `s` with every `"` doubled.
pub open spec fn double_quotes(s: Seq<char>) -> Seq<char>
    decreases s.len(),
{
    if s.len() == 0 {
        Seq::empty()
    } else if s.last() == '"' {
        double_quotes(s.drop_last()).push('"').push('"')
    } else {
        double_quotes(s.drop_last()).push(s.last())
    }
}

/// Turn arbitrary input into one full-text phrase query: wrapped in double
/// quotes, with embedded quotes doubled, so that nothing in it acts as a
/// query operator.
pub fn sanitize_fts_phrase(query: &str) -> (s: String)
    ensures
        s@ == seq!['"'] + double_quotes(query@) + seq!['"'],
{
    let cs = chars_of(query);
    let mut out = String::new();
    push_char(&mut out, '"');
    let mut i: usize = 0;
    while i < cs.len()
        invariant
            i <= cs@.len(),
            out@ == seq!['"'] + double_quotes(cs@.take(i as int)),
        decreases cs@.len() - i,
    {
        proof {
            assert(cs@.take(i + 1).drop_last() =~= cs@.take(i as int));
        }
        if cs[i] == '"' {
            push_char(&mut out, '"');
            push_char(&mut out, '"');
        } else {
            push_char(&mut out, cs[i]);
        }
        i = i + 1;
    }
    proof {
        assert(cs@.take(cs@.len() as int) =~= cs@);
    }
    push_char(&mut out, '"');
    out
}

} // verus!
