//! Diagnostics of the current buffer, read from the JSON array that the
//! injected Lua returns (`vim.json.encode` of `vim.diagnostic.get`).

use vstd::prelude::*;
use crate::nvim_types::Diagnostic;

verus! {

/// The fields of one element of the diagnostics array, each present when the
/// element is an object whose field has the expected JSON type (an integer
/// that fits `i64`, or a string).
pub struct DiagnosticRecord {
    pub lnum: Option<i64>,
    pub col: Option<i64>,
    pub severity: Option<i64>,
    pub message: Option<String>,
    pub source: Option<String>,
}

/// A record as plain values: `(lnum, col, severity, message, source)`.
pub type DiagnosticRecordView = (Option<i64>, Option<i64>, Option<i64>, Option<Seq<char>>, Option<Seq<char>>);

pub open spec fn opt_text(text: Option<String>) -> Option<Seq<char>> {
    match text {
        Some(t) => Some(t@),
        None => None,
    }
}

impl View for DiagnosticRecord {
    type V = DiagnosticRecordView;

    open spec fn view(&self) -> DiagnosticRecordView {
        (self.lnum, self.col, self.severity, opt_text(self.message), opt_text(self.source))
    }
}

/// What `serde_json` makes of `text` read as an array of JSON values, each
/// element taken to its record: the records, or the text of the parse error.
pub uninterp spec fn decoded_diagnostic_records(text: Seq<char>) -> Result<Seq<DiagnosticRecordView>, Seq<char>>;

/// The records of a sequence, as plain values.
pub open spec fn record_views(records: Seq<DiagnosticRecord>) -> Seq<DiagnosticRecordView> {
    records.map_values(|r: DiagnosticRecord| r@)
}

pub open spec fn records_view(records: Result<Vec<DiagnosticRecord>, String>) -> Result<Seq<DiagnosticRecordView>, Seq<char>> {
    match records {
        Ok(v) => Ok(record_views(v@)),
        Err(e) => Err(e@),
    }
}

/// Calls `serde_json::from_str::<Vec<serde_json::Value>>` on `text`; on
/// success reads the fields `lnum`, `col`, `severity` (`Value::as_i64`) and
/// `message`, `source` (`Value::as_str`) of each element through
/// `Value`'s `Index<&str>`, which yields `Null` for a missing field or a
/// non-object element. Claimed: the outcome is a function of `text` alone;
/// nothing is stated about which texts parse.
#[verifier::external_body]
fn decode_diagnostic_records(text: &str) -> (records: Result<Vec<DiagnosticRecord>, String>)
    ensures
        records_view(records) == decoded_diagnostic_records(text@),
{
    let raw: Vec<serde_json::Value> = serde_json::from_str(text).map_err(|e| e.to_string())?;
    Ok(raw.iter().map(|d| DiagnosticRecord {
        lnum: d["lnum"].as_i64(),
        col: d["col"].as_i64(),
        severity: d["severity"].as_i64(),
        message: d["message"].as_str().map(|s| s.to_string()),
        source: d["source"].as_str().map(|s| s.to_string()),
    }).collect())
}

/// `diagnostic` is what the record `record` gives: each missing integer
/// field is 0 and each missing string field is empty.
pub open spec fn diagnostic_of_record(diagnostic: Diagnostic, record: DiagnosticRecordView) -> bool {
    &&& diagnostic.line == (match record.0 { Some(n) => n, None => 0 })
    &&& diagnostic.col == (match record.1 { Some(n) => n, None => 0 })
    &&& diagnostic.severity == (match record.2 { Some(n) => n, None => 0 })
    &&& diagnostic.message@ == (match record.3 { Some(t) => t, None => Seq::empty() })
    &&& diagnostic.source@ == (match record.4 { Some(t) => t, None => Seq::empty() })
}

/// The diagnostics given by `records`, one per record, in order.
pub open spec fn diagnostics_of_records(diagnostics: Seq<Diagnostic>, records: Seq<DiagnosticRecordView>) -> bool {
    &&& diagnostics.len() == records.len()
    &&& forall|k: int| 0 <= k < records.len() ==> diagnostic_of_record(#[trigger] diagnostics[k], records[k])
}

fn text_or_empty(text: Option<String>) -> (t: String)
    ensures
        t@ == (match opt_text(text) { Some(s) => s, None => Seq::<char>::empty() }),
{
    match text {
        Some(t) => t,
        None => String::new(),
    }
}

fn number_or_zero(n: Option<i64>) -> (m: i64)
    ensures
        m == (match n { Some(k) => k, None => 0 }),
{
    match n {
        Some(k) => k,
        None => 0,
    }
}

/// Turns decoded records into diagnostics.
pub fn diagnostics_from_records(records: Vec<DiagnosticRecord>) -> (diagnostics: Vec<Diagnostic>)
    ensures
        diagnostics_of_records(diagnostics@, record_views(records@)),
{
    let ghost input = record_views(records@);
    let n = records.len();
    let mut rest = records;
    let mut diagnostics: Vec<Diagnostic> = Vec::new();
    let mut i: usize = 0;
    while i < n
        invariant
            n == input.len(),
            i <= n,
            rest.len() == n - i,
            record_views(rest@) == input.subrange(i as int, n as int),
            diagnostics_of_records(diagnostics@, input.subrange(0, i as int)),
        decreases n - i,
    {
        proof {
            assert(record_views(rest@)[0] == input[i as int]);
        }
        let ghost before = rest@;
        let record = rest.remove(0);
        let diagnostic = Diagnostic {
            line: number_or_zero(record.lnum),
            col: number_or_zero(record.col),
            severity: number_or_zero(record.severity),
            message: text_or_empty(record.message),
            source: text_or_empty(record.source),
        };
        diagnostics.push(diagnostic);
        proof {
            assert forall|k: int| 0 <= k < rest.len() implies #[trigger] record_views(rest@)[k] == input.subrange(i + 1, n as int)[k] by {
                assert(rest@[k] == before[k + 1]);
                assert(record_views(before)[k + 1] == input.subrange(
                    i as int,
                    n as int,
                )[k + 1]);
            }
            assert(record_views(rest@) =~= input.subrange(i + 1, n as int));
            assert forall|k: int| 0 <= k < i + 1 implies diagnostic_of_record(
                #[trigger] diagnostics@[k],
                input.subrange(0, i + 1)[k],
            ) by {
                if k < i {
                    assert(input.subrange(0, i + 1)[k] == input.subrange(0, i as int)[k]);
                }
            }
        }
        i = i + 1;
    }
    proof {
        assert(input.subrange(0, n as int) =~= input);
    }
    diagnostics
}

/// Reads the diagnostics from the Lua reply: `reply` is the reply when it was
/// a valid UTF-8 string. Without such a reply there are no diagnostics (the
/// empty array `[]`).
pub fn diagnostics_from_reply(reply: Option<String>) -> (diagnostics: Result<Vec<Diagnostic>, String>)
    ensures
        match reply {
            None => diagnostics matches Ok(d) && d@.len() == 0,
            Some(text) => match decoded_diagnostic_records(text@) {
                Ok(records) => diagnostics matches Ok(d) && diagnostics_of_records(d@, records),
                Err(e) => diagnostics matches Err(m) && m@ == e,
            },
        },
{
    match reply {
        None => Ok(Vec::new()),
        Some(text) => match decode_diagnostic_records(text.as_str()) {
            Ok(records) => Ok(diagnostics_from_records(records)),
            Err(e) => Err(e),
        },
    }
}

/// Each field of a diagnostic comes from the record's field of the same
/// meaning alone: `line`, `col` and `severity` are the record's `lnum`, `col`
/// and `severity`, or 0 where missing; `message` and `source` are the
/// record's `message` and `source`, or empty where missing.
pub proof fn law_diagnostic_fields_come_from_their_own_field(diagnostic: Diagnostic, record: DiagnosticRecordView)
    requires
        diagnostic_of_record(diagnostic, record),
    ensures
        record.0 matches Some(n) ==> diagnostic.line == n,
        record.0 is None ==> diagnostic.line == 0,
        record.1 matches Some(n) ==> diagnostic.col == n,
        record.1 is None ==> diagnostic.col == 0,
        record.2 matches Some(n) ==> diagnostic.severity == n,
        record.2 is None ==> diagnostic.severity == 0,
        record.3 matches Some(t) ==> diagnostic.message@ == t,
        record.3 is None ==> diagnostic.message@.len() == 0,
        record.4 matches Some(t) ==> diagnostic.source@ == t,
        record.4 is None ==> diagnostic.source@.len() == 0,
{
}

/// The diagnostics of a list of records are one per record, in order: the
/// `k`-th diagnostic is built from the `k`-th record.
pub proof fn law_diagnostics_follow_records(diagnostics: Seq<Diagnostic>, records: Seq<DiagnosticRecordView>, k: int)
    requires
        diagnostics_of_records(diagnostics, records),
        0 <= k < records.len(),
    ensures
        diagnostics.len() == records.len(),
        diagnostic_of_record(diagnostics[k], records[k]),
{
}

} // verus!
