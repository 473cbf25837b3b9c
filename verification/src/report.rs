//! The summary of the failed assertions that a test-runner report names.

use crate::json::array_view;
use crate::json::items_model;
use crate::json::parse;
use crate::json::parsed_text;
use crate::json::Json;
use crate::json::JsonError;
use crate::json::JsonValue;
use crate::text::decimal;
use crate::text::decimal_text;
use vstd::prelude::*;

verus! {

/// One failed assertion.
#[derive(Clone, Debug, PartialEq, Eq)]
pub struct FailureEntry {
    /// The place of the failure in the report, counted from 1.
    pub ordinal: usize,
    pub assertion: String,
    pub error: String,
    pub source: String,
}

/// The failed assertions of one report, in the order of the report.
#[derive(Clone, Debug, PartialEq, Eq)]
pub struct FailureSummary {
    pub target: String,
    /// False where there was no report to read: the summary is then empty and
    /// nothing is written.
    pub report_found: bool,
    pub entries: Vec<FailureEntry>,
}

/// What a [`FailureEntry`] holds.
pub ghost struct EntryModel {
    pub ordinal: nat,
    pub assertion: Seq<char>,
    pub error: Seq<char>,
    pub source: Seq<char>,
}

/// What a [`FailureSummary`] holds.
pub ghost struct SummaryModel {
    pub target: Seq<char>,
    pub report_found: bool,
    pub entries: Seq<EntryModel>,
}

impl View for FailureEntry {
    type V = EntryModel;

    open spec fn view(&self) -> EntryModel {
        EntryModel {
            ordinal: self.ordinal as nat,
            assertion: self.assertion@,
            error: self.error@,
            source: self.source@,
        }
    }
}

/// What a list of entries holds.
pub open spec fn entries_model(entries: Seq<FailureEntry>) -> Seq<EntryModel> {
    Seq::new(entries.len(), |i: int| entries[i]@)
}

impl View for FailureSummary {
    type V = SummaryModel;

    open spec fn view(&self) -> SummaryModel {
        SummaryModel {
            target: self.target@,
            report_found: self.report_found,
            entries: entries_model(self.entries@),
        }
    }
}

/// The failure records of a report: the array `run.failures`. A report
/// without that array has no failures.
pub open spec fn failure_records(report: JsonValue) -> Seq<JsonValue> {
    match report.member("run"@) {
        Some(run) => match run.member("failures"@) {
            Some(JsonValue::Array(records)) => records,
            _ => Seq::empty(),
        },
        None => Seq::empty(),
    }
}

/// The text of the member `name`, where `value` has such a member and it is a
/// string.
pub open spec fn text_member(value: JsonValue, name: Seq<char>) -> Option<Seq<char>> {
    match value.member(name) {
        Some(member) => member.text(),
        None => None,
    }
}

/// The description of the assertion that failed.
pub open spec fn assertion_of(failure: JsonValue) -> Seq<char> {
    match text_member(failure, "assertion"@) {
        Some(text) => text,
        None => "Unknown"@,
    }
}

/// The error text of a failure: the message nested under `error`, else
/// `error` itself where it is a string, else a fixed text.
pub open spec fn error_of(failure: JsonValue) -> Seq<char> {
    match failure.member("error"@) {
        Some(error) => match text_member(error, "message"@) {
            Some(message) => message,
            None => match error.text() {
                Some(text) => text,
                None => "Unknown error"@,
            },
        },
        None => "Unknown error"@,
    }
}

/// The name of the member `holder` of a failure, where it is an object with a
/// string `name`.
pub open spec fn name_under(failure: JsonValue, holder: Seq<char>) -> Option<Seq<char>> {
    match failure.member(holder) {
        Some(inner) => text_member(inner, "name"@),
        None => None,
    }
}

/// The source label of a failure: the name of its source, else the name of its
/// parent, else a fixed text.
pub open spec fn source_of(failure: JsonValue) -> Seq<char> {
    match name_under(failure, "source"@) {
        Some(name) => name,
        None => match name_under(failure, "parent"@) {
            Some(name) => name,
            None => "Unknown"@,
        },
    }
}

/// The entry of a failure record, numbered `ordinal`.
pub open spec fn entry_of(ordinal: nat, failure: JsonValue) -> EntryModel {
    EntryModel {
        ordinal,
        assertion: assertion_of(failure),
        error: error_of(failure),
        source: source_of(failure),
    }
}

/// One entry for each failure record, in the order of the report and
/// numbered from 1.
pub open spec fn entries_of(records: Seq<JsonValue>) -> Seq<EntryModel> {
    Seq::new(records.len(), |i: int| entry_of((i + 1) as nat, records[i]))
}

/// The summary of a report; of no report, the empty summary.
pub open spec fn summary_of(target: Seq<char>, report: Option<JsonValue>) -> SummaryModel {
    match report {
        Some(document) => SummaryModel {
            target,
            report_found: true,
            entries: entries_of(failure_records(document)),
        },
        None => SummaryModel { target, report_found: false, entries: Seq::empty() },
    }
}

/// The lines of one entry: its number and assertion, the error and the source
/// indented beneath, and an empty line.
pub open spec fn entry_text(entry: EntryModel) -> Seq<char> {
    decimal_text(entry.ordinal) + ". AssertionError  "@ + entry.assertion + "\n   "@ + entry.error
        + "\n   in \""@ + entry.source + "\"\n\n"@
}

/// The lines of the entries, one entry after the other.
pub open spec fn entries_text(entries: Seq<EntryModel>) -> Seq<char>
    decreases entries.len(),
{
    if entries.len() == 0 {
        Seq::empty()
    } else {
        entries_text(entries.drop_last()) + entry_text(entries.last())
    }
}

/// The heading of a summary, which names the target.
pub open spec fn heading_text(target: Seq<char>) -> Seq<char> {
    "### Failed Assertions ("@ + target + ")\n"@
}

/// The text of a summary: a heading that names the target, then the entries,
/// or one line that says that there are none. The summary of a missing report
/// has no text.
pub open spec fn summary_text(summary: SummaryModel) -> Seq<char> {
    if !summary.report_found {
        Seq::empty()
    } else if summary.entries.len() == 0 {
        heading_text(summary.target) + "No failed assertions.\n"@
    } else {
        heading_text(summary.target) + entries_text(summary.entries)
    }
}

/// A report gives one entry for each of its failure records, in their order
/// and numbered from 1, each with the assertion, the error text and the source
/// label of its record. A report without failure records gives the heading
/// and the line that says so.
pub proof fn summary_has_one_entry_for_each_failure(target: Seq<char>, report: JsonValue)
    ensures
        summary_of(target, Some(report)).entries.len() == failure_records(report).len(),
        forall|i: int|
            0 <= i < failure_records(report).len() ==> {
                let entry = #[trigger] summary_of(target, Some(report)).entries[i];
                let record = failure_records(report)[i];
                &&& entry.ordinal == i + 1
                &&& entry.assertion == assertion_of(record)
                &&& entry.error == error_of(record)
                &&& entry.source == source_of(record)
            },
        failure_records(report).len() == 0 ==> summary_text(summary_of(target, Some(report)))
            == heading_text(target) + "No failed assertions.\n"@,
{
}

/// A missing report gives a summary without entries and without text.
pub proof fn missing_report_gives_empty_summary(target: Seq<char>)
    ensures
        summary_of_text(target, None) == Some(summary_of(target, None)),
        summary_of(target, None).entries.len() == 0,
        summary_text(summary_of(target, None)).len() == 0,
{
}

fn member_text<'a>(value: &'a Json, name: &str) -> (text: Option<&'a str>)
    ensures
        match text {
            Some(found) => text_member(value@, name@) == Some(found@),
            None => text_member(value@, name@) is None,
        },
{
    match value.get(name) {
        Some(member) => member.as_text(),
        None => None,
    }
}

fn nested_name<'a>(failure: &'a Json, holder: &str) -> (name: Option<&'a str>)
    ensures
        match name {
            Some(found) => name_under(failure@, holder@) == Some(found@),
            None => name_under(failure@, holder@) is None,
        },
{
    match failure.get(holder) {
        Some(inner) => member_text(inner, "name"),
        None => None,
    }
}

/// Reads one failure record, which gets the number `ordinal`.
pub fn extract_entry(ordinal: usize, failure: &Json) -> (entry: FailureEntry)
    ensures
        entry@ == entry_of(ordinal as nat, failure@),
{
    let assertion = match member_text(failure, "assertion") {
        Some(text) => text,
        None => "Unknown",
    };
    let error = match failure.get("error") {
        Some(error) => match member_text(error, "message") {
            Some(message) => message,
            None => match error.as_text() {
                Some(text) => text,
                None => "Unknown error",
            },
        },
        None => "Unknown error",
    };
    let source = match nested_name(failure, "source") {
        Some(name) => name,
        None => match nested_name(failure, "parent") {
            Some(name) => name,
            None => "Unknown",
        },
    };
    FailureEntry {
        ordinal,
        assertion: String::from_str(assertion),
        error: String::from_str(error),
        source: String::from_str(source),
    }
}

fn collect_entries(records: &Vec<Json>) -> (entries: Vec<FailureEntry>)
    ensures
        entries_model(entries@) == entries_of(items_model(records@)),
{
    let mut entries: Vec<FailureEntry> = Vec::new();
    let mut index: usize = 0;
    while index < records.len()
        invariant
            index <= records.len(),
            entries_model(entries@) == entries_of(items_model(records@)).take(index as int),
        decreases records.len() - index,
    {
        let ghost before = entries_model(entries@);
        let entry = extract_entry(index + 1, &records[index]);
        assert(entry@ == entries_of(items_model(records@))[index as int]);
        entries.push(entry);
        index += 1;
        assert(entries_model(entries@) =~= before.push(entry@));
        assert(entries_model(entries@) =~= entries_of(items_model(records@)).take(index as int));
    }
    assert(entries_model(entries@) =~= entries_of(items_model(records@)));
    entries
}

/// Summarises the failed assertions of a report. Where there is no report the
/// summary is empty; this is no error.
pub fn summarize_failures(target: &str, report: Option<&Json>) -> (summary: FailureSummary)
    ensures
        summary@ == summary_of(
            target@,
            match report {
                Some(document) => Some(document@),
                None => None,
            },
        ),
{
    match report {
        None => {
            let entries: Vec<FailureEntry> = Vec::new();
            assert(entries_model(entries@) =~= Seq::<EntryModel>::empty());
            FailureSummary { target: String::from_str(target), report_found: false, entries }
        },
        Some(document) => {
            let found = match document.get("run") {
                Some(run) => match run.get("failures") {
                    Some(failures) => failures.as_array(),
                    None => None,
                },
                None => None,
            };
            let entries = match found {
                Some(records) => collect_entries(records),
                None => {
                    let entries: Vec<FailureEntry> = Vec::new();
                    assert(entries_model(entries@) =~= entries_of(Seq::<JsonValue>::empty()));
                    entries
                },
            };
            FailureSummary { target: String::from_str(target), report_found: true, entries }
        },
    }
}

fn render_entry(text: &mut String, entry: &FailureEntry)
    ensures
        final(text)@ == old(text)@ + entry_text(entry@),
{
    let number = decimal(entry.ordinal);
    text.append(number.as_str());
    text.append(". AssertionError  ");
    text.append(entry.assertion.as_str());
    text.append("\n   ");
    text.append(entry.error.as_str());
    text.append("\n   in \"");
    text.append(entry.source.as_str());
    text.append("\"\n\n");
    assert(text@ =~= old(text)@ + entry_text(entry@));
}

impl FailureSummary {
    /// The text of the summary.
    pub fn render(&self) -> (text: String)
        ensures
            text@ == summary_text(self@),
    {
        if !self.report_found {
            return String::new();
        }
        let mut text = String::from_str("### Failed Assertions (");
        text.append(self.target.as_str());
        text.append(")\n");
        if self.entries.len() == 0 {
            text.append("No failed assertions.\n");
            return text;
        }
        let mut index: usize = 0;
        assert(entries_text(entries_model(self.entries@).take(0)) =~= Seq::<char>::empty());
        assert(text@ =~= heading_text(self.target@) + entries_text(
            entries_model(self.entries@).take(0),
        ));
        while index < self.entries.len()
            invariant
                index <= self.entries.len(),
                text@ == heading_text(self.target@) + entries_text(
                    entries_model(self.entries@).take(index as int),
                ),
            decreases self.entries.len() - index,
        {
            let ghost before = text@;
            render_entry(&mut text, &self.entries[index]);
            index += 1;
            proof {
                let shown = entries_model(self.entries@).take(index as int);
                assert(shown.drop_last() =~= entries_model(self.entries@).take(index - 1));
                assert(shown.last() == self.entries@[index - 1]@);
                assert(text@ =~= heading_text(self.target@) + entries_text(shown));
            }
        }
        assert(entries_model(self.entries@).take(index as int) =~= entries_model(self.entries@));
        text
    }
}

/// How the summary of a report text ends: the file may be missing, and the
/// text may be no JSON document.
pub open spec fn summary_of_text(target: Seq<char>, content: Option<Seq<char>>) -> Option<
    SummaryModel,
> {
    match content {
        None => Some(summary_of(target, None)),
        Some(text) => match parsed_text(text) {
            Some(document) => Some(summary_of(target, Some(document))),
            None => None,
        },
    }
}

/// Summarises the report whose text is `content`; `None` stands for a report
/// file that does not exist, which gives the empty summary. A text that is no
/// JSON document is the only error.
pub fn write_assertion_summary(target: &str, content: Option<&str>) -> (summary: Result<
    FailureSummary,
    JsonError,
>)
    ensures
        match summary {
            Ok(found) => summary_of_text(
                target@,
                match content {
                    Some(text) => Some(text@),
                    None => None,
                },
            ) == Some(found@),
            Err(_) => content matches Some(text) && parsed_text(text@) is None,
        },
{
    match content {
        None => Ok(summarize_failures(target, None)),
        Some(text) => match parse(text) {
            Ok(document) => Ok(summarize_failures(target, Some(&document))),
            Err(error) => Err(error),
        },
    }
}

} // verus!
