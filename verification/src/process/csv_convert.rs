//! CSV text to JSON, YAML or TOML: every record becomes an object of its
//! fields under the names that the header gives them.

use vstd::prelude::*;
use crate::cli::csv::OutputFormat;
use crate::trusted::tabular::{
    csv_header, csv_records, json_text, read_header, read_records, to_json, to_toml, to_yaml,
    toml_text, yaml_text,
};

verus! {

/// Why a CSV text was not converted.
#[derive(Clone, Copy, Debug, PartialEq, Eq, Structural)]
pub enum CsvError {
    /// The header or a record could not be read.
    Read,
    /// The rows have no text in the chosen format.
    Write,
}

impl CsvError {
    /// The text shown for this error.
    pub fn message(&self) -> (text: &'static str)
        ensures
            text@ == match *self {
                CsvError::Read => "CSV input could not be read"@,
                CsvError::Write => "rows could not be written in the chosen format"@,
            },
    {
        match self {
            CsvError::Read => "CSV input could not be read",
            CsvError::Write => "rows could not be written in the chosen format",
        }
    }
}

/// One record under its header: each field paired with the name that stands
/// at the same place in the header. What has no partner is left out.
pub open spec fn labelled(header: Seq<Seq<char>>, record: Seq<Seq<char>>) -> Seq<
    (Seq<char>, Seq<char>),
> {
    Seq::new(
        if header.len() <= record.len() {
            header.len()
        } else {
            record.len()
        },
        |i: int| (header[i], record[i]),
    )
}

/// Every record under the header.
pub open spec fn labelled_rows(header: Seq<Seq<char>>, records: Seq<Seq<Seq<char>>>) -> Seq<
    Seq<(Seq<char>, Seq<char>)>,
> {
    Seq::new(records.len(), |r: int| labelled(header, records[r]))
}

/// The text of `rows` in `format`, if they have one.
pub open spec fn rendering(rows: Seq<Seq<(Seq<char>, Seq<char>)>>, format: OutputFormat) -> Option<
    Seq<char>,
> {
    match format {
        OutputFormat::Json => json_text(rows),
        OutputFormat::Yaml => yaml_text(rows),
        OutputFormat::Toml => toml_text(rows),
    }
}

/// Pairs the fields of `record` with the names in `header`.
pub fn label_record(header: &Vec<String>, record: &Vec<String>) -> (row: Vec<(String, String)>)
    ensures
        row.deep_view() == labelled(header.deep_view(), record.deep_view()),
{
    let mut row: Vec<(String, String)> = Vec::new();
    let mut i: usize = 0;
    while i < header.len() && i < record.len()
        invariant
            i <= header.len(),
            i <= record.len(),
            row@.len() == i,
            forall|j: int| 0 <= j < i ==> (#[trigger] row@[j]).0@ == header@[j]@ && row@[j].1@
                == record@[j]@,
        decreases header.len() - i,
    {
        row.push((header[i].clone(), record[i].clone()));
        i += 1;
    }
    assert(row.deep_view() =~= labelled(header.deep_view(), record.deep_view())) by {
        assert forall|j: int| 0 <= j < row@.len() implies row.deep_view()[j] == (
            header.deep_view()[j],
            record.deep_view()[j],
        ) by {
            assert(row.deep_view()[j] == row@[j].deep_view());
            assert(header.deep_view()[j] == header@[j]@);
            assert(record.deep_view()[j] == record@[j]@);
        }
    }
    row
}

/// Pairs the fields of every record with the names in `header`.
pub fn label_records(header: &Vec<String>, records: &Vec<Vec<String>>) -> (rows: Vec<
    Vec<(String, String)>,
>)
    ensures
        rows.deep_view() == labelled_rows(header.deep_view(), records.deep_view()),
{
    let mut rows: Vec<Vec<(String, String)>> = Vec::new();
    let mut r: usize = 0;
    while r < records.len()
        invariant
            r <= records.len(),
            rows@.len() == r,
            forall|k: int|
                0 <= k < r ==> (#[trigger] rows@[k]).deep_view() == labelled(
                    header.deep_view(),
                    records@[k].deep_view(),
                ),
        decreases records.len() - r,
    {
        rows.push(label_record(header, &records[r]));
        r += 1;
    }
    assert(rows.deep_view() =~= labelled_rows(header.deep_view(), records.deep_view())) by {
        assert forall|k: int| 0 <= k < rows@.len() implies rows.deep_view()[k] == labelled(
            header.deep_view(),
            records.deep_view()[k],
        ) by {
            assert(rows.deep_view()[k] == rows@[k].deep_view());
            assert(records.deep_view()[k] == records@[k].deep_view());
        }
    }
    rows
}

/// Writes `rows` as text in `format`: an array of objects, one for each row.
pub fn render(rows: &Vec<Vec<(String, String)>>, format: OutputFormat) -> (res: Result<
    String,
    CsvError,
>)
    ensures
        match rendering(rows.deep_view(), format) {
            Some(text) => res is Ok && res.unwrap()@ == text,
            None => res == Err::<String, CsvError>(CsvError::Write),
        },
{
    match format {
        OutputFormat::Json => match to_json(rows) {
            Ok(text) => Ok(text),
            Err(_) => Err(CsvError::Write),
        },
        OutputFormat::Yaml => match to_yaml(rows) {
            Ok(text) => Ok(text),
            Err(_) => Err(CsvError::Write),
        },
        OutputFormat::Toml => match to_toml(rows) {
            Ok(text) => Ok(text),
            Err(_) => Err(CsvError::Write),
        },
    }
}

/// What converting the CSV text `input` to `format` comes to: the text of
/// its records, each under the header, or the step that failed.
pub open spec fn spec_process_csv(input: Seq<u8>, format: OutputFormat) -> Result<
    Seq<char>,
    CsvError,
> {
    match (csv_header(input), csv_records(input)) {
        (Some(header), Some(records)) => match rendering(labelled_rows(header, records), format) {
            Some(text) => Ok(text),
            None => Err(CsvError::Write),
        },
        _ => Err(CsvError::Read),
    }
}

/// Converts the CSV text `input` to `format`. The first record names the
/// fields; every other record becomes an object of its fields under those
/// names.
pub fn process_csv(input: &[u8], format: OutputFormat) -> (res: Result<String, CsvError>)
    ensures
        match spec_process_csv(input@, format) {
            Ok(text) => res is Ok && res.unwrap()@ == text,
            Err(e) => res == Err::<String, CsvError>(e),
        },
{
    let header = match read_header(input) {
        Ok(header) => header,
        Err(_) => return Err(CsvError::Read),
    };
    let records = match read_records(input) {
        Ok(records) => records,
        Err(_) => return Err(CsvError::Read),
    };
    let rows = label_records(&header, &records);
    render(&rows, format)
}

} // verus!
