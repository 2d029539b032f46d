//! Calls into `csv`, `serde_json`, `serde_yaml` and `toml`.

use vstd::prelude::*;
use csv::Reader;
use serde_json::Value;

verus! {

/// The error of `csv`'s reader.
#[verifier::external_type_specification]
#[verifier::external_body]
pub struct ExCsvError(csv::Error);

/// The error of `serde_json`.
#[verifier::external_type_specification]
#[verifier::external_body]
pub struct ExJsonError(serde_json::Error);

/// The error of `serde_yaml`.
#[verifier::external_type_specification]
#[verifier::external_body]
pub struct ExYamlError(serde_yaml::Error);

/// The error of `toml`'s serialiser.
#[verifier::external_type_specification]
#[verifier::external_body]
pub struct ExTomlError(toml::ser::Error);

/// The fields of the first record of the CSV text `input`, or `None` where
/// the reader cannot make them out.
pub uninterp spec fn csv_header(input: Seq<u8>) -> Option<Seq<Seq<char>>>;

/// The fields of the records of the CSV text `input` after the first, or
/// `None` where the reader cannot make one of them out.
pub uninterp spec fn csv_records(input: Seq<u8>) -> Option<Seq<Seq<Seq<char>>>>;

/// The JSON text, indented, of an array with one object for each of `rows`,
/// made of the row's pairs of name and value; `None` where there is none.
pub uninterp spec fn json_text(rows: Seq<Seq<(Seq<char>, Seq<char>)>>) -> Option<Seq<char>>;

/// The YAML text of a sequence with one mapping for each of `rows`, made of
/// the row's pairs of name and value; `None` where there is none.
pub uninterp spec fn yaml_text(rows: Seq<Seq<(Seq<char>, Seq<char>)>>) -> Option<Seq<char>>;

/// The TOML text of an array with one table for each of `rows`, made of the
/// row's pairs of name and value; `None` where there is none.
pub uninterp spec fn toml_text(rows: Seq<Seq<(Seq<char>, Seq<char>)>>) -> Option<Seq<char>>;

/// Calls `Reader::headers` on a reader of `input` and copies the fields out.
///
/// Trusted: whether there is a header, and what it holds, depends on the
/// input alone; `csv_header` names it.
#[verifier::external_body]
pub(crate) fn read_header(input: &[u8]) -> (res: Result<Vec<String>, csv::Error>)
    ensures
        match res {
            Ok(header) => csv_header(input@) == Some(header.deep_view()),
            Err(_) => csv_header(input@) is None,
        },
{
    let mut reader = Reader::from_reader(input);
    Ok(reader.headers()?.iter().map(String::from).collect())
}

/// Calls `Reader::records` on a reader of `input` and copies the fields of
/// every record out, up to the first record that the reader refuses.
///
/// Trusted: whether all records can be read, and what they hold, depends on
/// the input alone; `csv_records` names it.
#[verifier::external_body]
pub(crate) fn read_records(input: &[u8]) -> (res: Result<Vec<Vec<String>>, csv::Error>)
    ensures
        match res {
            Ok(records) => csv_records(input@) == Some(records.deep_view()),
            Err(_) => csv_records(input@) is None,
        },
{
    let mut reader = Reader::from_reader(input);
    reader.records().map(|item| Ok(item?.iter().map(String::from).collect())).collect()
}

/// Calls `serde_json::to_string_pretty` on the objects collected from `rows`.
///
/// Trusted: the outcome depends on the rows alone; `json_text` names it.
#[verifier::external_body]
pub(crate) fn to_json(rows: &Vec<Vec<(String, String)>>) -> (res: Result<String, serde_json::Error>)
    ensures
        match res {
            Ok(text) => json_text(rows.deep_view()) == Some(text@),
            Err(_) => json_text(rows.deep_view()) is None,
        },
{
    let values: Vec<Value> =
        rows.iter().map(|row| row.iter().map(|(k, v)| (k.as_str(), v.as_str())).collect()).collect();
    serde_json::to_string_pretty(&values)
}

/// Calls `serde_yaml::to_string` on the objects collected from `rows`.
///
/// Trusted: the outcome depends on the rows alone; `yaml_text` names it.
#[verifier::external_body]
pub(crate) fn to_yaml(rows: &Vec<Vec<(String, String)>>) -> (res: Result<String, serde_yaml::Error>)
    ensures
        match res {
            Ok(text) => yaml_text(rows.deep_view()) == Some(text@),
            Err(_) => yaml_text(rows.deep_view()) is None,
        },
{
    let values: Vec<Value> =
        rows.iter().map(|row| row.iter().map(|(k, v)| (k.as_str(), v.as_str())).collect()).collect();
    serde_yaml::to_string(&values)
}

/// Calls `toml::to_string` on the objects collected from `rows`.
///
/// Trusted: the outcome depends on the rows alone; `toml_text` names it.
#[verifier::external_body]
pub(crate) fn to_toml(rows: &Vec<Vec<(String, String)>>) -> (res: Result<String, toml::ser::Error>)
    ensures
        match res {
            Ok(text) => toml_text(rows.deep_view()) == Some(text@),
            Err(_) => toml_text(rows.deep_view()) is None,
        },
{
    let values: Vec<Value> =
        rows.iter().map(|row| row.iter().map(|(k, v)| (k.as_str(), v.as_str())).collect()).collect();
    toml::to_string(&values)
}

} // verus!
