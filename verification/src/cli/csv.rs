use vstd::prelude::*;
use crate::cli::{str_equal, InvalidFormat};
use crate::trusted::text::{lowercase, to_lowercase};

verus! {

/// The formats that CSV can be converted to.
#[derive(Clone, Copy, Debug, PartialEq, Eq, Structural)]
pub enum OutputFormat {
    Json,
    Yaml,
    Toml,
}

/// Options of `csv`.
#[derive(Debug)]
pub struct CsvOpts {
    /// The CSV file to read.
    pub input: String,
    /// The file to write; by default `output` with the format's name as its
    /// extension.
    pub output: Option<String>,
    pub format: OutputFormat,
    /// The character between two fields.
    pub delimiter: char,
    /// Whether the first record names the fields.
    pub header: bool,
}

impl OutputFormat {
    /// The format that answers to exactly this name, if there is one.
    pub open spec fn spec_from_name(name: Seq<char>) -> Option<OutputFormat> {
        if name == "json"@ {
            Some(OutputFormat::Json)
        } else if name == "yaml"@ {
            Some(OutputFormat::Yaml)
        } else if name == "toml"@ {
            Some(OutputFormat::Toml)
        } else {
            None
        }
    }

    /// The name of this format, in lower case.
    pub open spec fn spec_name(self) -> Seq<char> {
        match self {
            OutputFormat::Json => "json"@,
            OutputFormat::Yaml => "yaml"@,
            OutputFormat::Toml => "toml"@,
        }
    }

    /// Looks a format up by its exact, lower-case name.
    pub fn from_name(name: &str) -> (res: Result<OutputFormat, InvalidFormat>)
        ensures
            match Self::spec_from_name(name@) {
                Some(format) => res == Ok::<OutputFormat, InvalidFormat>(format),
                None => res == Err::<OutputFormat, InvalidFormat>(InvalidFormat),
            },
    {
        if str_equal(name, "json") {
            Ok(OutputFormat::Json)
        } else if str_equal(name, "yaml") {
            Ok(OutputFormat::Yaml)
        } else if str_equal(name, "toml") {
            Ok(OutputFormat::Toml)
        } else {
            Err(InvalidFormat)
        }
    }

    /// The name of this format, in lower case.
    pub fn name(self) -> (text: &'static str)
        ensures
            text@ == self.spec_name(),
    {
        match self {
            OutputFormat::Json => "json",
            OutputFormat::Yaml => "yaml",
            OutputFormat::Toml => "toml",
        }
    }
}

/// Reads a format's name, in any mix of upper and lower case.
pub fn parse_format(format: &str) -> (res: Result<OutputFormat, InvalidFormat>)
    ensures
        match OutputFormat::spec_from_name(lowercase(format@)) {
            Some(output) => res == Ok::<OutputFormat, InvalidFormat>(output),
            None => res == Err::<OutputFormat, InvalidFormat>(InvalidFormat),
        },
{
    let lower = to_lowercase(format);
    OutputFormat::from_name(lower.as_str())
}

impl core::str::FromStr for OutputFormat {
    type Err = InvalidFormat;

    /// Reads a name as `parse_format` does, in any mix of upper and lower
    /// case.
    fn from_str(s: &str) -> (res: Result<Self, Self::Err>)
        ensures
            match OutputFormat::spec_from_name(lowercase(s@)) {
                Some(format) => res == Ok::<OutputFormat, InvalidFormat>(format),
                None => res == Err::<OutputFormat, InvalidFormat>(InvalidFormat),
            },
    {
        parse_format(s)
    }
}

impl From<OutputFormat> for &'static str {
    fn from(value: OutputFormat) -> (text: Self) {
        match value {
            OutputFormat::Json => "json",
            OutputFormat::Yaml => "yaml",
            OutputFormat::Toml => "toml",
        }
    }
}

impl vstd::std_specs::convert::FromSpecImpl<OutputFormat> for &'static str {
    open spec fn obeys_from_spec() -> bool {
        true
    }

    open spec fn from_spec(value: OutputFormat) -> Self {
        match value {
            OutputFormat::Json => "json",
            OutputFormat::Yaml => "yaml",
            OutputFormat::Toml => "toml",
        }
    }
}

} // verus!
