use vstd::prelude::*;
use crate::cli::{str_equal, InvalidFormat};
use crate::trusted::text::{lowercase, to_lowercase};

verus! {

/// The base64 commands.
#[derive(Debug)]
pub enum Base64SubCommand {
    /// Encode the input to base64.
    Encode(Base64Encode),
    /// Decode the input from base64.
    Decode(Base64Decode),
}

/// The two flavours of base64.
#[derive(Clone, Copy, Debug, PartialEq, Eq, Structural)]
pub enum Base64Format {
    /// The standard alphabet, with padding.
    Standard,
    /// The URL-safe alphabet, without padding.
    UrlSafe,
}

/// Options of `base64 encode`.
#[derive(Debug)]
pub struct Base64Encode {
    /// The input file, or `-` for standard input.
    pub input: String,
    pub format: Base64Format,
}

/// Options of `base64 decode`.
#[derive(Debug)]
pub struct Base64Decode {
    /// The input file, or `-` for standard input.
    pub input: String,
    pub format: Base64Format,
}

impl Base64Format {
    /// The flavour that answers to exactly this name, if there is one.
    pub open spec fn spec_from_name(name: Seq<char>) -> Option<Base64Format> {
        if name == "standard"@ {
            Some(Base64Format::Standard)
        } else if name == "urlsafe"@ {
            Some(Base64Format::UrlSafe)
        } else {
            None
        }
    }

    /// The name of this flavour, in lower case.
    pub open spec fn spec_name(self) -> Seq<char> {
        match self {
            Base64Format::Standard => "standard"@,
            Base64Format::UrlSafe => "urlsafe"@,
        }
    }

    /// Looks a flavour up by its exact, lower-case name.
    pub fn from_name(name: &str) -> (res: Result<Base64Format, InvalidFormat>)
        ensures
            match Self::spec_from_name(name@) {
                Some(format) => res == Ok::<Base64Format, InvalidFormat>(format),
                None => res == Err::<Base64Format, InvalidFormat>(InvalidFormat),
            },
    {
        if str_equal(name, "standard") {
            Ok(Base64Format::Standard)
        } else if str_equal(name, "urlsafe") {
            Ok(Base64Format::UrlSafe)
        } else {
            Err(InvalidFormat)
        }
    }

    /// The name of this flavour, in lower case.
    pub fn name(self) -> (text: &'static str)
        ensures
            text@ == self.spec_name(),
    {
        match self {
            Base64Format::Standard => "standard",
            Base64Format::UrlSafe => "urlsafe",
        }
    }
}

/// Reads a flavour's name, in any mix of upper and lower case.
pub fn parse_format(format: &str) -> (res: Result<Base64Format, InvalidFormat>)
    ensures
        match Base64Format::spec_from_name(lowercase(format@)) {
            Some(flavour) => res == Ok::<Base64Format, InvalidFormat>(flavour),
            None => res == Err::<Base64Format, InvalidFormat>(InvalidFormat),
        },
{
    let lower = to_lowercase(format);
    Base64Format::from_name(lower.as_str())
}

impl core::str::FromStr for Base64Format {
    type Err = InvalidFormat;

    /// Reads a name as `parse_format` does, in any mix of upper and lower
    /// case.
    fn from_str(s: &str) -> (res: Result<Self, Self::Err>)
        ensures
            match Base64Format::spec_from_name(lowercase(s@)) {
                Some(format) => res == Ok::<Base64Format, InvalidFormat>(format),
                None => res == Err::<Base64Format, InvalidFormat>(InvalidFormat),
            },
    {
        parse_format(s)
    }
}

impl From<Base64Format> for &'static str {
    fn from(value: Base64Format) -> (text: Self) {
        match value {
            Base64Format::Standard => "standard",
            Base64Format::UrlSafe => "urlsafe",
        }
    }
}

impl vstd::std_specs::convert::FromSpecImpl<Base64Format> for &'static str {
    open spec fn obeys_from_spec() -> bool {
        true
    }

    open spec fn from_spec(value: Base64Format) -> Self {
        match value {
            Base64Format::Standard => "standard",
            Base64Format::UrlSafe => "urlsafe",
        }
    }
}

} // verus!
