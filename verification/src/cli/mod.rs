//! The commands with their options, as plain values, and the checks on what
//! the command line gave for them.

use vstd::prelude::*;
use vstd::utf8::{encode_utf8, encode_utf8_decode_utf8};

pub mod base64;
pub mod csv;
pub mod genpass;
pub mod http;
pub mod text;

verus! {

/// What the command line asks for.
#[derive(Debug)]
pub struct Opts {
    pub cmd: SubCommand,
}

/// The commands, each with its options.
#[derive(Debug)]
pub enum SubCommand {
    /// Show CSV, or convert it to another format.
    Csv(csv::CsvOpts),
    /// Generate a random password.
    GenPass(genpass::GenPassOpts),
    /// Encode to or decode from base64.
    Base64(base64::Base64SubCommand),
    /// Sign or verify a text, or generate a key.
    Text(text::TextSubCommand),
    /// Serve a directory over HTTP.
    Http(http::HttpSubCommand),
}

/// A format name that no format answers to.
#[derive(Clone, Copy, Debug, PartialEq, Eq, Structural)]
pub struct InvalidFormat;

impl InvalidFormat {
    /// The text shown for this error.
    pub fn message(&self) -> (text: &'static str)
        ensures
            text@ == "Invalid format"@,
    {
        "Invalid format"
    }
}

/// `true` when `a` and `b` hold the same characters.
pub fn str_equal(a: &str, b: &str) -> (same: bool)
    ensures
        same == (a@ == b@),
{
    let x = a.as_bytes();
    let y = b.as_bytes();
    proof {
        encode_utf8_decode_utf8(a@);
        encode_utf8_decode_utf8(b@);
    }
    if x.len() != y.len() {
        return false;
    }
    let mut i: usize = 0;
    while i < x.len()
        invariant
            x.len() == y.len(),
            i <= x.len(),
            x@ == encode_utf8(a@),
            y@ == encode_utf8(b@),
            forall|j: int| 0 <= j < i ==> x@[j] == y@[j],
        decreases x.len() - i,
    {
        if x[i] != y[i] {
            return false;
        }
        i += 1;
    }
    assert(x@ =~= y@);
    true
}

/// Checks that `file_path` can serve as an input, given whether the file
/// system holds it: `-`, which stands for standard input, always can; anything
/// else only if it exists. What is accepted comes back unchanged.
pub fn verify_file(file_path: &str, exists: bool) -> (res: Result<String, &'static str>)
    ensures
        match res {
            Ok(path) => (file_path@ == "-"@ || exists) && path@ == file_path@,
            Err(reason) => !(file_path@ == "-"@ || exists) && reason@ == "File doesn't exist"@,
        },
{
    if str_equal(file_path, "-") || exists {
        Ok(file_path.to_owned())
    } else {
        Err("File doesn't exist")
    }
}

/// Checks that `file_path` can serve as a directory, given whether the file
/// system holds a directory of that name. What is accepted comes back
/// unchanged.
pub fn verify_path(file_path: &str, is_dir: bool) -> (res: Result<String, &'static str>)
    ensures
        match res {
            Ok(path) => is_dir && path@ == file_path@,
            Err(reason) => !is_dir && reason@ == "Path doesn't exist"@,
        },
{
    if is_dir {
        Ok(file_path.to_owned())
    } else {
        Err("Path doesn't exist")
    }
}

} // verus!
