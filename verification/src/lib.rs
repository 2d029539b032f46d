//! A toolbox for the command line, with its logic proved: text signing and
//! verification with a keyed hash or a signature scheme, base64, random
//! passwords and the conversion of CSV.
//!
//! The functions here work on values in memory. Reading files, printing and
//! the parsing of the command line belong to the program around this library.

/// The options of every command, and the checks on what the command line gave.
pub mod cli;
/// What the commands do.
pub mod process;
/// The calls into other crates, each with the contract that is taken on trust.
pub mod trusted;

pub use cli::base64::{Base64Decode, Base64Encode, Base64Format, Base64SubCommand};
pub use cli::csv::{CsvOpts, OutputFormat};
pub use cli::genpass::GenPassOpts;
pub use cli::http::{HttpServeOpts, HttpSubCommand};
pub use cli::text::{
    KeyFile, TextGnenrateOpts, TextSignFormat, TextSignOpts, TextSubCommand, TextVerifyOpts,
};
pub use cli::{verify_file, verify_path, InvalidFormat, Opts, SubCommand};
pub use process::b64::{process_decode, process_encode, Base64Error};
pub use process::csv_convert::{process_csv, CsvError};
pub use process::gen_pass::{process_genpass, GenPassError};
pub use process::text::{
    process_generate, process_sign, process_verify, Blake3, Ed25519Signer, Ed25519Verifier,
    KeyGenerator, KeyLoader, TextError, TextSign, TextVerify,
};
