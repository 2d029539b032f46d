use wrcli::cli::base64::{self as base64_cli, Base64Format};
use wrcli::cli::csv::{self as csv_cli, OutputFormat};
use wrcli::cli::text::{self as text_cli, TextGnenrateOpts, TextSignFormat};
use wrcli::cli::{str_equal, verify_file, verify_path, InvalidFormat};

#[test]
fn test_verify_input_file() {
    assert_eq!(verify_file("-", false), Ok("-".into()));
    assert_eq!(verify_file("*", false), Err("File doesn't exist"));
    assert_eq!(verify_file("Cargo.toml", true), Ok("Cargo.toml".into()));
    assert_eq!(verify_file("no-exist", false), Err("File doesn't exist"));
}

#[test]
fn verify_file_takes_what_exists_and_the_dash() {
    assert_eq!(verify_file("-", true), Ok("-".to_string()));
    assert_eq!(verify_file("a.txt", true), Ok("a.txt".to_string()));
    assert_eq!(verify_file("a.txt", false), Err("File doesn't exist"));
    assert_eq!(verify_file("", false), Err("File doesn't exist"));
    assert_eq!(verify_file("--", false), Err("File doesn't exist"));
}

#[test]
fn verify_path_wants_a_directory() {
    assert_eq!(verify_path("out", true), Ok("out".to_string()));
    assert_eq!(verify_path(".", true), Ok(".".to_string()));
    assert_eq!(verify_path("out", false), Err("Path doesn't exist"));
    assert_eq!(verify_path("-", false), Err("Path doesn't exist"));
}

#[test]
fn str_equal_compares_whole_texts() {
    assert!(str_equal("", ""));
    assert!(str_equal("blake3", "blake3"));
    assert!(!str_equal("blake3", "blake"));
    assert!(!str_equal("blake3", "blake4"));
    assert!(str_equal("schlüssel", "schlüssel"));
    assert!(!str_equal("schlüssel", "schlussel"));
}

#[test]
fn text_format_is_read_in_any_case() {
    assert_eq!(text_cli::parse_format("blake3"), Ok(TextSignFormat::Blake3));
    assert_eq!(text_cli::parse_format("BLAKE3"), Ok(TextSignFormat::Blake3));
    assert_eq!(text_cli::parse_format("Ed25519"), Ok(TextSignFormat::Ed25519));
    assert_eq!(text_cli::parse_format("ed25519"), Ok(TextSignFormat::Ed25519));
    assert_eq!(text_cli::parse_format("sha256"), Err(InvalidFormat));
    assert_eq!(text_cli::parse_format(""), Err(InvalidFormat));
    assert_eq!(text_cli::parse_format(" blake3"), Err(InvalidFormat));
}

#[test]
fn text_format_by_exact_name() {
    assert_eq!(TextSignFormat::from_name("blake3"), Ok(TextSignFormat::Blake3));
    assert_eq!(TextSignFormat::from_name("ed25519"), Ok(TextSignFormat::Ed25519));
    assert_eq!(TextSignFormat::from_name("Blake3"), Err(InvalidFormat));
    assert_eq!(TextSignFormat::from_name("ED25519"), Err(InvalidFormat));
}

#[test]
fn text_format_names_round_trip() {
    for format in [TextSignFormat::Blake3, TextSignFormat::Ed25519] {
        assert_eq!(text_cli::parse_format(format.name()), Ok(format));
        assert_eq!(format.name().parse::<TextSignFormat>(), Ok(format));
        let name: &'static str = format.into();
        assert_eq!(name, format.name());
    }
    assert_eq!(TextSignFormat::Blake3.name(), "blake3");
    assert_eq!(TextSignFormat::Ed25519.name(), "ed25519");
}

#[test]
fn base64_format_is_read_in_any_case() {
    assert_eq!(base64_cli::parse_format("standard"), Ok(Base64Format::Standard));
    assert_eq!(base64_cli::parse_format("Standard"), Ok(Base64Format::Standard));
    assert_eq!(base64_cli::parse_format("urlsafe"), Ok(Base64Format::UrlSafe));
    assert_eq!(base64_cli::parse_format("URLSAFE"), Ok(Base64Format::UrlSafe));
    assert_eq!(base64_cli::parse_format("url-safe"), Err(InvalidFormat));
    assert_eq!(Base64Format::from_name("Standard"), Err(InvalidFormat));
    assert_eq!("urlsafe".parse::<Base64Format>(), Ok(Base64Format::UrlSafe));
    let name: &'static str = Base64Format::UrlSafe.into();
    assert_eq!(name, "urlsafe");
    assert_eq!(Base64Format::Standard.name(), "standard");
}

#[test]
fn output_format_is_read_in_any_case() {
    assert_eq!(csv_cli::parse_format("json"), Ok(OutputFormat::Json));
    assert_eq!(csv_cli::parse_format("YAML"), Ok(OutputFormat::Yaml));
    assert_eq!(csv_cli::parse_format("Toml"), Ok(OutputFormat::Toml));
    assert_eq!(csv_cli::parse_format("xml"), Err(InvalidFormat));
    assert_eq!(OutputFormat::from_name("JSON"), Err(InvalidFormat));
    assert_eq!("toml".parse::<OutputFormat>(), Ok(OutputFormat::Toml));
    let name: &'static str = OutputFormat::Yaml.into();
    assert_eq!(name, "yaml");
    assert_eq!(OutputFormat::Json.name(), "json");
    assert_eq!(OutputFormat::Toml.name(), "toml");
}

#[test]
fn invalid_format_has_its_message() {
    assert_eq!(InvalidFormat.message(), "Invalid format");
}

#[test]
fn every_scheme_has_its_number_of_blobs() {
    assert_eq!(TextSignFormat::Blake3.key_blobs(), 1);
    assert_eq!(TextSignFormat::Ed25519.key_blobs(), 2);
}

#[test]
fn key_files_of_a_symmetric_key() {
    let opts = TextGnenrateOpts { format: TextSignFormat::Blake3, output: ".".to_string() };
    let files = opts.key_files(&vec![vec![7u8; 32]]);
    assert_eq!(files.len(), 1);
    assert_eq!(files[0].name, "blake3.k");
    assert_eq!(files[0].notice, "key is generated on the file");
    assert_eq!(files[0].contents, vec![7u8; 32]);
}

#[test]
fn key_files_of_a_key_pair() {
    let opts = TextGnenrateOpts { format: TextSignFormat::Ed25519, output: ".".to_string() };
    let files = opts.key_files(&vec![vec![1u8; 32], vec![2u8; 32]]);
    assert_eq!(files.len(), 2);
    assert_eq!(files[0].name, "Ed25519.sk");
    assert_eq!(files[0].notice, "signing key is generated on the file");
    assert_eq!(files[0].contents, vec![1u8; 32]);
    assert_eq!(files[1].name, "Ed25519.pk");
    assert_eq!(files[1].notice, "public key is generated on the file");
    assert_eq!(files[1].contents, vec![2u8; 32]);
}
