use vstd::prelude::*;
use crate::cli::{str_equal, InvalidFormat};
use crate::trusted::text::{lowercase, to_lowercase};

verus! {

/// The text commands.
#[derive(Debug)]
pub enum TextSubCommand {
    /// Sign a message with a key.
    Sign(TextSignOpts),
    /// Verify a signed message.
    Verify(TextVerifyOpts),
    /// Generate a key.
    Generate(TextGnenrateOpts),
}

/// The two schemes a message can be authenticated with.
#[derive(Clone, Copy, Debug, PartialEq, Eq, Structural)]
pub enum TextSignFormat {
    /// The BLAKE3 keyed hash, with one secret key.
    Blake3,
    /// The Ed25519 signature, with a private and a public key.
    Ed25519,
}

/// Options of `text sign`.
#[derive(Clone, Debug)]
pub struct TextSignOpts {
    /// The file that holds the message, or `-` for standard input.
    pub input: String,
    /// The file that holds the key.
    pub key: String,
    pub format: TextSignFormat,
}

/// Options of `text verify`.
#[derive(Clone, Debug)]
pub struct TextVerifyOpts {
    /// The file that holds the message, or `-` for standard input.
    pub input: String,
    /// The file that holds the key.
    pub key: String,
    /// The signature, as text.
    pub sign: String,
    pub format: TextSignFormat,
}

/// Options of `text generate`.
#[derive(Clone, Debug)]
pub struct TextGnenrateOpts {
    pub format: TextSignFormat,
    /// The directory that the key files go to.
    pub output: String,
}

/// A key file that is to be written.
#[derive(Debug)]
pub struct KeyFile {
    /// The file's name inside the output directory.
    pub name: &'static str,
    /// What the user is told once the file is there; the file's path follows.
    pub notice: &'static str,
    /// The file's bytes.
    pub contents: Vec<u8>,
}

impl View for KeyFile {
    type V = (Seq<char>, Seq<char>, Seq<u8>);

    open spec fn view(&self) -> Self::V {
        (self.name@, self.notice@, self.contents@)
    }
}

impl TextSignFormat {
    /// The scheme that answers to exactly this name, if there is one.
    pub open spec fn spec_from_name(name: Seq<char>) -> Option<TextSignFormat> {
        if name == "blake3"@ {
            Some(TextSignFormat::Blake3)
        } else if name == "ed25519"@ {
            Some(TextSignFormat::Ed25519)
        } else {
            None
        }
    }

    /// The name of this scheme, in lower case.
    pub open spec fn spec_name(self) -> Seq<char> {
        match self {
            TextSignFormat::Blake3 => "blake3"@,
            TextSignFormat::Ed25519 => "ed25519"@,
        }
    }

    /// Looks a scheme up by its exact, lower-case name.
    pub fn from_name(name: &str) -> (res: Result<TextSignFormat, InvalidFormat>)
        ensures
            match Self::spec_from_name(name@) {
                Some(format) => res == Ok::<TextSignFormat, InvalidFormat>(format),
                None => res == Err::<TextSignFormat, InvalidFormat>(InvalidFormat),
            },
    {
        if str_equal(name, "blake3") {
            Ok(TextSignFormat::Blake3)
        } else if str_equal(name, "ed25519") {
            Ok(TextSignFormat::Ed25519)
        } else {
            Err(InvalidFormat)
        }
    }

    /// The name of this scheme, in lower case.
    pub fn name(self) -> (text: &'static str)
        ensures
            text@ == self.spec_name(),
    {
        match self {
            TextSignFormat::Blake3 => "blake3",
            TextSignFormat::Ed25519 => "ed25519",
        }
    }
}

/// The key files of a key of `format` with the blobs `keys`: name, notice and
/// bytes of each.
pub open spec fn spec_key_files(format: TextSignFormat, keys: Seq<Seq<u8>>) -> Seq<
    (Seq<char>, Seq<char>, Seq<u8>),
> {
    match format {
        TextSignFormat::Blake3 => seq![("blake3.k"@, "key is generated on the file"@, keys[0])],
        TextSignFormat::Ed25519 => seq![
            ("Ed25519.sk"@, "signing key is generated on the file"@, keys[0]),
            ("Ed25519.pk"@, "public key is generated on the file"@, keys[1]),
        ],
    }
}

impl TextSignFormat {
    /// How many blobs a key of this scheme has.
    pub open spec fn blob_count(self) -> nat {
        match self {
            TextSignFormat::Blake3 => 1,
            TextSignFormat::Ed25519 => 2,
        }
    }

    /// How many bytes a raw signature of this scheme has.
    pub open spec fn signature_len(self) -> nat {
        match self {
            TextSignFormat::Blake3 => 32,
            TextSignFormat::Ed25519 => 64,
        }
    }

    /// How many blobs a key of this scheme has.
    pub fn key_blobs(self) -> (count: usize)
        ensures
            count == self.blob_count(),
    {
        match self {
            TextSignFormat::Blake3 => 1,
            TextSignFormat::Ed25519 => 2,
        }
    }
}

impl TextGnenrateOpts {
    /// The files that hold a freshly generated key: for the keyed hash the
    /// key in `blake3.k`, for Ed25519 the private key in `Ed25519.sk` and the
    /// public key in `Ed25519.pk`. Blobs beyond those of the scheme are left
    /// out.
    pub fn key_files(&self, keys: &Vec<Vec<u8>>) -> (files: Vec<KeyFile>)
        requires
            keys@.len() >= self.format.blob_count(),
        ensures
            files@.map_values(|file: KeyFile| file@) == spec_key_files(
                self.format,
                keys.deep_view(),
            ),
    {
        let mut files: Vec<KeyFile> = Vec::new();
        assert(keys.deep_view()[0] == keys@[0]@);
        match self.format {
            TextSignFormat::Blake3 => {
                files.push(
                    KeyFile {
                        name: "blake3.k",
                        notice: "key is generated on the file",
                        contents: keys[0].clone(),
                    },
                );
            },
            TextSignFormat::Ed25519 => {
                assert(keys.deep_view()[1] == keys@[1]@);
                files.push(
                    KeyFile {
                        name: "Ed25519.sk",
                        notice: "signing key is generated on the file",
                        contents: keys[0].clone(),
                    },
                );
                files.push(
                    KeyFile {
                        name: "Ed25519.pk",
                        notice: "public key is generated on the file",
                        contents: keys[1].clone(),
                    },
                );
            },
        }
        assert(files@.map_values(|file: KeyFile| file@) =~= spec_key_files(
            self.format,
            keys.deep_view(),
        ));
        files
    }
}

/// Reads a scheme's name, in any mix of upper and lower case.
pub fn parse_format(format: &str) -> (res: Result<TextSignFormat, InvalidFormat>)
    ensures
        match TextSignFormat::spec_from_name(lowercase(format@)) {
            Some(scheme) => res == Ok::<TextSignFormat, InvalidFormat>(scheme),
            None => res == Err::<TextSignFormat, InvalidFormat>(InvalidFormat),
        },
{
    let lower = to_lowercase(format);
    TextSignFormat::from_name(lower.as_str())
}

impl core::str::FromStr for TextSignFormat {
    type Err = InvalidFormat;

    /// Reads a name as `parse_format` does, in any mix of upper and lower
    /// case.
    fn from_str(s: &str) -> (res: Result<Self, Self::Err>)
        ensures
            match TextSignFormat::spec_from_name(lowercase(s@)) {
                Some(format) => res == Ok::<TextSignFormat, InvalidFormat>(format),
                None => res == Err::<TextSignFormat, InvalidFormat>(InvalidFormat),
            },
    {
        parse_format(s)
    }
}

impl From<TextSignFormat> for &'static str {
    fn from(value: TextSignFormat) -> (text: Self) {
        match value {
            TextSignFormat::Blake3 => "blake3",
            TextSignFormat::Ed25519 => "ed25519",
        }
    }
}

impl vstd::std_specs::convert::FromSpecImpl<TextSignFormat> for &'static str {
    open spec fn obeys_from_spec() -> bool {
        true
    }

    open spec fn from_spec(value: TextSignFormat) -> Self {
        match value {
            TextSignFormat::Blake3 => "blake3",
            TextSignFormat::Ed25519 => "ed25519",
        }
    }
}

} // verus!
