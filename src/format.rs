//! The closed sets of choices that callers name: the cryptographic
//! algorithm, the base64 flavour of the passthrough, and the structured
//! output format.
use vstd::prelude::*;

verus! {

/// The lower-case form of a text.
pub uninterp spec fn lower_of(s: Seq<char>) -> Seq<char>;

/// Relies on `str::to_lowercase`: the result depends on the characters
/// alone, and an empty text stays empty.
#[verifier::external_body]
fn lowercase(s: &str) -> (r: String)
    ensures
        r@ == lower_of(s@),
        s@.len() == 0 ==> r@.len() == 0,
{
    s.to_lowercase()
}

/// The algorithm that an operation uses.
#[derive(Debug, Clone, Copy, PartialEq, Eq, Structural)]
pub enum CryptFormat {
    ChaCha20Poly1305,
    Blake,
    Ed25519,
}

/// The name of an algorithm.
pub open spec fn crypt_format_name(f: CryptFormat) -> Seq<char> {
    match f {
        CryptFormat::ChaCha20Poly1305 => "chacha20poly1305"@,
        CryptFormat::Blake => "blake"@,
        CryptFormat::Ed25519 => "ed25519"@,
    }
}

impl CryptFormat {
    /// The algorithm's name.
    pub fn as_str(&self) -> (r: &'static str)
        ensures
            r@ == crypt_format_name(*self),
    {
        match self {
            CryptFormat::ChaCha20Poly1305 => "chacha20poly1305",
            CryptFormat::Blake => "blake",
            CryptFormat::Ed25519 => "ed25519",
        }
    }

    /// The algorithm whose name is `name`, ignoring case.
    pub fn from_name(name: &str) -> (r: Option<CryptFormat>)
        ensures
            match r {
                Some(f) => crypt_format_name(f) == lower_of(name@),
                None => forall|f: CryptFormat| crypt_format_name(f) != lower_of(name@),
            },
    {
        let lower = lowercase(name);
        if lower == "chacha20poly1305".to_owned() {
            Some(CryptFormat::ChaCha20Poly1305)
        } else if lower == "blake".to_owned() {
            Some(CryptFormat::Blake)
        } else if lower == "ed25519".to_owned() {
            Some(CryptFormat::Ed25519)
        } else {
            proof {
                assert forall|f: CryptFormat| crypt_format_name(f) != lower_of(name@) by {
                    match f {
                        CryptFormat::ChaCha20Poly1305 => {},
                        CryptFormat::Blake => {},
                        CryptFormat::Ed25519 => {},
                    }
                }
            }
            None
        }
    }
}

/// The base64 flavour of the passthrough encoder.
#[derive(Debug, Clone, Copy, PartialEq, Eq, Structural)]
pub enum Base64Format {
    /// The standard alphabet with `=` padding.
    Standard,
    /// The URL-safe alphabet without padding.
    UrlSafe,
}

/// The name of a base64 flavour.
pub open spec fn base64_format_name(f: Base64Format) -> Seq<char> {
    match f {
        Base64Format::Standard => "standard"@,
        Base64Format::UrlSafe => "urlsafe"@,
    }
}

impl Base64Format {
    /// The flavour's name.
    pub fn as_str(&self) -> (r: &'static str)
        ensures
            r@ == base64_format_name(*self),
    {
        match self {
            Base64Format::Standard => "standard",
            Base64Format::UrlSafe => "urlsafe",
        }
    }

    /// The flavour whose name is `name`, ignoring case.
    pub fn from_name(name: &str) -> (r: Option<Base64Format>)
        ensures
            match r {
                Some(f) => base64_format_name(f) == lower_of(name@),
                None => forall|f: Base64Format| base64_format_name(f) != lower_of(name@),
            },
    {
        let lower = lowercase(name);
        if lower == "standard".to_owned() {
            Some(Base64Format::Standard)
        } else if lower == "urlsafe".to_owned() {
            Some(Base64Format::UrlSafe)
        } else {
            proof {
                assert forall|f: Base64Format| base64_format_name(f) != lower_of(name@) by {
                    match f {
                        Base64Format::Standard => {},
                        Base64Format::UrlSafe => {},
                    }
                }
            }
            None
        }
    }
}

/// The structured format that tabular data is converted to.
#[derive(Debug, Clone, Copy, PartialEq, Eq, Structural)]
pub enum OutputFormat {
    Json,
    Yaml,
    Toml,
}

/// The name of an output format, also its file extension.
pub open spec fn output_format_name(f: OutputFormat) -> Seq<char> {
    match f {
        OutputFormat::Json => "json"@,
        OutputFormat::Yaml => "yaml"@,
        OutputFormat::Toml => "toml"@,
    }
}

impl OutputFormat {
    /// The format's name.
    pub fn as_str(&self) -> (r: &'static str)
        ensures
            r@ == output_format_name(*self),
    {
        match self {
            OutputFormat::Json => "json",
            OutputFormat::Yaml => "yaml",
            OutputFormat::Toml => "toml",
        }
    }

    /// The format whose name is `name`, ignoring case.
    pub fn from_name(name: &str) -> (r: Option<OutputFormat>)
        ensures
            match r {
                Some(f) => output_format_name(f) == lower_of(name@),
                None => forall|f: OutputFormat| output_format_name(f) != lower_of(name@),
            },
    {
        let lower = lowercase(name);
        if lower == "json".to_owned() {
            Some(OutputFormat::Json)
        } else if lower == "yaml".to_owned() {
            Some(OutputFormat::Yaml)
        } else if lower == "toml".to_owned() {
            Some(OutputFormat::Toml)
        } else {
            proof {
                assert forall|f: OutputFormat| output_format_name(f) != lower_of(name@) by {
                    match f {
                        OutputFormat::Json => {},
                        OutputFormat::Yaml => {},
                        OutputFormat::Toml => {},
                    }
                }
            }
            None
        }
    }
}

} // verus!
