use rcli::{
    parse_base64_format, parse_format, parse_text_format, Base64Format, OutputFormat, TextError,
    TextSignFormat,
};

#[test]
fn text_formats_are_read_whatever_the_case() {
    assert_eq!(parse_text_format("blake3"), Ok(TextSignFormat::Blake3));
    assert_eq!(parse_text_format("BLAKE3"), Ok(TextSignFormat::Blake3));
    assert_eq!(parse_text_format("Ed25519"), Ok(TextSignFormat::Ed25519));
    assert_eq!(parse_text_format("ChaCha20Poly1305"), Ok(TextSignFormat::ChaCha20Poly1305));
    assert_eq!(TextSignFormat::from_str("ed25519"), Ok(TextSignFormat::Ed25519));
}

#[test]
fn unknown_names_are_refused() {
    assert_eq!(parse_text_format("blake2"), Err(TextError::InvalidFormat));
    assert_eq!(parse_text_format(""), Err(TextError::InvalidFormat));
    assert_eq!(parse_text_format(" blake3"), Err(TextError::InvalidFormat));
    assert_eq!(parse_base64_format("url-safe"), Err(TextError::InvalidFormat));
    assert_eq!(parse_format("toml"), Err(TextError::InvalidFormat));
    assert_eq!(parse_format("standard"), Err(TextError::InvalidFormat));
}

#[test]
fn base64_formats_are_read_whatever_the_case() {
    assert_eq!(parse_base64_format("standard"), Ok(Base64Format::Standard));
    assert_eq!(parse_base64_format("UrlSafe"), Ok(Base64Format::UrlSafe));
    assert_eq!(Base64Format::from_str("URLSAFE"), Ok(Base64Format::UrlSafe));
}

#[test]
fn output_formats_are_read_whatever_the_case() {
    assert_eq!(parse_format("json"), Ok(OutputFormat::Json));
    assert_eq!(parse_format("YAML"), Ok(OutputFormat::Yaml));
    assert_eq!(OutputFormat::from_str("Json"), Ok(OutputFormat::Json));
}

#[test]
fn lower_case_follows_unicode() {
    // U+212A, the Kelvin sign, has the small letter k as its lower case.
    assert_eq!(parse_text_format("bla\u{212a}e3"), Ok(TextSignFormat::Blake3));
}

#[test]
fn names_read_back_as_the_formats_they_name() {
    for format in [TextSignFormat::Blake3, TextSignFormat::Ed25519, TextSignFormat::ChaCha20Poly1305] {
        assert_eq!(parse_text_format(format.name()), Ok(format));
        assert_eq!(format.to_string(), format.name());
    }
    for format in [Base64Format::Standard, Base64Format::UrlSafe] {
        assert_eq!(parse_base64_format(format.name()), Ok(format));
        assert_eq!(format.to_string(), format.name());
    }
    for format in [OutputFormat::Json, OutputFormat::Yaml] {
        assert_eq!(parse_format(format.name()), Ok(format));
        assert_eq!(format.to_string(), format.name());
    }
    assert_eq!(TextSignFormat::Blake3.name(), "blake3");
    assert_eq!(TextSignFormat::Ed25519.name(), "ed25519");
    assert_eq!(TextSignFormat::ChaCha20Poly1305.name(), "chacha20poly1305");
    assert_eq!(Base64Format::Standard.name(), "standard");
    assert_eq!(Base64Format::UrlSafe.name(), "urlsafe");
    assert_eq!(OutputFormat::Json.name(), "json");
    assert_eq!(OutputFormat::Yaml.name(), "yaml");
}
