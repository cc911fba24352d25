use todoco::config::Config;
use todoco::error::AppError;

#[test]
fn write_config_test() {
    let config = Config::new(String::from("bla"));
    let content = config.to_toml_string();
    let expected = "name = 'bla'\n";
    assert_eq!(content, expected);
}

#[test]
fn config_round_trips_through_its_document() {
    let config = Config::new(String::from("bla"));
    let content = config.to_toml_string();
    let read_back = Config::from_toml_str(content.as_str()).unwrap();
    assert_eq!(read_back, config);
}

#[test]
fn config_document_is_real_toml() {
    let config = Config::new(String::from("bla"));
    let content = config.to_toml_string();
    let value: toml::Value = toml::from_str(content.as_str()).unwrap();
    assert_eq!(value.get("name").and_then(|v| v.as_str()), Some("bla"));
}

#[test]
fn parse_accepts_ordinary_toml_spellings() {
    let double_quoted = Config::from_toml_str("name = \"bla\"\n").unwrap();
    assert_eq!(double_quoted.name, "bla");
    let no_newline = Config::from_toml_str("name = 'bla'").unwrap();
    assert_eq!(no_newline.name, "bla");
    let spaced = Config::from_toml_str("  name   =   'bla'  \n").unwrap();
    assert_eq!(spaced.name, "bla");
    let commented = Config::from_toml_str("# project file\nname = 'bla'\nversion = 3\n").unwrap();
    assert_eq!(commented.name, "bla");
}

#[test]
fn malformed_config_is_invalid_data() {
    assert_eq!(Config::from_toml_str("").unwrap_err(), AppError::InvalidData);
    assert_eq!(Config::from_toml_str("title = 'x'\n").unwrap_err(), AppError::InvalidData);
    assert_eq!(Config::from_toml_str("name = 'unterminated\n").unwrap_err(), AppError::InvalidData);
    assert_eq!(Config::from_toml_str("name = 'a'b'\n").unwrap_err(), AppError::InvalidData);
    assert_eq!(Config::from_toml_str("name = 3\n").unwrap_err(), AppError::InvalidData);
}

#[test]
fn parse_accepts_canonical_document() {
    let read = Config::from_toml_str("name = 'my project'\n").unwrap();
    assert_eq!(read.name, "my project");
}
