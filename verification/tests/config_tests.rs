use starship_manager::config::validate_toml;

#[test]
fn validate_good_toml() {
    assert!(validate_toml("[character]\nsymbol = \"λ\"").is_ok());
}

#[test]
fn validate_bad_toml() {
    assert!(validate_toml("[invalid toml !!!").is_err());
}

#[test]
fn validate_bad_toml_message_names_position() {
    let err = validate_toml("key = ").unwrap_err();
    assert!(err.contains("TOML parse error"));
}

#[test]
fn validate_empty_toml() {
    assert!(validate_toml("").is_ok());
}
