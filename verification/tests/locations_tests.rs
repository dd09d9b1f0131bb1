use starship_manager::locations::{
    active_starship_config_path, config_dir, config_dir_in, profiles_dir, starship_config_path_in,
};
use std::path::PathBuf;

#[test]
fn config_dir_under_base_or_current_dir() {
    assert_eq!(config_dir_in(Some(PathBuf::from("/home/u/.config"))), PathBuf::from("/home/u/.config/starship-manager"));
    assert_eq!(config_dir_in(None), PathBuf::from("./starship-manager"));
}

#[test]
fn profiles_dir_inside_config_dir() {
    let p = profiles_dir();
    assert!(p.ends_with("starship-manager/profiles"));
    assert_eq!(p, config_dir().join("profiles"));
}

#[test]
fn starship_config_path_prefers_variable() {
    assert_eq!(
        starship_config_path_in(Some("/etc/star.toml".to_string()), Some(PathBuf::from("/home/u"))),
        PathBuf::from("/etc/star.toml")
    );
    assert_eq!(
        starship_config_path_in(None, Some(PathBuf::from("/home/u"))),
        PathBuf::from("/home/u/.config/starship.toml")
    );
    assert_eq!(starship_config_path_in(None, None), PathBuf::from("./.config/starship.toml"));
    assert_eq!(active_starship_config_path(Some("x.toml".to_string())), PathBuf::from("x.toml"));
    assert!(active_starship_config_path(None).ends_with(".config/starship.toml"));
}
