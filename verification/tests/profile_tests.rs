use starship_manager::profile::{
    is_toml_extension, profile_name, select_profiles, sort_profiles, text_le_exec, Profile,
    ProfileCandidate,
};
use std::path::PathBuf;

fn profile(name: &str, content: &str) -> Profile {
    Profile {
        name: name.to_string(),
        path: PathBuf::from(format!("/profiles/{name}.toml")),
        content: content.to_string(),
    }
}

#[test]
fn profile_name_from_stem() {
    assert_eq!(profile_name(Some("test".to_string())), "test");
    assert_eq!(profile_name(None), "untitled");
}

#[test]
fn only_toml_files_are_profiles() {
    assert!(is_toml_extension(Some("toml")));
    assert!(!is_toml_extension(Some("md")));
    assert!(!is_toml_extension(Some("TOML")));
    assert!(!is_toml_extension(Some("tom")));
    assert!(!is_toml_extension(None));
}

#[test]
fn profiles_sorted_by_name() {
    let sorted = sort_profiles(vec![
        profile("beta", "# beta"),
        profile("alpha", "# alpha"),
        profile("Zeta", "# zeta"),
        profile("al", "# al"),
    ]);
    let names: Vec<&str> = sorted.iter().map(|p| p.name.as_str()).collect();
    assert_eq!(names, vec!["Zeta", "al", "alpha", "beta"]);
    assert_eq!(sorted[2].content, "# alpha");
    assert_eq!(sorted[2].path, PathBuf::from("/profiles/alpha.toml"));
}

#[test]
fn sorting_keeps_equal_names_in_order() {
    let sorted = sort_profiles(vec![profile("same", "first"), profile("b", "x"), profile("same", "second")]);
    assert_eq!(sorted[0].content, "x");
    assert_eq!(sorted[1].content, "first");
    assert_eq!(sorted[2].content, "second");
}

#[test]
fn sort_empty() {
    assert!(sort_profiles(Vec::new()).is_empty());
}

#[test]
fn text_order_matches_string_order() {
    let words = ["", "a", "ab", "b", "B", "é", "z", "λ", "aa"];
    for x in words {
        for y in words {
            assert_eq!(text_le_exec(x, y), x <= y, "{x:?} <= {y:?}");
        }
    }
}

#[test]
fn select_profiles_keeps_loaded_and_warns_on_rest() {
    let listing = select_profiles(vec![
        ProfileCandidate { path: "/p/beta.toml".to_string(), loaded: Ok(profile("beta", "# beta")) },
        ProfileCandidate { path: "/p/bad.toml".to_string(), loaded: Err("reading profile /p/bad.toml".to_string()) },
        ProfileCandidate { path: "/p/alpha.toml".to_string(), loaded: Ok(profile("alpha", "# alpha")) },
    ]);
    let names: Vec<&str> = listing.profiles.iter().map(|p| p.name.as_str()).collect();
    assert_eq!(names, vec!["alpha", "beta"]);
    assert_eq!(listing.warnings, vec!["Warning: skipping /p/bad.toml: reading profile /p/bad.toml"]);
    let empty = select_profiles(Vec::new());
    assert!(empty.profiles.is_empty() && empty.warnings.is_empty());
}
